use pam_oauth2_device::config::Messages;
use pam_oauth2_device::error::{describe_error, error_report, ProviderError};
use pam_oauth2_device::prompt::{QrString, UserPrompt};
use pam_oauth2_device::provider::{read_device_authorization, DeviceAuthorizeReply};

fn body(complete: Option<&str>) -> DeviceAuthorizeReply {
    DeviceAuthorizeReply {
        device_code: Some("mocking_device_code".to_string()),
        user_code: Some("mocking_user_code".to_string()),
        verification_uri: Some("https://mocking.uri/".to_string()),
        verification_uri_complete: complete.map(|s| s.to_string()),
        expires_in: Some(3600),
        interval: Some(5),
        error: None,
    }
}

fn messages() -> Messages {
    Messages {
        prompt_complete: "Scan QR code above or login via provided link in your web browser:".to_string(),
        prompt_no_qr_complete: "Login via provided link in your web browser:".to_string(),
        prompt_incomplete: "Scan QR code above or open provided link in your web browser:".to_string(),
        prompt_no_qr_incomplete: "Open provided link in your web browser:".to_string(),
        prompt_code: "And enter this unique code:".to_string(),
        prompt_enter: "Press \"ENTER\" after successful authentication:".to_string(),
    }
}

#[test]
fn device_basic_uri() {
    let resp = read_device_authorization(200, Some(body(None))).unwrap();
    let mut prompt = UserPrompt::new(&resp, &messages());

    assert_eq!(resp.device_code, "mocking_device_code");
    assert_eq!(resp.user_code, "mocking_user_code");
    assert_eq!(resp.verification_uri, "https://mocking.uri/");
    assert_eq!(resp.expires_in, 3600);
    assert_eq!(resp.interval, 5);

    assert_eq!(prompt.render(), "\nOpen provided link in your web browser:\nhttps://mocking.uri/\nAnd enter this unique code:\nmocking_user_code\nPress \"ENTER\" after successful authentication:");

    assert_eq!(prompt.qr_target(), "https://mocking.uri/");
    prompt.set_qr(Some(QrString::new("[qr]".to_string())));
    assert_eq!(
        prompt.render(),
        format!(
            "\n{}\n{}",
            "[qr]",
            "Scan QR code above or open provided link in your web browser:\nhttps://mocking.uri/\nAnd enter this unique code:\nmocking_user_code\nPress \"ENTER\" after successful authentication:"
        )
    );
}

#[test]
fn device_uri_complete() {
    let resp = read_device_authorization(200, Some(body(Some("https://mocking.uri/mocking_user_code")))).unwrap();
    let mut prompt = UserPrompt::new(&resp, &messages());

    assert_eq!(resp.device_code, "mocking_device_code");
    assert_eq!(resp.user_code, "mocking_user_code");
    assert_eq!(resp.verification_uri, "https://mocking.uri/");
    assert_eq!(
        resp.verification_uri_complete.as_deref().unwrap(),
        "https://mocking.uri/mocking_user_code"
    );
    assert_eq!(resp.expires_in, 3600);
    assert_eq!(resp.interval, 5);

    assert_eq!(
        prompt.render(),
        "\nLogin via provided link in your web browser:\nhttps://mocking.uri/mocking_user_code\nPress \"ENTER\" after successful authentication:"
    );

    assert_eq!(prompt.qr_target(), "https://mocking.uri/mocking_user_code");
    prompt.set_qr(Some(QrString::new("[qr]".to_string())));
    assert_eq!(
        prompt.render(),
        format!(
            "\n{}\nScan QR code above or login via provided link in your web browser:\nhttps://mocking.uri/mocking_user_code\nPress \"ENTER\" after successful authentication:",
            "[qr]"
        )
    );
}

#[test]
fn err_500_device() {
    let mut b = body(None);
    b.error = Some("500 Internal Server Error".to_string());
    let resp = read_device_authorization(500, Some(b));
    assert!(resp.is_err());
    let err = resp.err().unwrap();
    assert_eq!(err, ProviderError::Malformed { status: 500, unknown_code: true });
    assert_eq!(
        error_report("Failed to get device code", &vec![describe_error(err)]),
        "Failed to get device code\n    caused by: Server returned error response"
    );
}

#[test]
fn device_reply_missing_field_is_malformed() {
    let mut b = body(None);
    b.user_code = None;
    assert_eq!(read_device_authorization(200, Some(b)).err(), Some(ProviderError::Malformed { status: 200, unknown_code: false }));
    assert_eq!(read_device_authorization(200, None).err(), Some(ProviderError::Malformed { status: 200, unknown_code: false }));
}

#[test]
fn device_reply_without_interval_defaults_to_five_seconds() {
    let mut b = body(None);
    b.interval = None;
    assert_eq!(read_device_authorization(200, Some(b)).unwrap().interval, 5);
}

#[test]
fn device_fields_round_trip() {
    let b = DeviceAuthorizeReply {
        device_code: Some("D1273234".to_string()),
        user_code: Some("WDJB-MJHT".to_string()),
        verification_uri: Some("https://example.com/device".to_string()),
        verification_uri_complete: Some("https://example.com/device?user_code=WDJB-MJHT".to_string()),
        expires_in: Some(1800),
        interval: Some(5),
        error: None,
    };
    let a = read_device_authorization(200, Some(b)).unwrap();
    assert_eq!(a.device_code, "D1273234");
    assert_eq!(a.user_code, "WDJB-MJHT");
    assert_eq!(a.verification_uri, "https://example.com/device");
    assert_eq!(
        a.verification_uri_complete.as_deref(),
        Some("https://example.com/device?user_code=WDJB-MJHT")
    );
    assert_eq!(a.expires_in, 1800);
    assert_eq!(a.interval, 5);
}

#[test]
fn default_messages_render() {
    let resp = read_device_authorization(200, Some(body(None))).unwrap();
    let prompt = UserPrompt::new(&resp, &Messages::default());
    assert_eq!(
        prompt.render(),
        "\nOpen the following link in your web browser:\nhttps://mocking.uri/\nOnce you're in, enter the following code:\nmocking_user_code\nPress \"ENTER\" after successful authentication..."
    );
}

#[test]
fn device_reply_error_code_is_decoded() {
    let mut b = body(None);
    b.error = Some("invalid_client".to_string());
    assert_eq!(
        read_device_authorization(401, Some(b)).err(),
        Some(ProviderError::Provider(pam_oauth2_device::error::OAuthErrorCode::InvalidClient))
    );
}
