use pam_oauth2_device::error::{OAuthErrorCode, ProviderError};
use pam_oauth2_device::flow::{DeviceAuthorization, DeviceFlow, FlowOutcome, PollStep};
use pam_oauth2_device::module::{outcome_of_decision, outcome_of_flow, AuthOutcome, FailureReason, PamCode, PamOAuth2Device};
use pam_oauth2_device::provider::{
    Strategy, read_device_authorization, read_introspection, read_token_reply, DeviceAuthorizeReply, IntrospectionReply, TokenReply,
};
use pam_oauth2_device::validator::TokenValidator;

fn pending() -> Result<String, ProviderError> {
    Err(ProviderError::Provider(OAuthErrorCode::AuthorizationPending))
}

fn auth(expires_in: u64, interval: u64) -> DeviceAuthorization {
    DeviceAuthorization {
        device_code: "dc".to_string(),
        user_code: "uc".to_string(),
        verification_uri: "https://example.com/device".to_string(),
        verification_uri_complete: None,
        expires_in,
        interval,
    }
}

/// Plays the replies in turn on a clock that only the waits advance.
fn drive(flow: &mut DeviceFlow, replies: Vec<Result<String, ProviderError>>) -> (Vec<u64>, Option<FlowOutcome>) {
    let mut clock: u64 = 0;
    let mut waits = Vec::new();
    for r in replies {
        match flow.on_reply(r, clock) {
            PollStep::Wait(d) => {
                waits.push(d);
                clock += d;
            }
            PollStep::Finished(o) => return (waits, Some(o)),
        }
    }
    (waits, None)
}

#[test]
fn pending_then_token_waits_once_per_pending() {
    for n in 0..6usize {
        let mut flow = DeviceFlow::start(&auth(1800, 5), None);
        let mut replies: Vec<_> = (0..n).map(|_| pending()).collect();
        replies.push(Ok("tok".to_string()));
        let (waits, outcome) = drive(&mut flow, replies);
        assert_eq!(waits, vec![5; n]);
        assert!(outcome == Some(FlowOutcome::Succeeded("tok".to_string())));
    }
}

#[test]
fn pending_until_timeout_times_out() {
    let mut flow = DeviceFlow::start(&auth(1800, 5), Some(12));
    let mut replies: Vec<_> = (0..5).map(|_| pending()).collect();
    replies.push(Ok("tok".to_string()));
    let (waits, outcome) = drive(&mut flow, replies);
    assert_eq!(waits, vec![5, 5]);
    assert!(outcome == Some(FlowOutcome::TimedOut));
}

#[test]
fn timeout_defaults_to_code_lifetime() {
    let flow = DeviceFlow::start(&auth(1800, 5), None);
    assert_eq!(flow.timeout, 1800);
    assert_eq!(flow.interval, 5);
    let flow = DeviceFlow::start(&auth(1800, 0), Some(60));
    assert_eq!(flow.timeout, 60);
    assert_eq!(flow.interval, 1);
}

#[test]
fn wait_that_ends_exactly_at_timeout_is_allowed() {
    let mut flow = DeviceFlow::start(&auth(10, 5), None);
    assert!(flow.on_reply(pending(), 5) == PollStep::Wait(5));
    assert!(flow.on_reply(pending(), 6) == PollStep::Finished(FlowOutcome::TimedOut));
}

#[test]
fn slow_down_raises_interval_for_the_rest_of_the_attempt() {
    let mut flow = DeviceFlow::start(&auth(1800, 5), None);
    let slow = Err(ProviderError::Provider(OAuthErrorCode::SlowDown));
    let (waits, outcome) = drive(&mut flow, vec![pending(), slow, pending(), pending(), Ok("t".to_string())]);
    assert_eq!(waits, vec![5, 10, 10, 10]);
    assert!(outcome == Some(FlowOutcome::Succeeded("t".to_string())));
    assert_eq!(flow.interval, 10);
}

#[test]
fn fatal_replies_end_polling() {
    for e in [
        ProviderError::Provider(OAuthErrorCode::AccessDenied),
        ProviderError::Provider(OAuthErrorCode::ExpiredToken),
        ProviderError::Provider(OAuthErrorCode::InvalidClient),
        ProviderError::Network,
        ProviderError::Malformed { status: 500, unknown_code: false },
    ] {
        let mut flow = DeviceFlow::start(&auth(1800, 5), None);
        let (waits, outcome) = drive(&mut flow, vec![pending(), Err(e), Ok("t".to_string())]);
        assert_eq!(waits, vec![5]);
        assert!(outcome == Some(FlowOutcome::Failed(e)));
        assert_eq!(
            outcome_of_flow(&outcome.unwrap()),
            Some(AuthOutcome::Failure(FailureReason::Provider(e)))
        );
    }
}

#[test]
fn end_to_end_success() {
    let now: u64 = 1_700_000_000;
    let device = DeviceAuthorizeReply {
        device_code: Some("D1273234".to_string()),
        user_code: Some("WDJB-MJHT".to_string()),
        verification_uri: Some("https://example.com/device".to_string()),
        verification_uri_complete: None,
        expires_in: Some(1800),
        interval: Some(5),
        error: None,
    };
    let authz = read_device_authorization(200, Some(device)).ok().unwrap();
    assert_eq!(authz.device_code, "D1273234");
    let mut flow = DeviceFlow::start(&authz, None);

    let pending_body = || TokenReply { access_token: None, id_token: None, error: Some("authorization_pending".to_string()) };
    let granted = TokenReply { access_token: Some("tok123".to_string()), id_token: None, error: None };
    let replies = vec![
        read_token_reply(400, Some(pending_body()), Strategy::Introspection),
        read_token_reply(400, Some(pending_body()), Strategy::Introspection),
        read_token_reply(200, Some(granted), Strategy::Introspection),
    ];
    let (waits, outcome) = drive(&mut flow, replies);
    assert_eq!(waits, vec![5, 5]);
    let outcome = outcome.unwrap();
    assert_eq!(outcome_of_flow(&outcome), None);
    assert!(outcome == FlowOutcome::Succeeded("tok123".to_string()));

    let introspection = IntrospectionReply {
        active: Some(true),
        scope: Some("openid profile".to_string()),
        username: Some("alice".to_string()),
        exp: Some(now + 600),
        error: None,
    };
    let claims = read_introspection(200, Some(introspection)).unwrap();
    let accepted = TokenValidator::new("openid profile").validate(&claims, "alice", now);
    let result = outcome_of_decision(accepted);
    assert_eq!(result, AuthOutcome::Success);
    assert_eq!(PamOAuth2Device::authenticate_code(result), PamCode::Success);
}

#[test]
fn outcome_codes() {
    assert_eq!(PamOAuth2Device::authenticate_code(AuthOutcome::Failure(FailureReason::Config)), PamCode::SystemErr);
    assert_eq!(PamOAuth2Device::authenticate_code(AuthOutcome::Failure(FailureReason::Client)), PamCode::SystemErr);
    assert_eq!(PamOAuth2Device::authenticate_code(AuthOutcome::Failure(FailureReason::Conversation)), PamCode::ConvErr);
    assert_eq!(PamOAuth2Device::authenticate_code(AuthOutcome::Failure(FailureReason::TimedOut)), PamCode::AuthErr);
    assert_eq!(PamOAuth2Device::authenticate_code(AuthOutcome::Failure(FailureReason::Rejected)), PamCode::AuthErr);
    assert_eq!(outcome_of_decision(false), AuthOutcome::Failure(FailureReason::Rejected));
    assert_eq!(outcome_of_flow(&FlowOutcome::TimedOut), Some(AuthOutcome::Failure(FailureReason::TimedOut)));
    assert_eq!(PamOAuth2Device::sm_setcred(), PamCode::Success);
    assert_eq!(PamOAuth2Device::acct_mgmt(), PamCode::Success);
    assert_eq!(PamOAuth2Device::sm_chauthtok(), PamCode::Ignore);
    assert_eq!(PamOAuth2Device::sm_open_session(), PamCode::Ignore);
    assert_eq!(PamOAuth2Device::sm_close_session(), PamCode::Ignore);
}
