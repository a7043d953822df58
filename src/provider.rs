//! Reading the provider's replies. The caller makes each request and turns
//! the JSON body into the reply records below (`None` where the body could
//! not be read); this module decides what each reply means.

use vstd::prelude::*;
use crate::error::{code_named, decode_error_code, ProviderError};
use crate::flow::DeviceAuthorization;
use crate::validator::TokenClaims;

verus! {

/// Polling interval, in seconds, when the provider names none.
pub const DEFAULT_INTERVAL: u64 = 5;

/// The fields of a device-authorize reply, each as present on the wire.
pub struct DeviceAuthorizeReply {
    pub device_code: Option<String>,
    pub user_code: Option<String>,
    pub verification_uri: Option<String>,
    pub verification_uri_complete: Option<String>,
    pub expires_in: Option<u64>,
    pub interval: Option<u64>,
    pub error: Option<String>,
}

/// The fields of a token endpoint reply that decide its meaning.
pub struct TokenReply {
    pub access_token: Option<String>,
    pub id_token: Option<String>,
    pub error: Option<String>,
}

/// The fields of an introspection reply.
pub struct IntrospectionReply {
    pub active: Option<bool>,
    pub scope: Option<String>,
    pub username: Option<String>,
    pub exp: Option<u64>,
    pub error: Option<String>,
}

/// How the token that polling obtains is validated.
#[derive(Clone, Copy, Debug, PartialEq, Eq, Structural)]
pub enum Strategy {
    /// The provider's introspection endpoint reports the claims of the access token.
    Introspection,
    /// The signed ID token is verified here against the provider's published keys.
    LocalVerification,
}

/// Introspection where an introspection endpoint is configured, local
/// verification otherwise.
pub fn strategy_for(introspection_configured: bool) -> (r: Strategy)
    ensures
        r == (if introspection_configured {
            Strategy::Introspection
        } else {
            Strategy::LocalVerification
        }),
{
    if introspection_configured {
        Strategy::Introspection
    } else {
        Strategy::LocalVerification
    }
}

pub open spec fn is_success(status: u16) -> bool {
    200 <= status <= 299
}

/// The error a reply carrying the code `error` stands for: a known OAuth
/// code, else malformed. A code is never ignored, whatever the status.
pub open spec fn error_meaning(status: u16, error: String) -> ProviderError {
    match code_named(error@) {
        Some(c) => ProviderError::Provider(c),
        None => ProviderError::Malformed { status, unknown_code: true },
    }
}

fn error_of(status: u16, error: &String) -> (r: ProviderError)
    ensures
        r == error_meaning(status, *error),
{
    match decode_error_code(error.as_str()) {
        Some(c) => ProviderError::Provider(c),
        None => ProviderError::Malformed { status, unknown_code: true },
    }
}

/// What a device-authorize reply means. A reply carrying an error code
/// stands for that error; otherwise only a success with every required
/// field is an authorization.
pub open spec fn device_reply_meaning(status: u16, body: Option<DeviceAuthorizeReply>) -> Result<
    DeviceAuthorization,
    ProviderError,
> {
    match body {
        None => Err(ProviderError::Malformed { status, unknown_code: false }),
        Some(b) => if b.error is Some {
            Err(error_meaning(status, b.error.unwrap()))
        } else if is_success(status) && b.device_code is Some && b.user_code is Some
            && b.verification_uri is Some && b.expires_in is Some {
            Ok(
                DeviceAuthorization {
                    device_code: b.device_code.unwrap(),
                    user_code: b.user_code.unwrap(),
                    verification_uri: b.verification_uri.unwrap(),
                    verification_uri_complete: b.verification_uri_complete,
                    expires_in: b.expires_in.unwrap(),
                    interval: match b.interval {
                        Some(i) => i,
                        None => DEFAULT_INTERVAL,
                    },
                },
            )
        } else {
            Err(ProviderError::Malformed { status, unknown_code: false })
        },
    }
}

/// Reads a device-authorize reply. The codes and addresses are carried over
/// as they came.
pub fn read_device_authorization(status: u16, body: Option<DeviceAuthorizeReply>) -> (r: Result<
    DeviceAuthorization,
    ProviderError,
>)
    ensures
        r == device_reply_meaning(status, body),
{
    match body {
        None => Err(ProviderError::Malformed { status, unknown_code: false }),
        Some(b) => {
            if let Some(e) = &b.error {
                return Err(error_of(status, e));
            }
            if !(200 <= status && status <= 299) {
                return Err(ProviderError::Malformed { status, unknown_code: false });
            }
            match (b.device_code, b.user_code, b.verification_uri, b.expires_in) {
                (Some(device_code), Some(user_code), Some(verification_uri), Some(expires_in)) => {
                    Ok(
                        DeviceAuthorization {
                            device_code,
                            user_code,
                            verification_uri,
                            verification_uri_complete: b.verification_uri_complete,
                            expires_in,
                            interval: match b.interval {
                                Some(i) => i,
                                None => DEFAULT_INTERVAL,
                            },
                        },
                    )
                },
                _ => Err(ProviderError::Malformed { status, unknown_code: false }),
            }
        },
    }
}

/// The token a strategy validates: the access token for introspection,
/// the signed ID token for local verification.
pub open spec fn granted_token(b: TokenReply, strategy: Strategy) -> Option<String> {
    match strategy {
        Strategy::Introspection => b.access_token,
        Strategy::LocalVerification => b.id_token,
    }
}

/// What a token endpoint reply means: the token, or why there is none. A
/// reply carrying an error code never yields a token.
pub open spec fn token_reply_meaning(
    status: u16,
    body: Option<TokenReply>,
    strategy: Strategy,
) -> Result<String, ProviderError> {
    match body {
        None => Err(ProviderError::Malformed { status, unknown_code: false }),
        Some(b) => if b.error is Some {
            Err(error_meaning(status, b.error.unwrap()))
        } else if !is_success(status) {
            Err(ProviderError::Malformed { status, unknown_code: false })
        } else {
            match granted_token(b, strategy) {
                Some(t) => Ok(t),
                None => Err(ProviderError::Malformed { status, unknown_code: false }),
            }
        },
    }
}

/// Reads a token endpoint reply.
pub fn read_token_reply(status: u16, body: Option<TokenReply>, strategy: Strategy) -> (r: Result<
    String,
    ProviderError,
>)
    ensures
        r == token_reply_meaning(status, body, strategy),
{
    match body {
        None => Err(ProviderError::Malformed { status, unknown_code: false }),
        Some(b) => {
            if let Some(e) = &b.error {
                return Err(error_of(status, e));
            }
            if !(200 <= status && status <= 299) {
                return Err(ProviderError::Malformed { status, unknown_code: false });
            }
            let token = match strategy {
                Strategy::Introspection => b.access_token,
                Strategy::LocalVerification => b.id_token,
            };
            match token {
                Some(t) => Ok(t),
                None => Err(ProviderError::Malformed { status, unknown_code: false }),
            }
        },
    }
}

/// What an introspection reply means: the token's claims, or why there are none.
pub open spec fn introspection_meaning(status: u16, body: Option<IntrospectionReply>) -> Result<
    TokenClaims,
    ProviderError,
> {
    match body {
        None => Err(ProviderError::Malformed { status, unknown_code: false }),
        Some(b) => if b.error is Some {
            Err(error_meaning(status, b.error.unwrap()))
        } else if !is_success(status) {
            Err(ProviderError::Malformed { status, unknown_code: false })
        } else {
            match b.active {
                Some(a) => Ok(
                    TokenClaims { active: a, scope: b.scope, username: b.username, exp: b.exp },
                ),
                None => Err(ProviderError::Malformed { status, unknown_code: false }),
            }
        },
    }
}

/// Reads an introspection reply.
pub fn read_introspection(status: u16, body: Option<IntrospectionReply>) -> (r: Result<
    TokenClaims,
    ProviderError,
>)
    ensures
        r == introspection_meaning(status, body),
{
    match body {
        None => Err(ProviderError::Malformed { status, unknown_code: false }),
        Some(b) => {
            if let Some(e) = &b.error {
                return Err(error_of(status, e));
            }
            if !(200 <= status && status <= 299) {
                return Err(ProviderError::Malformed { status, unknown_code: false });
            }
            match b.active {
                Some(a) => Ok(
                    TokenClaims {
                        active: a,
                        scope: b.scope,
                        username: b.username,
                        exp: b.exp,
                    },
                ),
                None => Err(ProviderError::Malformed { status, unknown_code: false }),
            }
        },
    }
}

/// A well-formed device-authorize reply is accepted, and its codes,
/// addresses and timings reach the device authorization unchanged.
pub proof fn lemma_device_fields_round_trip(status: u16, b: DeviceAuthorizeReply)
    requires
        is_success(status),
        b.error is None,
        b.device_code is Some,
        b.user_code is Some,
        b.verification_uri is Some,
        b.expires_in is Some,
        b.interval is Some,
    ensures
        device_reply_meaning(status, Some(b)) is Ok,
        device_reply_meaning(status, Some(b))->Ok_0.device_code == b.device_code.unwrap(),
        device_reply_meaning(status, Some(b))->Ok_0.user_code == b.user_code.unwrap(),
        device_reply_meaning(status, Some(b))->Ok_0.verification_uri == b.verification_uri.unwrap(),
        device_reply_meaning(status, Some(b))->Ok_0.verification_uri_complete
            == b.verification_uri_complete,
        device_reply_meaning(status, Some(b))->Ok_0.expires_in == b.expires_in.unwrap(),
        device_reply_meaning(status, Some(b))->Ok_0.interval == b.interval.unwrap(),
{
}

} // verus!
