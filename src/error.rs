//! The closed set of failure causes shared by the provider mapping, the
//! polling coordinator and the validator.

use vstd::prelude::*;
use crate::text::text_eq;

verus! {

/// The error codes of the OAuth token endpoint that this system acts on.
#[derive(Clone, Copy, Debug, PartialEq, Eq, Structural)]
pub enum OAuthErrorCode {
    /// `authorization_pending`: the user has not finished yet; poll again.
    AuthorizationPending,
    /// `slow_down`: poll again, less often.
    SlowDown,
    /// `access_denied`: the user refused.
    AccessDenied,
    /// `expired_token`: the device code lapsed.
    ExpiredToken,
    /// `invalid_client`: the client credentials were refused.
    InvalidClient,
}

/// Why a request to the provider did not produce what was asked for.
#[derive(Clone, Copy, Debug, PartialEq, Eq, Structural)]
pub enum ProviderError {
    /// Transport, name resolution or TLS failure.
    Network,
    /// A structured OAuth error body.
    Provider(OAuthErrorCode),
    /// A body of unexpected shape, an undocumented status, or an error code
    /// outside the known ones (`unknown_code`); holds the status.
    Malformed { status: u16, unknown_code: bool },
}

/// The wire spelling of each code; any other spelling is not a known code.
pub open spec fn code_named(name: Seq<char>) -> Option<OAuthErrorCode> {
    if name == "authorization_pending"@ {
        Some(OAuthErrorCode::AuthorizationPending)
    } else if name == "slow_down"@ {
        Some(OAuthErrorCode::SlowDown)
    } else if name == "access_denied"@ {
        Some(OAuthErrorCode::AccessDenied)
    } else if name == "expired_token"@ {
        Some(OAuthErrorCode::ExpiredToken)
    } else if name == "invalid_client"@ {
        Some(OAuthErrorCode::InvalidClient)
    } else {
        None
    }
}

/// Decodes the `error` field of a token endpoint reply.
pub fn decode_error_code(name: &str) -> (r: Option<OAuthErrorCode>)
    ensures
        r == code_named(name@),
{
    if text_eq(name, "authorization_pending") {
        Some(OAuthErrorCode::AuthorizationPending)
    } else if text_eq(name, "slow_down") {
        Some(OAuthErrorCode::SlowDown)
    } else if text_eq(name, "access_denied") {
        Some(OAuthErrorCode::AccessDenied)
    } else if text_eq(name, "expired_token") {
        Some(OAuthErrorCode::ExpiredToken)
    } else if text_eq(name, "invalid_client") {
        Some(OAuthErrorCode::InvalidClient)
    } else {
        None
    }
}

/// The line that stands for a provider error in a cause chain.
pub open spec fn provider_error_text(e: ProviderError) -> Seq<char> {
    match e {
        ProviderError::Network => "Request failed"@,
        ProviderError::Provider(_) => "Server returned error response"@,
        ProviderError::Malformed { unknown_code: true, .. } => "Server returned error response"@,
        ProviderError::Malformed { unknown_code: false, .. } =>
            "Other error: Server returned empty error response"@,
    }
}

/// Describes a provider error for a cause chain.
pub fn describe_error(e: ProviderError) -> (r: String)
    ensures
        r@ == provider_error_text(e),
{
    match e {
        ProviderError::Network => String::from_str("Request failed"),
        ProviderError::Provider(_) => String::from_str("Server returned error response"),
        ProviderError::Malformed { unknown_code: true, .. } => String::from_str(
            "Server returned error response",
        ),
        ProviderError::Malformed { unknown_code: false, .. } => String::from_str(
            "Other error: Server returned empty error response",
        ),
    }
}

/// The separator between an error and each of its causes in a report.
pub open spec fn cause_prefix() -> Seq<char> {
    "\n    caused by: "@
}

/// `msg`, then each cause on a line of its own, outermost first.
pub open spec fn chain_text(msg: Seq<char>, causes: Seq<Seq<char>>) -> Seq<char>
    decreases causes.len(),
{
    if causes.len() == 0 {
        msg
    } else {
        chain_text(msg, causes.drop_last()) + cause_prefix() + causes.last()
    }
}

/// The diagnostic report of a failure and the chain of its causes.
pub fn error_report(msg: &str, causes: &Vec<String>) -> (r: String)
    ensures
        r@ == chain_text(msg@, causes@.map_values(|c: String| c@)),
{
    let ghost views = causes@.map_values(|c: String| c@);
    let mut out = String::from_str(msg);
    let mut i: usize = 0;
    while i < causes.len()
        invariant
            i <= causes@.len(),
            views == causes@.map_values(|c: String| c@),
            out@ == chain_text(msg@, views.subrange(0, i as int)),
        decreases causes@.len() - i,
    {
        out.append("\n    caused by: ");
        out.append(causes[i].as_str());
        proof {
            assert(views.subrange(0, i + 1).drop_last() =~= views.subrange(0, i as int));
        }
        i = i + 1;
    }
    proof {
        assert(views.subrange(0, causes@.len() as int) =~= views);
    }
    out
}

} // verus!
