//! The login module's outcome: how each way an attempt ends is reported to
//! the host, and how the module's arguments read.

use vstd::prelude::*;
use crate::error::ProviderError;
use crate::flow::FlowOutcome;

verus! {

/// The result codes the module hands to the host.
#[derive(Clone, Copy, Debug, PartialEq, Eq, Structural)]
pub enum PamCode {
    Success,
    SystemErr,
    AuthErr,
    ConvErr,
    Ignore,
}

/// Why an attempt failed. The user only ever sees a generic failure.
#[derive(Clone, Copy, Debug, PartialEq, Eq, Structural)]
pub enum FailureReason {
    /// The configuration could not be read.
    Config,
    /// The OAuth client could not be built from the configuration.
    Client,
    /// The host offered no way to talk to the user.
    Conversation,
    /// A provider request failed.
    Provider(ProviderError),
    /// Polling ran past the timeout.
    TimedOut,
    /// The local account could not be provisioned.
    Provisioning,
    /// The trust checks rejected the token.
    Rejected,
}

/// How an authentication attempt ended.
#[derive(Clone, Copy, Debug, PartialEq, Eq, Structural)]
pub enum AuthOutcome {
    Success,
    Failure(FailureReason),
}

pub open spec fn flow_failure(o: FlowOutcome) -> Option<AuthOutcome> {
    match o {
        FlowOutcome::Succeeded(_) => None,
        FlowOutcome::Failed(e) => Some(AuthOutcome::Failure(FailureReason::Provider(e))),
        FlowOutcome::TimedOut => Some(AuthOutcome::Failure(FailureReason::TimedOut)),
    }
}

/// The attempt's outcome if polling ended it; `None` when a token came back.
pub fn outcome_of_flow(o: &FlowOutcome) -> (r: Option<AuthOutcome>)
    ensures
        r == flow_failure(*o),
{
    match o {
        FlowOutcome::Succeeded(_) => None,
        FlowOutcome::Failed(e) => Some(AuthOutcome::Failure(FailureReason::Provider(*e))),
        FlowOutcome::TimedOut => Some(AuthOutcome::Failure(FailureReason::TimedOut)),
    }
}

/// The outcome once the trust decision is made.
pub fn outcome_of_decision(accepted: bool) -> (r: AuthOutcome)
    ensures
        r == (if accepted {
            AuthOutcome::Success
        } else {
            AuthOutcome::Failure(FailureReason::Rejected)
        }),
{
    if accepted {
        AuthOutcome::Success
    } else {
        AuthOutcome::Failure(FailureReason::Rejected)
    }
}

pub open spec fn code_for(o: AuthOutcome) -> PamCode {
    match o {
        AuthOutcome::Success => PamCode::Success,
        AuthOutcome::Failure(FailureReason::Config) => PamCode::SystemErr,
        AuthOutcome::Failure(FailureReason::Client) => PamCode::SystemErr,
        AuthOutcome::Failure(FailureReason::Conversation) => PamCode::ConvErr,
        AuthOutcome::Failure(_) => PamCode::AuthErr,
    }
}

/// The login module.
pub struct PamOAuth2Device;

impl PamOAuth2Device {
    /// The code reported for an authentication attempt's outcome: local
    /// set-up faults are system errors, everything else on the way is an
    /// authentication error.
    pub fn authenticate_code(o: AuthOutcome) -> (r: PamCode)
        ensures
            r == code_for(o),
    {
        match o {
            AuthOutcome::Success => PamCode::Success,
            AuthOutcome::Failure(FailureReason::Config) => PamCode::SystemErr,
            AuthOutcome::Failure(FailureReason::Client) => PamCode::SystemErr,
            AuthOutcome::Failure(FailureReason::Conversation) => PamCode::ConvErr,
            AuthOutcome::Failure(_) => PamCode::AuthErr,
        }
    }

    /// Credentials need no setting up.
    pub fn sm_setcred() -> (r: PamCode)
        ensures
            r == PamCode::Success,
    {
        PamCode::Success
    }

    /// Every authenticated account is allowed.
    pub fn acct_mgmt() -> (r: PamCode)
        ensures
            r == PamCode::Success,
    {
        PamCode::Success
    }

    /// Passwords are not managed here.
    pub fn sm_chauthtok() -> (r: PamCode)
        ensures
            r == PamCode::Ignore,
    {
        PamCode::Ignore
    }

    pub fn sm_open_session() -> (r: PamCode)
        ensures
            r == PamCode::Ignore,
    {
        PamCode::Ignore
    }

    pub fn sm_close_session() -> (r: PamCode)
        ensures
            r == PamCode::Ignore,
    {
        PamCode::Ignore
    }
}

/// Splits a module argument `key=value` at its first `=`; an argument
/// without one is a key with an empty value.
pub open spec fn arg_parts(s: Seq<char>) -> (Seq<char>, Seq<char>) {
    if exists|k: int| 0 <= k < s.len() && s[k] == '=' {
        let k = choose|k: int|
            0 <= k < s.len() && s[k] == '=' && forall|j: int| 0 <= j < k ==> s[j] != '=';
        (s.subrange(0, k), s.subrange(k + 1, s.len() as int))
    } else {
        (s, Seq::empty())
    }
}

/// Reads one module argument as a key and a value.
pub fn parse_arg(arg: &str) -> (r: (String, String))
    ensures
        (r.0@, r.1@) == arg_parts(arg@),
{
    let n = arg.unicode_len();
    let mut i: usize = 0;
    while i < n
        invariant
            n == arg@.len(),
            i <= n,
            forall|j: int| 0 <= j < i ==> arg@[j] != '=',
        decreases n - i,
    {
        if arg.get_char(i) == '=' {
            let key = String::from_str(arg.substring_char(0, i));
            let value = String::from_str(arg.substring_char(i + 1, n));
            proof {
                let k = choose|k: int|
                    0 <= k < arg@.len() && arg@[k] == '=' && forall|j: int|
                        0 <= j < k ==> arg@[j] != '=';
                assert(k == i) by {
                    if k < i {
                    } else if k > i {
                        assert(arg@[i as int] == '=');
                    }
                }
            }
            return (key, value);
        }
        i = i + 1;
    }
    (String::from_str(arg), String::new())
}

} // verus!
