//! The device-flow coordinator: from a device authorization to an access
//! token, honouring the provider's polling interval and the attempt's
//! timeout. The caller performs each poll and each wait; this module decides
//! what comes next.

use vstd::prelude::*;
use crate::error::{OAuthErrorCode, ProviderError};

verus! {

/// Seconds added to the polling interval on each `slow_down` reply.
pub const SLOW_DOWN_STEP: u64 = 5;

/// What the device-authorize endpoint handed out for one attempt. No
/// `Debug`: the device code must not reach a log.
pub struct DeviceAuthorization {
    /// Secret correlation code for polling; never shown to the user.
    pub device_code: String,
    /// Short code the user types on the verification page.
    pub user_code: String,
    pub verification_uri: String,
    pub verification_uri_complete: Option<String>,
    /// Lifetime of the device code, in seconds from issuance.
    pub expires_in: u64,
    /// Provider's polling interval in seconds.
    pub interval: u64,
}

/// How one polling attempt ended. No `Debug`: it may hold the access token.
#[derive(PartialEq, Eq)]
pub enum FlowOutcome {
    /// The provider issued this access token.
    Succeeded(String),
    /// A fatal error ended the attempt.
    Failed(ProviderError),
    /// The next wait would have run past the timeout.
    TimedOut,
}

/// What to do after a poll.
#[derive(PartialEq, Eq)]
pub enum PollStep {
    /// Block for this many seconds, then poll again.
    Wait(u64),
    /// Stop polling.
    Finished(FlowOutcome),
}

/// The polling state of one attempt.
#[derive(Debug)]
pub struct DeviceFlow {
    /// Current interval between polls, in seconds.
    pub interval: u64,
    /// Time allowed from issuance of the device code, in seconds.
    pub timeout: u64,
}

impl DeviceFlow {
    pub open spec fn wf(&self) -> bool {
        self.interval >= 1
    }

    /// The state in which polling starts: the provider's interval (at least
    /// a second), and the configured timeout or else the code's lifetime.
    pub open spec fn initial(auth: DeviceAuthorization, timeout: Option<u64>) -> DeviceFlow {
        DeviceFlow {
            interval: if auth.interval >= 1 {
                auth.interval
            } else {
                1
            },
            timeout: match timeout {
                Some(t) => t,
                None => auth.expires_in,
            },
        }
    }

    /// The interval after a `slow_down` reply.
    pub open spec fn slowed(interval: u64) -> u64 {
        if interval <= u64::MAX - SLOW_DOWN_STEP {
            (interval + SLOW_DOWN_STEP) as u64
        } else {
            u64::MAX
        }
    }

    /// Waits `interval` after `elapsed` seconds, or times out if the next
    /// poll would come after the timeout.
    pub open spec fn wait_or_time_out(interval: u64, timeout: u64, elapsed: int) -> PollStep {
        if elapsed + interval > timeout {
            PollStep::Finished(FlowOutcome::TimedOut)
        } else {
            PollStep::Wait(interval)
        }
    }

    /// The decision after a poll answered `reply`, `elapsed` seconds after
    /// the device code was issued.
    pub open spec fn next(self, reply: Result<String, ProviderError>, elapsed: int) -> (
        DeviceFlow,
        PollStep,
    ) {
        match reply {
            Ok(token) => (self, PollStep::Finished(FlowOutcome::Succeeded(token))),
            Err(ProviderError::Provider(OAuthErrorCode::AuthorizationPending)) => (
                self,
                Self::wait_or_time_out(self.interval, self.timeout, elapsed),
            ),
            Err(ProviderError::Provider(OAuthErrorCode::SlowDown)) => {
                let slower = DeviceFlow { interval: Self::slowed(self.interval), ..self };
                (slower, Self::wait_or_time_out(slower.interval, self.timeout, elapsed))
            },
            Err(e) => (self, PollStep::Finished(FlowOutcome::Failed(e))),
        }
    }

    /// Starts polling for a device authorization.
    pub fn start(auth: &DeviceAuthorization, timeout: Option<u64>) -> (r: DeviceFlow)
        ensures
            r == Self::initial(*auth, timeout),
            r.wf(),
    {
        DeviceFlow {
            interval: if auth.interval >= 1 {
                auth.interval
            } else {
                1
            },
            timeout: match timeout {
                Some(t) => t,
                None => auth.expires_in,
            },
        }
    }

    fn wait_or_stop(interval: u64, timeout: u64, elapsed: u64) -> (r: PollStep)
        ensures
            r == Self::wait_or_time_out(interval, timeout, elapsed as int),
    {
        if interval > timeout || elapsed > timeout - interval {
            PollStep::Finished(FlowOutcome::TimedOut)
        } else {
            PollStep::Wait(interval)
        }
    }

    /// Takes the reply to a poll made `elapsed` seconds after issuance of
    /// the device code, and says whether to wait and poll again or to stop.
    pub fn on_reply(&mut self, reply: Result<String, ProviderError>, elapsed: u64) -> (r: PollStep)
        requires
            old(self).wf(),
        ensures
            (*final(self), r) == old(self).next(reply, elapsed as int),
            final(self).wf(),
    {
        match reply {
            Ok(token) => PollStep::Finished(FlowOutcome::Succeeded(token)),
            Err(ProviderError::Provider(OAuthErrorCode::AuthorizationPending)) => {
                Self::wait_or_stop(self.interval, self.timeout, elapsed)
            },
            Err(ProviderError::Provider(OAuthErrorCode::SlowDown)) => {
                self.interval = if self.interval <= u64::MAX - SLOW_DOWN_STEP {
                    self.interval + SLOW_DOWN_STEP
                } else {
                    u64::MAX
                };
                Self::wait_or_stop(self.interval, self.timeout, elapsed)
            },
            Err(e) => PollStep::Finished(FlowOutcome::Failed(e)),
        }
    }
}

/// Polling against the replies `replies`, one per poll, where each wait
/// advances a clock that reads `clock` at the first poll: the waits made, in
/// order, and the outcome if polling stopped before the replies ran out.
pub open spec fn run(
    flow: DeviceFlow,
    replies: Seq<Result<String, ProviderError>>,
    clock: int,
) -> (Seq<u64>, Option<FlowOutcome>)
    decreases replies.len(),
{
    if replies.len() == 0 {
        (Seq::empty(), None)
    } else {
        let (after, step) = flow.next(replies[0], clock);
        match step {
            PollStep::Wait(d) => {
                let (waits, outcome) = run(after, replies.drop_first(), clock + d);
                (seq![d] + waits, outcome)
            },
            PollStep::Finished(o) => (Seq::empty(), Some(o)),
        }
    }
}

/// `n` replies of `authorization_pending`.
pub open spec fn pending_replies(n: nat) -> Seq<Result<String, ProviderError>> {
    Seq::new(n, |i: int| Err(ProviderError::Provider(OAuthErrorCode::AuthorizationPending)))
}

proof fn lemma_pending_then_token_from(flow: DeviceFlow, n: nat, token: String, clock: int)
    requires
        flow.wf(),
        clock + n * flow.interval <= flow.timeout,
    ensures
        run(flow, pending_replies(n).push(Ok(token)), clock) == (
            Seq::new(n, |i: int| flow.interval),
            Some(FlowOutcome::Succeeded(token)),
        ),
    decreases n,
{
    let rs = pending_replies(n).push(Ok(token));
    if n == 0 {
        assert(rs[0] == Ok::<String, ProviderError>(token));
        assert(Seq::new(n, |i: int| flow.interval) =~= Seq::<u64>::empty());
    } else {
        let m = (n - 1) as nat;
        assert(rs[0] == Err::<String, ProviderError>(
            ProviderError::Provider(OAuthErrorCode::AuthorizationPending),
        ));
        assert(rs.drop_first() =~= pending_replies(m).push(Ok(token)));
        assert(clock + flow.interval + m * flow.interval <= flow.timeout) by (nonlinear_arith)
            requires
                clock + n * flow.interval <= flow.timeout,
                m == n - 1,
        ;
        assert(clock + flow.interval <= flow.timeout) by (nonlinear_arith)
            requires
                clock + flow.interval + m * flow.interval <= flow.timeout,
                m >= 0,
                flow.interval >= 1,
        ;
        lemma_pending_then_token_from(flow, m, token, clock + flow.interval);
        assert(seq![flow.interval] + Seq::new(m, |i: int| flow.interval) =~= Seq::new(
            n,
            |i: int| flow.interval,
        ));
    }
}

/// After `n` replies of `authorization_pending` and then a token, with the
/// `n` waits fitting in the timeout, the coordinator makes exactly `n` waits,
/// each of the full polling interval, and ends with that token.
pub proof fn lemma_pending_then_token(flow: DeviceFlow, n: nat, token: String)
    requires
        flow.wf(),
        n * flow.interval <= flow.timeout,
    ensures
        run(flow, pending_replies(n).push(Ok(token)), 0) == (
            Seq::new(n, |i: int| flow.interval),
            Some(FlowOutcome::Succeeded(token)),
        ),
{
    lemma_pending_then_token_from(flow, n, token, 0);
}

proof fn lemma_pending_until_timeout_from(
    flow: DeviceFlow,
    n: nat,
    rest: Seq<Result<String, ProviderError>>,
    clock: int,
)
    requires
        flow.wf(),
        n >= 1,
        clock + n * flow.interval > flow.timeout,
    ensures
        run(flow, pending_replies(n) + rest, clock).1 == Some(FlowOutcome::TimedOut),
        run(flow, pending_replies(n) + rest, clock).0.len() < n,
        forall|i: int|
            0 <= i < run(flow, pending_replies(n) + rest, clock).0.len() ==> run(
                flow,
                pending_replies(n) + rest,
                clock,
            ).0[i] == flow.interval,
    decreases n,
{
    let rs = pending_replies(n) + rest;
    assert(rs[0] == Err::<String, ProviderError>(
        ProviderError::Provider(OAuthErrorCode::AuthorizationPending),
    ));
    if clock + flow.interval > flow.timeout {
    } else {
        let m = (n - 1) as nat;
        assert(clock + flow.interval + m * flow.interval > flow.timeout) by (nonlinear_arith)
            requires
                clock + n * flow.interval > flow.timeout,
                m == n - 1,
        ;
        assert(m >= 1) by (nonlinear_arith)
            requires
                clock + flow.interval + m * flow.interval > flow.timeout,
                clock + flow.interval <= flow.timeout,
        ;
        assert(rs.drop_first() =~= pending_replies(m) + rest);
        lemma_pending_until_timeout_from(flow, m, rest, clock + flow.interval);
    }
}

/// When the provider keeps answering `authorization_pending` for longer
/// than the timeout allows, the attempt times out, whatever later replies
/// would have been: no wait beyond the pending ones is made.
pub proof fn lemma_pending_until_timeout(
    flow: DeviceFlow,
    n: nat,
    rest: Seq<Result<String, ProviderError>>,
)
    requires
        flow.wf(),
        n * flow.interval > flow.timeout,
    ensures
        run(flow, pending_replies(n) + rest, 0).1 == Some(FlowOutcome::TimedOut),
        run(flow, pending_replies(n) + rest, 0).0.len() < n,
{
    assert(n >= 1) by (nonlinear_arith)
        requires
            n * flow.interval > flow.timeout,
            flow.timeout >= 0,
    ;
    lemma_pending_until_timeout_from(flow, n, rest, 0);
}

} // verus!
