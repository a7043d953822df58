//! The trust decision on a token's claims: activity, identity, scope and
//! expiry, each checked on its own and all of them required.

use vstd::prelude::*;
use crate::scope::{scope_satisfied, scope_set, scope_tokens, split_scopes, string_views};
use crate::logger::{LogLevel, Logger};
use crate::text::{is_root, root_name, text_eq};

verus! {

/// What a provider asserts about an access token, as introspection or a
/// verified signed token reports it. A claim the provider left out is `None`.
#[derive(Debug)]
pub struct TokenClaims {
    pub active: bool,
    /// Space-separated granted scopes.
    pub scope: Option<String>,
    /// The remote identity.
    pub username: Option<String>,
    /// Expiry instant, in seconds since the Unix epoch.
    pub exp: Option<u64>,
}

/// The reason one of the four checks rejected a token.
#[derive(Clone, Copy, Debug, PartialEq, Eq, Structural)]
pub enum CheckFailure {
    Inactive,
    MissingUsername,
    InvalidUsername,
    MissingScope,
    InsufficientScope,
    MissingExpiry,
    Expired,
}

/// A remote identity may log in as a local account only under the same name,
/// and never as the superuser.
pub open spec fn identity_ok(remote: Seq<char>, local: Seq<char>) -> bool {
    remote == local && remote != root_name()
}

pub open spec fn active_failures(c: TokenClaims) -> Seq<CheckFailure> {
    if c.active {
        seq![]
    } else {
        seq![CheckFailure::Inactive]
    }
}

pub open spec fn identity_failures(c: TokenClaims, local: Seq<char>) -> Seq<CheckFailure> {
    match c.username {
        None => seq![CheckFailure::MissingUsername],
        Some(u) => if identity_ok(u@, local) {
            seq![]
        } else {
            seq![CheckFailure::InvalidUsername]
        },
    }
}

pub open spec fn scope_failures(c: TokenClaims, required: Seq<char>) -> Seq<CheckFailure> {
    match c.scope {
        None => seq![CheckFailure::MissingScope],
        Some(s) => if scope_set(required).subset_of(scope_set(s@)) {
            seq![]
        } else {
            seq![CheckFailure::InsufficientScope]
        },
    }
}

/// A token expiring exactly now is expired: no leeway.
pub open spec fn expiry_failures(c: TokenClaims, now: u64) -> Seq<CheckFailure> {
    match c.exp {
        None => seq![CheckFailure::MissingExpiry],
        Some(e) => if e > now {
            seq![]
        } else {
            seq![CheckFailure::Expired]
        },
    }
}

/// Every check that fails, in the fixed order active, identity, scope, expiry.
pub open spec fn claim_failures(
    c: TokenClaims,
    required: Seq<char>,
    local: Seq<char>,
    now: u64,
) -> Seq<CheckFailure> {
    active_failures(c) + identity_failures(c, local) + scope_failures(c, required)
        + expiry_failures(c, now)
}

/// The decision: all four checks hold.
pub open spec fn claims_accepted(
    c: TokenClaims,
    required: Seq<char>,
    local: Seq<char>,
    now: u64,
) -> bool {
    &&& c.active
    &&& c.username is Some && identity_ok(c.username.unwrap()@, local)
    &&& c.scope is Some && scope_set(required).subset_of(scope_set(c.scope.unwrap()@))
    &&& c.exp is Some && c.exp.unwrap() > now
}

/// Whether the remote identity may authenticate as the local account.
pub fn user_matches(remote_username: &str, local_username: &str) -> (r: bool)
    ensures
        r == identity_ok(remote_username@, local_username@),
{
    text_eq(remote_username, local_username) && !is_root(remote_username)
}

/// Whether the remote identity may authenticate as the local account; a
/// refusal is recorded in `log` as a warning.
pub fn valid_user<L: Logger>(remote_username: &str, local_username: &str, log: &mut L) -> (r: bool)
    ensures
        r == identity_ok(remote_username@, local_username@),
        final(log).records() == old(log).records() + (if r {
            Seq::empty()
        } else {
            seq![(LogLevel::Warn, invalid_user_text(remote_username@, local_username@))]
        }),
{
    let ok = user_matches(remote_username, local_username);
    if !ok {
        let mut m = String::from_str("Invalid username: remote: ");
        m.append(remote_username);
        m.append(" -> local: ");
        m.append(local_username);
        log.record(LogLevel::Warn, m);
    }
    proof {
        if ok {
            assert(log.records() =~= old(log).records() + Seq::empty());
        } else {
            assert(log.records() =~= old(log).records() + seq![
                (LogLevel::Warn, invalid_user_text(remote_username@, local_username@)),
            ]);
        }
    }
    ok
}

/// Checks claims against the scope a deployment requires.
pub struct TokenValidator {
    /// Space-separated scopes that every accepted token must grant.
    pub required_scope: String,
}

impl TokenValidator {
    pub fn new(required_scope: &str) -> (r: TokenValidator)
        ensures
            r.required_scope@ == required_scope@,
    {
        TokenValidator { required_scope: String::from_str(required_scope) }
    }

    /// Runs all four checks, none skipped, and lists those that fail.
    pub fn failures(&self, claims: &TokenClaims, local_username: &str, now: u64) -> (r: Vec<
        CheckFailure,
    >)
        ensures
            r@ == claim_failures(*claims, self.required_scope@, local_username@, now),
    {
        let mut out: Vec<CheckFailure> = Vec::new();
        if !claims.active {
            out.push(CheckFailure::Inactive);
        }
        let ghost after_active = out@;
        assert(after_active =~= active_failures(*claims));
        match &claims.username {
            None => out.push(CheckFailure::MissingUsername),
            Some(u) => if !user_matches(u.as_str(), local_username) {
                out.push(CheckFailure::InvalidUsername);
            },
        }
        let ghost after_identity = out@;
        assert(after_identity =~= after_active + identity_failures(*claims, local_username@));
        match &claims.scope {
            None => out.push(CheckFailure::MissingScope),
            Some(s) => if !scope_satisfied(self.required_scope.as_str(), s.as_str()) {
                out.push(CheckFailure::InsufficientScope);
            },
        }
        let ghost after_scope = out@;
        assert(after_scope =~= after_identity + scope_failures(*claims, self.required_scope@));
        match claims.exp {
            None => out.push(CheckFailure::MissingExpiry),
            Some(e) => if e <= now {
                out.push(CheckFailure::Expired);
            },
        }
        assert(out@ =~= after_scope + expiry_failures(*claims, now));
        out
    }

    /// The trust decision: `true` exactly when no check fails.
    pub fn validate(&self, claims: &TokenClaims, local_username: &str, now: u64) -> (r: bool)
        ensures
            r == claims_accepted(*claims, self.required_scope@, local_username@, now),
            r == (claim_failures(*claims, self.required_scope@, local_username@, now).len() == 0),
    {
        let f = self.failures(claims, local_username, now);
        f.len() == 0
    }

    /// The trust decision, with one warning recorded in `log` for each
    /// check that fails.
    pub fn validate_logged<L: Logger>(
        &self,
        claims: &TokenClaims,
        local_username: &str,
        now: u64,
        log: &mut L,
    ) -> (r: bool)
        ensures
            r == claims_accepted(*claims, self.required_scope@, local_username@, now),
            final(log).records() == old(log).records() + failure_records(
                claim_failures(*claims, self.required_scope@, local_username@, now),
                *claims,
                local_username@,
            ),
    {
        let f = self.failures(claims, local_username, now);
        let ghost start = log.records();
        let mut i: usize = 0;
        while i < f.len()
            invariant
                i <= f@.len(),
                log.records() == start + failure_records(f@.subrange(0, i as int), *claims, local_username@),
            decreases f@.len() - i,
        {
            log.record(LogLevel::Warn, failure_message(f[i], claims, local_username));
            proof {
                assert(failure_records(f@.subrange(0, i + 1), *claims, local_username@)
                    =~= failure_records(f@.subrange(0, i as int), *claims, local_username@).push(
                    (LogLevel::Warn, failure_text(f@[i as int], *claims, local_username@)),
                ));
            }
            i = i + 1;
        }
        assert(f@.subrange(0, f@.len() as int) =~= f@);
        f.len() == 0
    }
}

/// A scope token between double quotes.
pub open spec fn quoted(t: Seq<char>) -> Seq<char> {
    seq!['"'] + t + seq!['"']
}

/// Tokens listed as `"a", "b"`.
pub open spec fn quoted_list(ts: Seq<Seq<char>>) -> Seq<char>
    decreases ts.len(),
{
    if ts.len() == 0 {
        Seq::empty()
    } else if ts.len() == 1 {
        quoted(ts[0])
    } else {
        quoted_list(ts.drop_last()) + seq![',', ' '] + quoted(ts.last())
    }
}

/// The warning on a remote identity that may not use the local account.
pub open spec fn invalid_user_text(remote: Seq<char>, local: Seq<char>) -> Seq<char> {
    "Invalid username: remote: "@ + remote + " -> local: "@ + local
}

/// One warning record for each failed check, in order.
pub open spec fn failure_records(
    fs: Seq<CheckFailure>,
    c: TokenClaims,
    local: Seq<char>,
) -> Seq<(LogLevel, Seq<char>)> {
    fs.map_values(|f: CheckFailure| (LogLevel::Warn, failure_text(f, c, local)))
}

/// The diagnostic line for a failed check. Secrets never appear in it.
pub open spec fn failure_text(f: CheckFailure, c: TokenClaims, local: Seq<char>) -> Seq<char> {
    match f {
        CheckFailure::Inactive => "User token inactive!"@,
        CheckFailure::MissingUsername => "No username provided in token"@,
        CheckFailure::InvalidUsername => invalid_user_text(
            match c.username {
                Some(u) => u@,
                None => Seq::empty(),
            },
            local,
        ),
        CheckFailure::MissingScope => "No scope provided in token"@,
        CheckFailure::InsufficientScope => "Insuficient scopes for user "@ + local + ": ["@
            + quoted_list(
            match c.scope {
                Some(s) => scope_tokens(s@),
                None => Seq::empty(),
            },
        ) + "]"@,
        CheckFailure::MissingExpiry => "No expiration time provided in token"@,
        CheckFailure::Expired => "Token has expired for user "@ + local,
    }
}

/// Writes `tokens` as a list of quoted strings.
fn quote_all(tokens: &Vec<String>) -> (r: String)
    ensures
        r@ == quoted_list(string_views(tokens@)),
{
    let mut out = String::new();
    let mut i: usize = 0;
    while i < tokens.len()
        invariant
            i <= tokens@.len(),
            out@ == quoted_list(string_views(tokens@).subrange(0, i as int)),
        decreases tokens@.len() - i,
    {
        let ghost prev = out@;
        if i > 0 {
            out.append(", ");
        }
        out.append("\"");
        out.append(tokens[i].as_str());
        out.append("\"");
        proof {
            reveal_strlit(", ");
            reveal_strlit("\"");
            let v = string_views(tokens@);
            assert(v.subrange(0, i + 1).drop_last() =~= v.subrange(0, i as int));
            if i == 0 {
                assert(out@ =~= quoted(v[0]));
            } else {
                assert(out@ =~= prev + seq![',', ' '] + quoted(v[i as int]));
            }
        }
        i = i + 1;
    }
    proof {
        assert(string_views(tokens@).subrange(0, tokens@.len() as int) =~= string_views(tokens@));
    }
    out
}

/// The diagnostic line for a failed check.
pub fn failure_message(f: CheckFailure, claims: &TokenClaims, local_username: &str) -> (r: String)
    ensures
        r@ == failure_text(f, *claims, local_username@),
{
    match f {
        CheckFailure::Inactive => String::from_str("User token inactive!"),
        CheckFailure::MissingUsername => String::from_str("No username provided in token"),
        CheckFailure::InvalidUsername => {
            let mut m = String::from_str("Invalid username: remote: ");
            match &claims.username {
                Some(u) => m.append(u.as_str()),
                None => {},
            }
            m.append(" -> local: ");
            m.append(local_username);
            m
        },
        CheckFailure::MissingScope => String::from_str("No scope provided in token"),
        CheckFailure::InsufficientScope => {
            let mut m = String::from_str("Insuficient scopes for user ");
            m.append(local_username);
            m.append(": [");
            let listed = match &claims.scope {
                Some(s) => quote_all(&split_scopes(s.as_str())),
                None => String::new(),
            };
            m.append(listed.as_str());
            m.append("]");
            proof {
                assert(quoted_list(Seq::<Seq<char>>::empty()) == Seq::<char>::empty());
            }
            m
        },
        CheckFailure::MissingExpiry => String::from_str("No expiration time provided in token"),
        CheckFailure::Expired => {
            let mut m = String::from_str("Token has expired for user ");
            m.append(local_username);
            m
        },
    }
}

/// No claims whatsoever authenticate the superuser account: the identity
/// check fails for it whatever the other checks find.
pub proof fn lemma_root_never_accepted(c: TokenClaims, required: Seq<char>, now: u64)
    ensures
        !claims_accepted(c, required, root_name(), now),
        identity_failures(c, root_name()).len() == 1,
        claim_failures(c, required, root_name(), now).len() > 0,
{
}

/// The expiry check is strict: a token that expires at the current instant
/// fails it, and one that expires a second later passes it.
pub proof fn lemma_expiry_boundary(c: TokenClaims, now: u64)
    ensures
        c.exp == Some(now) ==> expiry_failures(c, now) == seq![CheckFailure::Expired],
        now < u64::MAX && c.exp == Some((now + 1) as u64) ==> expiry_failures(c, now).len() == 0,
{
}

/// The decision is the conjunction of the checks: a token is accepted
/// exactly when no check reports a failure.
pub proof fn lemma_accepted_iff_no_failure(
    c: TokenClaims,
    required: Seq<char>,
    local: Seq<char>,
    now: u64,
)
    ensures
        claims_accepted(c, required, local, now) <==> claim_failures(c, required, local, now).len()
            == 0,
{
}

} // verus!
