//! The local-verification strategy: a signed token checked against the
//! provider's published keys, and the identity read from its payload.

use vstd::prelude::*;
use crate::text::text_eq;
use crate::logger::{LogLevel, Logger};
use crate::validator::{
    claim_failures, claims_accepted, failure_records, TokenClaims, TokenValidator,
};
use base64::Engine;

verus! {

/// `=` characters that bring a base64 text of `n` characters to a multiple of four.
pub open spec fn padding_len(n: nat) -> nat {
    if n % 4 == 0 {
        0
    } else {
        (4 - n % 4) as nat
    }
}

/// Pads a base64 text with `=` up to a multiple of four characters.
pub fn pad_base64(input: &str) -> (r: String)
    ensures
        r@ == input@ + Seq::new(padding_len(input@.len()), |i: int| '='),
{
    let n = input.unicode_len();
    let mut out = String::from_str(input);
    let pad: usize = if n % 4 == 0 {
        0
    } else {
        4 - n % 4
    };
    let mut k: usize = 0;
    while k < pad
        invariant
            pad == padding_len(n as nat),
            n == input@.len(),
            k <= pad,
            out@ == input@ + Seq::new(k as nat, |i: int| '='),
        decreases pad - k,
    {
        out.append("=");
        proof {
            reveal_strlit("=");
            assert(input@ + Seq::new((k + 1) as nat, |i: int| '=') =~= input@ + Seq::new(
                k as nat,
                |i: int| '=',
            ) + "="@);
        }
        k = k + 1;
    }
    out
}

/// Reads `s` left to right, splitting at each `.`: the completed parts and
/// the part in progress.
pub open spec fn scan_parts(s: Seq<char>) -> (Seq<Seq<char>>, Seq<char>)
    decreases s.len(),
{
    if s.len() == 0 {
        (Seq::empty(), Seq::empty())
    } else {
        let (done, cur) = scan_parts(s.drop_last());
        if s.last() == '.' {
            (done.push(cur), Seq::empty())
        } else {
            (done, cur.push(s.last()))
        }
    }
}

/// The parts of `s` between dots, empty ones included.
pub open spec fn dot_parts(s: Seq<char>) -> Seq<Seq<char>> {
    scan_parts(s).0.push(scan_parts(s).1)
}

/// The middle part of a token of three dot-separated parts.
pub open spec fn payload_part(token: Seq<char>) -> Option<Seq<char>> {
    if dot_parts(token).len() == 3 {
        Some(dot_parts(token)[1])
    } else {
        None
    }
}

/// Splits a token at each `.`.
pub fn split_dots(s: &str) -> (r: Vec<String>)
    ensures
        r@.map_values(|p: String| p@) == dot_parts(s@),
{
    let n = s.unicode_len();
    let mut parts: Vec<String> = Vec::new();
    let mut start: usize = 0;
    let mut i: usize = 0;
    while i < n
        invariant
            n == s@.len(),
            start <= i <= n,
            scan_parts(s@.subrange(0, i as int)) == (
                parts@.map_values(|p: String| p@),
                s@.subrange(start as int, i as int),
            ),
        decreases n - i,
    {
        let c = s.get_char(i);
        proof {
            assert(s@.subrange(0, i + 1).drop_last() =~= s@.subrange(0, i as int));
            assert(s@.subrange(start as int, i + 1) =~= s@.subrange(start as int, i as int).push(c));
        }
        if c == '.' {
            let p = String::from_str(s.substring_char(start, i));
            let ghost before = parts@;
            parts.push(p);
            proof {
                assert(parts@.map_values(|p: String| p@) =~= before.map_values(|p: String| p@).push(
                    p@,
                ));
            }
            start = i + 1;
        }
        i = i + 1;
    }
    let p = String::from_str(s.substring_char(start, n));
    let ghost before = parts@;
    parts.push(p);
    proof {
        assert(parts@.map_values(|p: String| p@) =~= before.map_values(|p: String| p@).push(p@));
        assert(s@.subrange(0, n as int) =~= s@);
    }
    parts
}

/// One signing key of the provider's published key set.
pub struct SigningKey {
    pub kid: Option<String>,
    /// RSA modulus, base64url.
    pub n: String,
    /// RSA exponent, base64url.
    pub e: String,
}

pub open spec fn key_has_id(k: SigningKey, kid: Seq<char>) -> bool {
    k.kid is Some && k.kid.unwrap()@ == kid
}

/// The first key of the set that carries the identifier `kid`.
pub fn find_key(keys: &Vec<SigningKey>, kid: &str) -> (r: Option<usize>)
    ensures
        r is None <==> forall|i: int| 0 <= i < keys@.len() ==> !key_has_id(#[trigger] keys@[i], kid@),
        r matches Some(i) ==> i < keys@.len() && key_has_id(keys@[i as int], kid@) && forall|j: int|
            0 <= j < i ==> !key_has_id(#[trigger] keys@[j], kid@),
{
    let mut i: usize = 0;
    while i < keys.len()
        invariant
            i <= keys@.len(),
            forall|j: int| 0 <= j < i ==> !key_has_id(#[trigger] keys@[j], kid@),
        decreases keys@.len() - i,
    {
        match &keys[i].kid {
            Some(k) => {
                if text_eq(k.as_str(), kid) {
                    return Some(i);
                }
            },
            None => {},
        }
        i = i + 1;
    }
    None
}

/// The tenant used when the configuration names none.
pub open spec fn tenant_or_common(tenant: Option<String>) -> Seq<char> {
    match tenant {
        Some(t) => t@,
        None => "common"@,
    }
}

/// The issuers a token of `tenant` may name.
pub open spec fn issuers_of(tenant: Seq<char>) -> Seq<Seq<char>> {
    seq![
        "https://login.microsoftonline.com/"@ + tenant + "/v2.0"@,
        "https://sts.windows.net/"@ + tenant + "/"@,
    ]
}

/// The issuer names accepted for the configured tenant.
pub fn accepted_issuers(tenant: &Option<String>) -> (r: Vec<String>)
    ensures
        r@.map_values(|s: String| s@) == issuers_of(tenant_or_common(*tenant)),
{
    let t: &str = match tenant {
        Some(t) => t.as_str(),
        None => "common",
    };
    let mut first = String::from_str("https://login.microsoftonline.com/");
    first.append(t);
    first.append("/v2.0");
    let mut second = String::from_str("https://sts.windows.net/");
    second.append(t);
    second.append("/");
    let mut out: Vec<String> = Vec::new();
    out.push(first);
    out.push(second);
    assert(out@.map_values(|s: String| s@) =~= issuers_of(tenant_or_common(*tenant)));
    out
}

/// A claim of the token payload as the identity lookup sees it.
pub enum ClaimValue {
    Text(String),
    /// Present, but not a string.
    NotText,
}

/// The claims of a token payload that the trust checks read.
pub struct PayloadClaims {
    pub preferred_username: Option<ClaimValue>,
    pub email: Option<ClaimValue>,
    /// Space-separated granted scopes.
    pub scope: Option<String>,
    /// Expiry instant, in seconds since the Unix epoch.
    pub exp: Option<u64>,
}

/// The identity claim: the preferred user name if present, else the e-mail
/// address. A claim that is not a string is no identity; none is made up.
pub open spec fn identity_claim(c: PayloadClaims) -> Option<String> {
    let chosen = match c.preferred_username {
        Some(v) => Some(v),
        None => c.email,
    };
    match chosen {
        Some(ClaimValue::Text(s)) => Some(s),
        _ => None,
    }
}

/// The remote identity a payload names, if any.
pub open spec fn identity_of(c: PayloadClaims) -> Option<Seq<char>> {
    match identity_claim(c) {
        Some(s) => Some(s@),
        None => None,
    }
}

/// Picks the remote identity out of a token's claims.
pub fn remote_identity(claims: &PayloadClaims) -> (r: Option<String>)
    ensures
        r is Some == identity_of(*claims) is Some,
        r matches Some(s) ==> s@ == identity_of(*claims).unwrap(),
{
    let chosen = match &claims.preferred_username {
        Some(v) => Some(v),
        None => match &claims.email {
            Some(v) => Some(v),
            None => None,
        },
    };
    match chosen {
        Some(ClaimValue::Text(s)) => Some(s.clone()),
        _ => None,
    }
}

/// The claims of a token whose signature verified: such a token is active,
/// and its identity, scope and expiry are what its payload says.
pub open spec fn signed_claims(c: PayloadClaims) -> TokenClaims {
    TokenClaims { active: true, scope: c.scope, username: identity_claim(c), exp: c.exp }
}

/// The claims of a verified token, for the four trust checks.
pub fn verified_claims(c: PayloadClaims) -> (r: TokenClaims)
    ensures
        r == signed_claims(c),
{
    let username = match c.preferred_username {
        Some(ClaimValue::Text(s)) => Some(s),
        Some(ClaimValue::NotText) => None,
        None => match c.email {
            Some(ClaimValue::Text(s)) => Some(s),
            _ => None,
        },
    };
    TokenClaims { active: true, scope: c.scope, username, exp: c.exp }
}

/// What base64 (URL-safe alphabet, padded) decodes a text to, if it is valid.
pub uninterp spec fn base64_url_decoded(s: Seq<char>) -> Option<Seq<u8>>;

/// The `kid` of a token's header, if the header decodes and names one.
pub uninterp spec fn header_key_id(token: Seq<char>) -> Option<Seq<char>>;

/// Relies on base64's `URL_SAFE` engine `decode`: the bytes depend on the text alone.
#[verifier::external_body]
fn decode_base64_url(s: &str) -> (r: Option<Vec<u8>>)
    ensures
        r is Some == base64_url_decoded(s@) is Some,
        r matches Some(b) ==> b@ == base64_url_decoded(s@).unwrap(),
{
    base64::engine::general_purpose::URL_SAFE.decode(s).ok()
}

/// Relies on jsonwebtoken::decode_header: the header, and so its `kid`,
/// depends on the token alone.
#[verifier::external_body]
fn token_key_id(token: &str) -> (r: Option<String>)
    ensures
        r is Some == header_key_id(token@) is Some,
        r matches Some(k) ==> k@ == header_key_id(token@).unwrap(),
{
    jsonwebtoken::decode_header(token).ok().and_then(|h| h.kid)
}

/// Whether `token` carries a valid RS256 signature under the RSA public key
/// of base64url modulus `n` and exponent `e`, has an `exp` claim, names one
/// of `issuers` as issuer, and `audience` among its audiences. Neither
/// expiry nor not-before is compared with the clock, so this depends on the
/// arguments alone.
pub uninterp spec fn rs256_accepted(
    token: Seq<char>,
    n: Seq<char>,
    e: Seq<char>,
    issuers: Seq<Seq<char>>,
    audience: Seq<char>,
) -> bool;

/// Relies on jsonwebtoken::decode with an RS256 `Validation` for the given
/// issuers and audience, under `DecodingKey::from_rsa_components(n, e)`; a
/// key that does not decode verifies nothing. With `check_expiry` off,
/// jsonwebtoken reads no clock, and the outcome depends on the arguments alone.
#[verifier::external_body]
fn rs256_verify(
    token: &str,
    n: &str,
    e: &str,
    issuers: &Vec<String>,
    audience: &str,
    check_expiry: bool,
) -> (r: bool)
    ensures
        !check_expiry ==> r == rs256_accepted(
            token@,
            n@,
            e@,
            issuers@.map_values(|s: String| s@),
            audience@,
        ),
{
    let key = match jsonwebtoken::DecodingKey::from_rsa_components(n, e) {
        Ok(k) => k,
        Err(_) => return false,
    };
    let mut v = jsonwebtoken::Validation::new(jsonwebtoken::Algorithm::RS256);
    v.validate_exp = check_expiry;
    v.iss = Some(issuers.iter().cloned().collect());
    v.aud = Some(std::iter::once(audience.to_string()).collect());
    jsonwebtoken::decode::<serde_json::Value>(token, &key, &v).is_ok()
}

/// The payload of a token of three dot-separated parts, base64-decoded.
pub open spec fn payload_bytes(token: Seq<char>) -> Option<Seq<u8>> {
    match payload_part(token) {
        Some(p) => base64_url_decoded(p + Seq::new(padding_len(p.len()), |i: int| '=')),
        None => None,
    }
}

/// The decoded payload of a token, for reading its claims.
pub fn token_payload(token: &str) -> (r: Option<Vec<u8>>)
    ensures
        r is Some == payload_bytes(token@) is Some,
        r matches Some(b) ==> b@ == payload_bytes(token@).unwrap(),
{
    let parts = split_dots(token);
    if parts.len() != 3 {
        return None;
    }
    assert(parts@[1]@ == dot_parts(token@)[1]);
    let padded = pad_base64(parts[1].as_str());
    decode_base64_url(padded.as_str())
}

/// Why a signed token was not trusted.
#[derive(Clone, Copy, Debug, PartialEq, Eq, Structural)]
pub enum SignedTokenError {
    /// The header does not decode or names no key.
    NoKeyId,
    /// No published key carries the header's key identifier.
    NoMatchingKey,
    /// The key does not decode, or signature, issuer or audience did not pass.
    Rejected,
}

/// Whether `i` is the first key of `keys` that carries `kid`.
pub open spec fn is_first_key(keys: Seq<SigningKey>, kid: Seq<char>, i: int) -> bool {
    0 <= i < keys.len() && key_has_id(keys[i], kid) && forall|j: int|
        0 <= j < i ==> !key_has_id(#[trigger] keys[j], kid)
}

/// The verdict on a signed token: it must name a key, the first published
/// key of that name must exist, and the token must verify under it for the
/// accepted issuers and audience.
pub open spec fn signed_verdict(
    token: Seq<char>,
    keys: Seq<SigningKey>,
    issuers: Seq<Seq<char>>,
    audience: Seq<char>,
) -> Result<(), SignedTokenError> {
    match header_key_id(token) {
        None => Err(SignedTokenError::NoKeyId),
        Some(kid) => if exists|i: int| is_first_key(keys, kid, i) {
            let i = choose|i: int| is_first_key(keys, kid, i);
            if rs256_accepted(token, keys[i].n@, keys[i].e@, issuers, audience) {
                Ok(())
            } else {
                Err(SignedTokenError::Rejected)
            }
        } else {
            Err(SignedTokenError::NoMatchingKey)
        },
    }
}

/// Verifies a signed token against the published `keys`, accepting the
/// issuers of `tenant` and the audience `client_id`. Fails closed: without
/// a key identifier, or without a published key that matches it, the token
/// is refused whatever its signature. Expiry is left to the trust checks.
pub fn verify_signed_token(
    token: &str,
    keys: &Vec<SigningKey>,
    tenant: &Option<String>,
    client_id: &str,
) -> (r: Result<(), SignedTokenError>)
    ensures
        r == signed_verdict(token@, keys@, issuers_of(tenant_or_common(*tenant)), client_id@),
{
    let kid = match token_key_id(token) {
        Some(k) => k,
        None => return Err(SignedTokenError::NoKeyId),
    };
    let ghost k = header_key_id(token@).unwrap();
    let i = match find_key(keys, kid.as_str()) {
        Some(i) => i,
        None => {
            assert(!exists|i: int| is_first_key(keys@, k, i));
            return Err(SignedTokenError::NoMatchingKey);
        },
    };
    proof {
        assert(is_first_key(keys@, k, i as int));
        let c = choose|c: int| is_first_key(keys@, k, c);
        if c < i {
            assert(!key_has_id(keys@[c], k));
        } else if c > i {
            assert(!key_has_id(keys@[i as int], k));
        }
        assert(c == i);
    }
    let issuers = accepted_issuers(tenant);
    if rs256_verify(token, keys[i].n.as_str(), keys[i].e.as_str(), &issuers, client_id, false) {
        Ok(())
    } else {
        Err(SignedTokenError::Rejected)
    }
}

/// The warnings the four checks record for the claims of a verified token.
pub open spec fn payload_records(
    p: PayloadClaims,
    required: Seq<char>,
    local: Seq<char>,
    now: u64,
) -> Seq<(LogLevel, Seq<char>)> {
    failure_records(claim_failures(signed_claims(p), required, local, now), signed_claims(p), local)
}

/// The error recorded for a token that does not verify against the key set.
pub open spec fn unverified_text() -> Seq<char> {
    "Token signature did not verify"@
}

/// The local-verification decision once the signature verdict is known:
/// the claims of the payload pass all four checks of `validator` and the
/// token verified. Each failing check is recorded in `log`, and so is a
/// token that did not verify.
pub fn signed_token_decision<L: Logger>(
    verdict: Result<(), SignedTokenError>,
    validator: &TokenValidator,
    payload: PayloadClaims,
    local_username: &str,
    now: u64,
    log: &mut L,
) -> (r: bool)
    ensures
        r == (verdict is Ok && claims_accepted(
            signed_claims(payload),
            validator.required_scope@,
            local_username@,
            now,
        )),
        final(log).records() == old(log).records() + payload_records(
            payload,
            validator.required_scope@,
            local_username@,
            now,
        ) + (if verdict is Ok {
            Seq::empty()
        } else {
            seq![(LogLevel::Error, unverified_text())]
        }),
{
    let claims = verified_claims(payload);
    let accepted = validator.validate_logged(&claims, local_username, now, log);
    let ghost after = log.records();
    if verdict.is_err() {
        log.record(LogLevel::Error, String::from_str("Token signature did not verify"));
        assert("Token signature did not verify"@ == unverified_text());
        assert(log.records() =~= after + seq![(LogLevel::Error, unverified_text())]);
    } else {
        assert(log.records() =~= after + Seq::<(LogLevel, Seq<char>)>::empty());
    }
    accepted && verdict.is_ok()
}

/// The local-verification decision: the token verifies against a published
/// key for the accepted issuers and audience, and the claims its payload
/// carries pass all four checks of `validator`. Each failing check is
/// recorded in `log`, and so is a token that does not verify.
pub fn validate_token_claims<L: Logger>(
    token: &str,
    keys: &Vec<SigningKey>,
    tenant: &Option<String>,
    client_id: &str,
    validator: &TokenValidator,
    payload: PayloadClaims,
    local_username: &str,
    now: u64,
    log: &mut L,
) -> (r: bool)
    ensures
        r == (signed_verdict(token@, keys@, issuers_of(tenant_or_common(*tenant)), client_id@) is Ok
            && claims_accepted(signed_claims(payload), validator.required_scope@, local_username@, now)),
        final(log).records() == old(log).records() + payload_records(
            payload,
            validator.required_scope@,
            local_username@,
            now,
        ) + (if signed_verdict(token@, keys@, issuers_of(tenant_or_common(*tenant)), client_id@) is Ok {
            Seq::empty()
        } else {
            seq![(LogLevel::Error, unverified_text())]
        }),
{
    let verdict = verify_signed_token(token, keys, tenant, client_id);
    signed_token_decision(verdict, validator, payload, local_username, now, log)
}

} // verus!
