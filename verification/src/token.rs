//! The token issuer: claims, their JSON rendering, the signing input,
//! and the signed token string.
//!
//! A token is the standard three-part form: the base64 of a fixed
//! header, a dot, the base64 of the claims JSON, a dot, and the
//! signature of everything before the second dot. The header and the
//! claims are rendered by verified code; only the signature itself and
//! the final bytes-to-string conversion are taken on trust.

use vstd::prelude::*;

use crate::encode::ascii_chars;
use crate::encode::ascii_to_string;
use crate::encode::b64url;
use crate::encode::b64url_encode;
use crate::encode::dec_bytes;
use crate::encode::json_escaped;
use crate::encode::lemma_b64url_ascii;
use crate::encode::lit_bytes;
use crate::encode::push_i64_dec;
use crate::encode::push_json_escaped;
use crate::encode::push_lit;
use crate::err::Denial;
use crate::scope::duration_secs;
use crate::scope::ScopeDefinition;

verus! {

/// The fixed identity every token names as its issuer.
pub open spec fn server_name() -> Seq<char> {
    "SurrealDB"@
}

/// The signed assertions embedded in a token: issuer, timing, tenant
/// and resolved identity. Immutable once constructed.
#[derive(Debug, PartialEq, Eq)]
pub struct Claims {
    pub iss: String,
    pub iat: i64,
    pub nbf: i64,
    pub exp: i64,
    pub ns: String,
    pub db: String,
    pub sc: String,
    pub id: String,
}

/// The JSON rendering of the fixed token header.
pub open spec fn header_bytes() -> Seq<u8> {
    lit_bytes("{\"typ\":\"JWT\",\"alg\":\"HS512\"}"@)
}

/// The JSON rendering of a set of claims.
pub open spec fn claims_json_bytes(c: Claims) -> Seq<u8> {
    lit_bytes("{\"iss\":\""@) + json_escaped(c.iss@) + lit_bytes("\",\"iat\":"@) + dec_bytes(
        c.iat as int,
    ) + lit_bytes(",\"nbf\":"@) + dec_bytes(c.nbf as int) + lit_bytes(",\"exp\":"@) + dec_bytes(
        c.exp as int,
    ) + lit_bytes(",\"ns\":\""@) + json_escaped(c.ns@) + lit_bytes("\",\"db\":\""@) + json_escaped(
        c.db@,
    ) + lit_bytes("\",\"sc\":\""@) + json_escaped(c.sc@) + lit_bytes("\",\"id\":\""@)
        + json_escaped(c.id@) + lit_bytes("\"}"@)
}

/// Renders the claims JSON.
pub fn claims_json(c: &Claims) -> (out: Vec<u8>)
    ensures
        out@ == claims_json_bytes(*c),
{
    let mut out: Vec<u8> = Vec::new();
    push_lit(&mut out, "{\"iss\":\"");
    push_json_escaped(&mut out, self_str(&c.iss));
    push_lit(&mut out, "\",\"iat\":");
    push_i64_dec(&mut out, c.iat);
    push_lit(&mut out, ",\"nbf\":");
    push_i64_dec(&mut out, c.nbf);
    push_lit(&mut out, ",\"exp\":");
    push_i64_dec(&mut out, c.exp);
    push_lit(&mut out, ",\"ns\":\"");
    push_json_escaped(&mut out, self_str(&c.ns));
    push_lit(&mut out, "\",\"db\":\"");
    push_json_escaped(&mut out, self_str(&c.db));
    push_lit(&mut out, "\",\"sc\":\"");
    push_json_escaped(&mut out, self_str(&c.sc));
    push_lit(&mut out, "\",\"id\":\"");
    push_json_escaped(&mut out, self_str(&c.id));
    push_lit(&mut out, "\"}");
    out
}

fn self_str(s: &String) -> (r: &str)
    ensures
        r@ == s@,
{
    s.as_str()
}

/// The bytes a token's signature is computed over: the base64 of the
/// header, a dot, the base64 of the claims JSON.
pub open spec fn signing_input(c: Claims) -> Seq<u8> {
    b64url(header_bytes()) + seq![46u8] + b64url(claims_json_bytes(c))
}

/// The signature jsonwebtoken's HS512 signing returns for a message
/// under a secret: the base64 of an HMAC-SHA512 tag, a function of the
/// two arguments alone.
pub uninterp spec fn hs512_sig(message: Seq<u8>, secret: Seq<u8>) -> Seq<char>;

/// The full token issued for a set of claims under a secret.
pub open spec fn token_chars(c: Claims, secret: Seq<u8>) -> Seq<char> {
    ascii_chars(signing_input(c)) + seq!['.'] + hs512_sig(signing_input(c), secret)
}

/// Relies on `jsonwebtoken::crypto::sign` with `Algorithm::HS512` and a
/// key from `EncodingKey::from_secret`: it base64-encodes the
/// HMAC-SHA512 tag of `message` under `secret`, a deterministic
/// function of the two arguments alone, and for the HMAC family of
/// algorithms it always succeeds.
#[verifier::external_body]
fn sign_hs512(message: &Vec<u8>, secret: &Vec<u8>) -> (r: Option<String>)
    ensures
        r is Some,
        r matches Some(s) ==> s@ == hs512_sig(message@, secret@),
{
    jsonwebtoken::crypto::sign(
        message.as_slice(),
        &jsonwebtoken::EncodingKey::from_secret(secret.as_slice()),
        jsonwebtoken::Algorithm::HS512,
    ).ok()
}

/// A sound upper bound on any timestamp the clock wrapper can return:
/// chrono refuses timestamps beyond its representable date range, whose
/// maximum lies below nine trillion seconds after the epoch.
pub const MAX_CLOCK_SECS: i64 = 9_000_000_000_000;

/// Relies on `chrono::Utc::now` for the current time as whole seconds
/// since the epoch. Its source reads the system clock and panics on one
/// set before the epoch or beyond chrono's representable date range
/// (a machine whose clock is that badly wrong cannot issue tokens);
/// every value it does return has therefore passed chrono's own range
/// check: nonnegative, and below [`MAX_CLOCK_SECS`]. Beyond that bound
/// nothing is promised of what the clock reads.
#[verifier::external_body]
pub fn now_timestamp() -> (r: i64)
    ensures
        0 <= r <= MAX_CLOCK_SECS,
{
    chrono::Utc::now().timestamp()
}

/// Builds the signing input for a set of claims.
pub fn signing_message(c: &Claims) -> (m: Vec<u8>)
    ensures
        m@ == signing_input(*c),
{
    let mut header: Vec<u8> = Vec::new();
    push_lit(&mut header, "{\"typ\":\"JWT\",\"alg\":\"HS512\"}");
    let mut m = b64url_encode(&header);
    m.push(46u8);
    let mut payload = b64url_encode(&claims_json(c));
    m.append(&mut payload);
    proof {
        assert(m@ =~= signing_input(*c));
    }
    m
}

/// Completes a token from the signing input and whatever the signer
/// returned: a missing signature is the signing denial, and nothing is
/// applied to any session by then.
pub fn assemble_token(message: Vec<u8>, sig: Option<String>) -> (r: Result<String, Denial>)
    requires
        forall|i: int| 0 <= i < message@.len() ==> message@[i] < 128,
    ensures
        sig matches Some(s) ==> (r matches Ok(t) && t@ == ascii_chars(message@) + seq!['.'] + s@),
        sig is None ==> r == Err::<String, Denial>(Denial::SigningFailed),
{
    match sig {
        None => Err(Denial::SigningFailed),
        Some(s) => {
            let head = ascii_to_string(message);
            let t = head.concat(".").concat(s.as_str());
            proof {
                reveal_strlit(".");
                assert("."@ =~= seq!['.']);
            }
            Ok(t)
        },
    }
}

/// Whether the claims are exactly those owed for a signup of `id` into
/// (`ns`, `db`, `sc`) at time `now` under a scope definition granting
/// `dur` seconds: issued-at and not-before are the issue time, expiry
/// is the issue time plus the granted duration, and the issuer is the
/// fixed server identity.
pub open spec fn claims_for(
    c: Claims,
    ns: Seq<char>,
    db: Seq<char>,
    sc: Seq<char>,
    id: Seq<char>,
    now: int,
    dur: int,
) -> bool {
    &&& c.iss@ == server_name()
    &&& c.iat == now
    &&& c.nbf == now
    &&& c.exp == now + dur
    &&& c.ns@ == ns
    &&& c.db@ == db
    &&& c.sc@ == sc
    &&& c.id@ == id
}

/// The token issuer: builds the claims for the resolved identity,
/// computes the expiry from the scope's duration, and signs with the
/// scope's secret. An expiry beyond the representable timestamp range
/// is a denial; by the signer's contract nothing else can fail.
pub fn issue_token(
    def: &ScopeDefinition,
    ns: &String,
    db: &String,
    sc: &String,
    id: &String,
    now: i64,
) -> (r: Result<(Claims, String), Denial>)
    ensures
        now + duration_secs(*def) > i64::MAX ==> r == Err::<(Claims, String), Denial>(
            Denial::ExpiryOverflow,
        ),
        now + duration_secs(*def) <= i64::MAX ==> (r matches Ok(p) && claims_for(
            p.0,
            ns@,
            db@,
            sc@,
            id@,
            now as int,
            duration_secs(*def),
        ) && p.1@ == token_chars(p.0, def.code@)),
{
    let dur: u64 = match def.session {
        Some(d) => d,
        None => crate::scope::DEFAULT_SESSION_SECS,
    };
    let wide: i128 = now as i128 + dur as i128;
    if wide > i64::MAX as i128 {
        return Err(Denial::ExpiryOverflow);
    }
    let exp: i64 = wide as i64;
    let claims = Claims {
        iss: String::from_str("SurrealDB"),
        iat: now,
        nbf: now,
        exp,
        ns: ns.clone(),
        db: db.clone(),
        sc: sc.clone(),
        id: id.clone(),
    };
    let message = signing_message(&claims);
    proof {
        lemma_b64url_ascii(header_bytes());
        lemma_b64url_ascii(claims_json_bytes(claims));
        assert(forall|i: int| 0 <= i < message@.len() ==> message@[i] < 128);
    }
    let sig = sign_hs512(&message, &def.code);
    proof {
        assert(message@ == signing_input(claims));
    }
    match assemble_token(message, sig) {
        Ok(t) => Ok((claims, t)),
        Err(d) => Err(d),
    }
}

} // verus!
