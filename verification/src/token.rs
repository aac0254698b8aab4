//! The session token service: issuance and validation of encrypted
//! bearer tokens.
//!
//! A token is a paseto `v2.local` string whose payload is the claims
//! object of [`crate::claims`]. Issuance writes the claims, validation
//! decrypts the token, reads the claims back and checks the validity
//! window; on any failure it reports the one undifferentiated error
//! `CannotDecryptToken`.

use vstd::prelude::*;

use vstd::utf8::encode_utf8;

use crate::account::{AccountId, Session};
use crate::claims::{claims_bytes, parse_claims, parse_claims_spec, serialize_claims};
use crate::claims::lemma_claims_round_trip;
use crate::errors::Error;

verus! {

/// Seconds a session stays valid after issuance: one day.
pub const SESSION_LIFETIME_SECS: u64 = 86400;

/// What decrypting a token under a key yields: the payload bytes for an
/// authentic token, nothing for a damaged or foreign one. Decryption is
/// deterministic, so this is a function of the token and the key alone.
pub uninterp spec fn payload_of(token: Seq<u8>, key: Seq<u8>) -> Option<Seq<u8>>;

/// The bytes of the `v2.local.` header.
pub open spec fn header_bytes() -> Seq<u8> {
    seq![118u8, 50u8, 46u8, 108u8, 111u8, 99u8, 97u8, 108u8, 46u8]
}

/// The shape every authentic token has: the `v2.local.` header followed
/// by a body whose first 32 characters hold no separator, so that the
/// body is long enough to contain the nonce. Tokens of any other shape
/// are rejected before decryption.
pub open spec fn token_shape_ok(tb: Seq<u8>) -> bool {
    &&& tb.len() >= 41
    &&& tb.subrange(0, 9) == header_bytes()
    &&& forall|i: int| 9 <= i < 41 ==> #[trigger] tb[i] != 46
}

/// Relies on paseto `v2::local::local_paseto` and its round trip with
/// `decrypt_paseto`: the produced token is an ASCII `v2.local.` string
/// that decrypts under the same key to exactly the given message.
#[verifier::external_body]
fn encrypt_payload(message: &Vec<u8>, key: &[u8]) -> (r: Option<String>)
    requires
        forall|i: int| 0 <= i < message@.len() ==> message@[i] < 128,
    ensures
        r matches Some(t) ==> payload_of(encode_utf8(t@), key@) == Some(message@)
            && token_shape_ok(encode_utf8(t@)),
{
    let text = match String::from_utf8(message.clone()) {
        Ok(text) => text,
        Err(_) => {
            return None;
        },
    };
    match paseto::v2::local::local_paseto(&text, None, key) {
        Ok(t) => Some(t),
        Err(_) => None,
    }
}

/// Relies on paseto `v2::local::decrypt_paseto`: decryption either
/// authenticates the token under the key and returns its payload, or
/// fails; the outcome depends on the token and the key alone. The shape
/// precondition keeps the call away from tokens whose body is shorter
/// than a nonce, which the routine does not accept.
#[verifier::external_body]
fn decrypt_payload(token: &str, key: &[u8]) -> (r: Option<Vec<u8>>)
    requires
        token_shape_ok(encode_utf8(token@)),
    ensures
        r matches Some(p) ==> payload_of(encode_utf8(token@), key@) == Some(p@),
        r is None ==> payload_of(encode_utf8(token@), key@) is None,
{
    match paseto::v2::local::decrypt_paseto(token, None, key) {
        Ok(s) => Some(s.into_bytes()),
        Err(_) => None,
    }
}

/// Relies on chrono `Utc::now`: the current time, in seconds since the
/// Unix epoch.
#[verifier::external_body]
fn now_unix() -> (r: i64) {
    chrono::Utc::now().timestamp()
}

/// Whether `tb` is an authentic token under `key` stating exactly the
/// claims `(account_id, nbf, exp)`.
pub open spec fn issued_for(
    tb: Seq<u8>,
    key: Seq<u8>,
    account_id: u64,
    nbf: u64,
    exp: u64,
) -> bool {
    token_shape_ok(tb) && payload_of(tb, key) == Some(claims_bytes(account_id, nbf, exp))
}

/// The session a token states under a key, with no regard to time:
/// present exactly when the token decrypts and its payload follows the
/// claims grammar.
pub open spec fn decoded_session(tb: Seq<u8>, key: Seq<u8>) -> Option<Session> {
    if !token_shape_ok(tb) {
        None
    } else {
        match payload_of(tb, key) {
            None => None,
            Some(p) => match parse_claims_spec(p) {
                None => None,
                Some((a, n, e)) => Some(Session { account_id: AccountId(a), nbf: n, exp: e }),
            },
        }
    }
}

/// What validation at time `now` returns: the stated session when the
/// token is authentic, readable and inside its validity window, and the
/// one undifferentiated error otherwise.
pub open spec fn validate_spec(tb: Seq<u8>, key: Seq<u8>, now: u64) -> Result<Session, Error> {
    match decoded_session(tb, key) {
        None => Err(Error::CannotDecryptToken),
        Some(s) => if s.nbf <= now && now < s.exp {
            Ok(s)
        } else {
            Err(Error::CannotDecryptToken)
        },
    }
}

/// Whether the bytes of `token` have the `v2.local.` shape.
fn check_token_shape(b: &[u8]) -> (r: bool)
    ensures
        r == token_shape_ok(b@),
{
    if b.len() < 41 {
        return false;
    }
    let header = b[0] == 118 && b[1] == 50 && b[2] == 46 && b[3] == 108 && b[4] == 111 && b[5]
        == 99 && b[6] == 97 && b[7] == 108 && b[8] == 46;
    proof {
        if header {
            assert(b@.subrange(0, 9) =~= header_bytes());
        } else {
            assert(b@.subrange(0, 9) != header_bytes()) by {
                if b@.subrange(0, 9) == header_bytes() {
                    assert(b@[0] == header_bytes()[0]);
                    assert(b@[1] == header_bytes()[1]);
                    assert(b@[2] == header_bytes()[2]);
                    assert(b@[3] == header_bytes()[3]);
                    assert(b@[4] == header_bytes()[4]);
                    assert(b@[5] == header_bytes()[5]);
                    assert(b@[6] == header_bytes()[6]);
                    assert(b@[7] == header_bytes()[7]);
                    assert(b@[8] == header_bytes()[8]);
                }
            }
        }
    }
    if !header {
        return false;
    }
    let mut i: usize = 9;
    while i < 41
        invariant
            9 <= i <= 41,
            b@.len() >= 41,
            forall|k: int| 9 <= k < i ==> #[trigger] b@[k] != 46,
        decreases 41 - i,
    {
        if b[i] == 46 {
            return false;
        }
        i += 1;
    }
    true
}

/// Builds a token stating `account_id`, valid from `now` for the fixed
/// session lifetime, encrypted with `key`. The only failure is an
/// internal cryptographic fault, surfaced as `HashingError`.
pub fn issue_token_at(key: &[u8], account_id: AccountId, now: u64) -> (r: Result<String, Error>)
    requires
        now + SESSION_LIFETIME_SECS <= u64::MAX,
    ensures
        r matches Ok(t) ==> issued_for(
            encode_utf8(t@),
            key@,
            account_id.0,
            now,
            (now + SESSION_LIFETIME_SECS) as u64,
        ),
        r matches Err(e) ==> e == Error::HashingError,
{
    let exp = now + SESSION_LIFETIME_SECS;
    let payload = serialize_claims(account_id.0, now, exp);
    match encrypt_payload(&payload, key) {
        Some(t) => Ok(t),
        None => Err(Error::HashingError),
    }
}

/// Builds a token for `account_id` valid from the current time for the
/// fixed session lifetime. Clock readings outside the representable
/// range are clamped.
pub fn issue_token(key: &[u8], account_id: AccountId) -> (r: Result<String, Error>)
    ensures
        r matches Ok(t) ==> exists|n: u64|
            #[trigger] issued_for(
                encode_utf8(t@),
                key@,
                account_id.0,
                n,
                (n + SESSION_LIFETIME_SECS) as u64,
            ) && n + SESSION_LIFETIME_SECS <= u64::MAX,
        r matches Err(e) ==> e == Error::HashingError,
{
    let raw = now_unix();
    let now: u64 = if raw < 0 {
        0
    } else if raw as u64 > u64::MAX - SESSION_LIFETIME_SECS {
        u64::MAX - SESSION_LIFETIME_SECS
    } else {
        raw as u64
    };
    let r = issue_token_at(key, account_id, now);
    proof {
        if r is Ok {
            assert(issued_for(
                encode_utf8(r->Ok_0@),
                key@,
                account_id.0,
                now,
                (now + SESSION_LIFETIME_SECS) as u64,
            ));
        }
    }
    r
}

/// Validates `token` against `key` at time `now`, exactly as
/// `validate_spec` states: the decoded session if the token is authentic,
/// readable and `now` lies in `[nbf, exp)`, else `CannotDecryptToken`.
pub fn verify_token_at(key: &[u8], token: &str, now: u64) -> (r: Result<Session, Error>)
    ensures
        r == validate_spec(encode_utf8(token@), key@, now),
{
    let b = token.as_bytes();
    if !check_token_shape(b) {
        return Err(Error::CannotDecryptToken);
    }
    match decrypt_payload(token, key) {
        None => Err(Error::CannotDecryptToken),
        Some(p) => match parse_claims(p.as_slice()) {
            None => Err(Error::CannotDecryptToken),
            Some((a, n, e)) => {
                if n <= now && now < e {
                    Ok(Session { account_id: AccountId(a), nbf: n, exp: e })
                } else {
                    Err(Error::CannotDecryptToken)
                }
            },
        },
    }
}

/// Validates `token` against `key` at the current time. Whatever the
/// clock read, a returned session is exactly the one the token states,
/// and a token that is not authentic and readable is rejected.
pub fn verify_token(key: &[u8], token: &str) -> (r: Result<Session, Error>)
    ensures
        r matches Ok(s) ==> decoded_session(encode_utf8(token@), key@) == Some(s),
        decoded_session(encode_utf8(token@), key@) is None ==> r == Err::<Session, Error>(
            Error::CannotDecryptToken,
        ),
        r matches Err(e) ==> e == Error::CannotDecryptToken,
{
    let raw = now_unix();
    let now: u64 = if raw < 0 {
        0
    } else {
        raw as u64
    };
    verify_token_at(key, token, now)
}

/// A token issued for an account immediately passes validation, at any
/// time inside its validity window, and yields the session it was issued
/// for.
pub proof fn lemma_issued_token_validates(
    tb: Seq<u8>,
    key: Seq<u8>,
    account_id: u64,
    nbf: u64,
    exp: u64,
    now: u64,
)
    requires
        issued_for(tb, key, account_id, nbf, exp),
        nbf <= now < exp,
    ensures
        validate_spec(tb, key, now) == Ok::<Session, Error>(
            Session { account_id: AccountId(account_id), nbf, exp },
        ),
{
    lemma_claims_round_trip(account_id, nbf, exp);
}

/// A token whose validity window does not contain `now` fails validation
/// with the one undifferentiated error; in particular a token whose
/// expiry lies in the past.
pub proof fn lemma_stale_token_rejected(
    tb: Seq<u8>,
    key: Seq<u8>,
    account_id: u64,
    nbf: u64,
    exp: u64,
    now: u64,
)
    requires
        issued_for(tb, key, account_id, nbf, exp),
        !(nbf <= now < exp),
    ensures
        validate_spec(tb, key, now) == Err::<Session, Error>(Error::CannotDecryptToken),
{
    lemma_claims_round_trip(account_id, nbf, exp);
}

} // verus!
