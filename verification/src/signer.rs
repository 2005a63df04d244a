//! Per-request authentication signature.
//!
//! A request is authenticated by HMAC-SHA256 over the concatenation of the
//! bearer token, the decimal form of the timestamp, and the nonce, keyed by
//! the caller's secret, with the MAC encoded in standard padded base64.
use vstd::prelude::*;

use crate::decimal::dec_int;
use crate::decimal::i64_to_decimal;
use crate::decimal::lemma_dec_int_injective;
use vstd::assert_by_contradiction;

verus! {

/// The HMAC-SHA256 tag of `msg` under `key`, both given as the character
/// sequences whose UTF-8 bytes are keyed and hashed. The tag is a function
/// of the two sequences alone.
pub uninterp spec fn hmac_sha256(key: Seq<char>, msg: Seq<char>) -> Seq<u8>;

/// The standard padded base64 rendering of a byte sequence.
pub uninterp spec fn base64_std(bytes: Seq<u8>) -> Seq<char>;

/// Relies on `hmac::Hmac<sha2::Sha256>` (`KeyInit::new_from_slice`,
/// `Mac::update`, `Mac::finalize`) for the HMAC-SHA256 tag of `msg` under
/// `key`. HMAC accepts keys of any length, so construction never fails, and
/// the SHA-256 output size makes the tag exactly 32 bytes.
#[verifier::external_body]
fn hmac_sha256_tag(key: &str, msg: &str) -> (r: Vec<u8>)
    ensures
        r@ == hmac_sha256(key@, msg@),
        r@.len() == 32,
{
    let mut mac = <hmac::Hmac<sha2::Sha256> as hmac::KeyInit>::new_from_slice(key.as_bytes())
        .expect("HMAC accepts keys of any length");
    hmac::Mac::update(&mut mac, msg.as_bytes());
    hmac::Mac::finalize(mac).into_bytes().to_vec()
}

/// Relies on `base64::engine::general_purpose::STANDARD` (`Engine::encode`)
/// for the standard alphabet, padded base64 form of `bytes`; the encoding
/// is four output characters for every three input bytes, rounded up.
#[verifier::external_body]
fn base64_encode(bytes: &Vec<u8>) -> (r: String)
    ensures
        r@ == base64_std(bytes@),
        r@.len() == 4 * ((bytes@.len() + 2) / 3),
{
    base64::Engine::encode(&base64::engine::general_purpose::STANDARD, bytes)
}

/// The exact payload that gets signed: token, then the decimal timestamp,
/// then the nonce, with no separators.
pub open spec fn spec_signing_input(token: Seq<char>, timestamp: int, nonce: Seq<char>) -> Seq<
    char,
> {
    token + dec_int(timestamp) + nonce
}

/// The signature for a (token, timestamp, nonce) triple under `secret`.
pub open spec fn spec_signature(
    token: Seq<char>,
    timestamp: int,
    nonce: Seq<char>,
    secret: Seq<char>,
) -> Seq<char> {
    base64_std(hmac_sha256(secret, spec_signing_input(token, timestamp, nonce)))
}

/// Signing failed: the key was rejected by the HMAC primitive.
#[derive(Clone, Copy, Debug, PartialEq, Eq, Structural)]
pub enum SigningError {
    /// An empty secret is not accepted as a signing key.
    EmptyKey,
}

impl SigningError {
    /// A human-readable description of the error.
    pub fn message(&self) -> (r: &'static str)
        ensures
            r@ == "empty secret cannot be used as an HMAC key"@,
    {
        "empty secret cannot be used as an HMAC key"
    }
}

/// Build the payload over which the signature is computed.
pub fn signing_input(token: &str, timestamp: i64, nonce: &str) -> (s: String)
    ensures
        s@ == spec_signing_input(token@, timestamp as int, nonce@),
{
    let mut s = String::from_str(token);
    let ts = i64_to_decimal(timestamp);
    s.append(ts.as_str());
    s.append(nonce);
    s
}

/// Compute the request signature: base64(HMAC-SHA256(secret, token ∥
/// timestamp ∥ nonce)). Succeeds exactly when the secret is non-empty; the
/// signature is 44 characters of padded base64 (a 32-byte MAC).
pub fn compute_signature(token: &str, timestamp: i64, nonce: &str, secret: &str) -> (r: Result<
    String,
    SigningError,
>)
    ensures
        r is Ok <==> secret@.len() > 0,
        r is Err <==> r == Result::<String, SigningError>::Err(SigningError::EmptyKey),
        r is Ok ==> r->Ok_0@ == spec_signature(token@, timestamp as int, nonce@, secret@),
        r is Ok ==> r->Ok_0@.len() == 44 && r->Ok_0@.len() % 4 == 0,
{
    if secret.unicode_len() == 0 {
        Err(SigningError::EmptyKey)
    } else {
        let data = signing_input(token, timestamp, nonce);
        let mac = hmac_sha256_tag(secret, data.as_str());
        let sig = base64_encode(&mac);
        Ok(sig)
    }
}

proof fn lemma_seqs_differ_at_index(x: Seq<char>, y: Seq<char>)
    requires
        x.len() == y.len(),
        x != y,
    ensures
        exists|i: int| 0 <= i < x.len() && x[i] != y[i],
{
    assert_by_contradiction!(exists|i: int| 0 <= i < x.len() && x[i] != y[i], {
        assert(x =~= y);
    });
}

/// Sensitivity of the signed payload to the token: with the timestamp and
/// nonce fixed, distinct tokens give distinct payloads.
pub proof fn lemma_signing_input_token_sensitive(
    t1: Seq<char>,
    t2: Seq<char>,
    timestamp: int,
    nonce: Seq<char>,
)
    requires
        t1 != t2,
    ensures
        spec_signing_input(t1, timestamp, nonce) != spec_signing_input(t2, timestamp, nonce),
{
    let x = spec_signing_input(t1, timestamp, nonce);
    let y = spec_signing_input(t2, timestamp, nonce);
    if t1.len() != t2.len() {
        assert(x.len() != y.len());
    } else {
        lemma_seqs_differ_at_index(t1, t2);
        let i = choose|i: int| 0 <= i < t1.len() && t1[i] != t2[i];
        assert(x[i] == t1[i]);
        assert(y[i] == t2[i]);
        assert(x[i] != y[i]);
    }
}

/// Sensitivity of the signed payload to the timestamp: with the token and
/// nonce fixed, distinct timestamps give distinct payloads, because the
/// decimal rendering is injective.
pub proof fn lemma_signing_input_timestamp_sensitive(
    token: Seq<char>,
    ts1: int,
    ts2: int,
    nonce: Seq<char>,
)
    requires
        ts1 != ts2,
    ensures
        spec_signing_input(token, ts1, nonce) != spec_signing_input(token, ts2, nonce),
{
    let d1 = dec_int(ts1);
    let d2 = dec_int(ts2);
    let x = spec_signing_input(token, ts1, nonce);
    let y = spec_signing_input(token, ts2, nonce);
    assert_by_contradiction!(x != y, {
        assert(x == token + d1 + nonce);
        assert(y == token + d2 + nonce);
        assert(x.len() == token.len() + d1.len() + nonce.len());
        assert(y.len() == token.len() + d2.len() + nonce.len());
        assert(d1.len() == d2.len());
        assert(d1 =~= d2) by {
            assert forall|i: int| 0 <= i < d1.len() implies d1[i] == d2[i] by {
                assert((token + d1)[token.len() + i] == d1[i]);
                assert((token + d2)[token.len() + i] == d2[i]);
                assert(x[token.len() + i] == (token + d1)[token.len() + i]);
                assert(y[token.len() + i] == (token + d2)[token.len() + i]);
            }
        }
        lemma_dec_int_injective(ts1, ts2);
    });
}

/// Sensitivity of the signed payload to the nonce: with the token and
/// timestamp fixed, distinct nonces give distinct payloads.
pub proof fn lemma_signing_input_nonce_sensitive(
    token: Seq<char>,
    timestamp: int,
    n1: Seq<char>,
    n2: Seq<char>,
)
    requires
        n1 != n2,
    ensures
        spec_signing_input(token, timestamp, n1) != spec_signing_input(token, timestamp, n2),
{
    let d = dec_int(timestamp);
    let x = spec_signing_input(token, timestamp, n1);
    let y = spec_signing_input(token, timestamp, n2);
    if n1.len() != n2.len() {
        assert(x.len() != y.len());
    } else {
        lemma_seqs_differ_at_index(n1, n2);
        let i = choose|i: int| 0 <= i < n1.len() && n1[i] != n2[i];
        assert(x[(token + d).len() + i] == n1[i]);
        assert(y[(token + d).len() + i] == n2[i]);
        assert(x[(token + d).len() + i] != y[(token + d).len() + i]);
    }
}

/// Determinism: the signature is a function of the token, timestamp, nonce
/// and secret alone, so two results for identical inputs are identical.
pub proof fn lemma_signature_deterministic(
    r1: Seq<char>,
    r2: Seq<char>,
    token: Seq<char>,
    timestamp: int,
    nonce: Seq<char>,
    secret: Seq<char>,
)
    requires
        r1 == spec_signature(token, timestamp, nonce, secret),
        r2 == spec_signature(token, timestamp, nonce, secret),
    ensures
        r1 == r2,
{
}

} // verus!
