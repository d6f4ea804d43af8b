//! HMAC-SHA256 signed tokens for the public `/v/{token}` view route.
//!
//! Token shape: `base64url( invoice_id ":" expiry_unix ":" sig )` where
//! `sig = hex( HMAC-SHA256(invoice_id ":" expiry_unix, signing_key) )`,
//! base64url without padding, hex in lowercase.
//!
//! Verification rejects malformed base64, a malformed inner payload,
//! a signature mismatch and an expired token (`expiry <= now`).

use vstd::prelude::*;
use vstd::string::StringSliceAdditionalSpecFns;
use vstd::utf8::*;
use base64::engine::general_purpose::URL_SAFE_NO_PAD;
use base64::Engine;
use crate::text::{
    append_chars, chars_of, decimal_chars, find_first, find_last, first_index_of, hex_lower,
    hex_lower_spec, last_index_of, lemma_decimal_len_u64, lemma_first_index_of, lemma_hex_no_colon,
    lemma_last_index_of, lemma_parse_decimal_roundtrip, parse_u64, parse_u64_spec, slice_chars,
    string_from_chars, u64_to_decimal,
};
use super::crypto::{hmac_sha256, hmac_sha256_spec};

verus! {

broadcast use {vstd::utf8::encode_utf8_valid_utf8, vstd::utf8::encode_utf8_decode_utf8};

/// The unpadded base64url text the `base64` crate produces for `data`.
pub uninterp spec fn b64url_encode_spec(data: Seq<u8>) -> Seq<char>;

/// What the `base64` crate's unpadded base64url decoder yields for `text`.
pub uninterp spec fn b64url_decode_spec(text: Seq<char>) -> Option<Seq<u8>>;

/// `URL_SAFE_NO_PAD.encode`: the unpadded base64url text of `data`,
/// named `b64url_encode_spec`; the same engine decodes that text back to
/// `data` (the round trip the crate documents). The crate panics when the
/// output length overflows `usize`; the bound keeps clear of that.
#[verifier::external_body]
fn b64url_encode(data: &[u8]) -> (r: String)
    requires
        data@.len() <= usize::MAX / 2,
    ensures
        r@ == b64url_encode_spec(data@),
        b64url_decode_spec(r@) == Some(data@),
{
    URL_SAFE_NO_PAD.encode(data)
}

/// `URL_SAFE_NO_PAD.decode`: the bytes that `text` encodes, or `None`
/// when the decoder reports an error. The result is named
/// `b64url_decode_spec`; the contract also states the round trip that
/// the crate documents: decoding the encoder's output gives the input.
#[verifier::external_body]
fn b64url_decode(text: &str) -> (r: Option<Vec<u8>>)
    ensures
        match r {
            Some(v) => b64url_decode_spec(text@) == Some(v@),
            None => b64url_decode_spec(text@) is None,
        },
        forall|b: Seq<u8>|
            text@ == #[trigger] b64url_encode_spec(b) ==> (r is Some && r->0@ == b),
{
    URL_SAFE_NO_PAD.decode(text).ok()
}

/// `String::from_utf8`: the string the bytes encode, or `None` when they
/// are not valid UTF-8.
#[verifier::external_body]
fn string_from_utf8(bytes: Vec<u8>) -> (r: Option<String>)
    ensures
        r is Some <==> valid_utf8(bytes@),
        r matches Some(s) ==> s@ == decode_utf8(bytes@),
{
    String::from_utf8(bytes).ok()
}

/// Seconds since the Unix epoch per the system clock (0 when the clock
/// reads before the epoch). Nothing is stated of the value.
#[verifier::external_body]
fn current_unix_seconds() -> u64 {
    std::time::SystemTime::now().duration_since(std::time::UNIX_EPOCH).map(|d| d.as_secs()).unwrap_or(0)
}

/// Verified payload of a signed-link token.
#[derive(Debug, Clone, PartialEq, Eq)]
pub struct VerifiedToken {
    /// Invoice id embedded in the token (string form).
    pub invoice_id: String,
    /// Unix-seconds expiry encoded in the token.
    pub expiry_unix: u64,
}

/// Errors raised when verifying a signed-link token.
#[derive(Debug, Clone, Copy, PartialEq, Eq, Structural)]
pub enum VerifyError {
    /// Token did not decode as base64url.
    Base64,
    /// Decoded payload did not contain `invoice_id:exp:sig`.
    Payload,
    /// Expiry was at or before the supplied `now`.
    Expired,
    /// Signature did not match.
    Mismatch,
}

/// The signed part of a token: `invoice_id ":" expiry`.
pub open spec fn link_payload(id: Seq<char>, exp: u64) -> Seq<char> {
    id + seq![':'] + decimal_chars(exp as nat)
}

/// The hex signature of a payload under `key`.
pub open spec fn link_signature(payload: Seq<char>, key: Seq<u8>) -> Seq<char> {
    hex_lower_spec(hmac_sha256_spec(key, encode_utf8(payload)))
}

/// The text inside the base64 wrap: `payload ":" signature`.
pub open spec fn link_token_text(id: Seq<char>, exp: u64, key: Seq<u8>) -> Seq<char> {
    link_payload(id, exp) + seq![':'] + link_signature(link_payload(id, exp), key)
}

/// The wire token for `id` expiring at `exp`, signed with `key`.
pub open spec fn signed_link_token(id: Seq<char>, exp: u64, key: Seq<u8>) -> Seq<char> {
    b64url_encode_spec(encode_utf8(link_token_text(id, exp, key)))
}

/// Verification of the decoded token text.
pub open spec fn verify_text_spec(c: Seq<char>, key: Seq<u8>, now: u64) -> Result<
    (Seq<char>, u64),
    VerifyError,
> {
    let li = last_index_of(c, ':');
    if li < 0 {
        Err(VerifyError::Payload)
    } else {
        let sig = c.subrange(li + 1, c.len() as int);
        let payload = c.subrange(0, li);
        if sig != link_signature(payload, key) {
            Err(VerifyError::Mismatch)
        } else {
            let fi = first_index_of(payload, ':');
            if fi < 0 {
                Err(VerifyError::Payload)
            } else {
                match parse_u64_spec(payload.subrange(fi + 1, payload.len() as int)) {
                    None => Err(VerifyError::Payload),
                    Some(exp) => if exp <= now {
                        Err(VerifyError::Expired)
                    } else {
                        Ok((payload.subrange(0, fi), exp))
                    },
                }
            }
        }
    }
}

/// The outcome of verifying `token` against `key` at time `now`:
/// the embedded invoice id and expiry, or the reason for rejection.
pub open spec fn verify_spec(token: Seq<char>, key: Seq<u8>, now: u64) -> Result<
    (Seq<char>, u64),
    VerifyError,
> {
    match b64url_decode_spec(token) {
        None => Err(VerifyError::Base64),
        Some(raw) => if !valid_utf8(raw) {
            Err(VerifyError::Payload)
        } else {
            verify_text_spec(decode_utf8(raw), key, now)
        },
    }
}

/// `r` is the executable form of the abstract outcome `s`.
pub open spec fn verify_result_is(
    r: Result<VerifiedToken, VerifyError>,
    s: Result<(Seq<char>, u64), VerifyError>,
) -> bool {
    match s {
        Ok((id, exp)) => r is Ok && r->Ok_0.invoice_id@ == id && r->Ok_0.expiry_unix == exp,
        Err(e) => r == Err::<VerifiedToken, VerifyError>(e),
    }
}

proof fn lemma_encode_utf8_len(c: Seq<char>)
    ensures
        encode_utf8(c).len() <= 4 * c.len(),
    decreases c.len(),
{
    if c.len() > 0 {
        lemma_encode_utf8_len(c.drop_first());
    }
}

proof fn lemma_token_text_len(id: Seq<char>, exp: u64, key: Seq<u8>)
    requires
        hmac_sha256_spec(key, encode_utf8(link_payload(id, exp))).len() == 32,
    ensures
        link_token_text(id, exp, key).len() <= id.len() + 86,
{
    lemma_decimal_len_u64(exp);
    crate::text::lemma_hex_lower_len(hmac_sha256_spec(key, encode_utf8(link_payload(id, exp))));
}

/// A freshly built token text verifies to its invoice id and expiry
/// (or is reported expired), provided the id holds no colon.
proof fn lemma_token_text_verifies(id: Seq<char>, exp: u64, key: Seq<u8>, now: u64)
    requires
        !id.contains(':'),
    ensures
        verify_text_spec(link_token_text(id, exp, key), key, now) == (if exp > now {
            Ok::<(Seq<char>, u64), VerifyError>((id, exp))
        } else {
            Err::<(Seq<char>, u64), VerifyError>(VerifyError::Expired)
        }),
{
    let p = link_payload(id, exp);
    let sig = link_signature(p, key);
    let c = link_token_text(id, exp, key);
    let digits = decimal_chars(exp as nat);
    lemma_parse_decimal_roundtrip(exp);
    lemma_hex_no_colon(hmac_sha256_spec(key, encode_utf8(p)));
    lemma_last_index_of(c, ':');
    lemma_first_index_of(p, ':');
    assert(c[p.len() as int] == ':');
    assert forall|j: int| p.len() < j < c.len() implies c[j] != ':' by {
        assert(c[j] == sig[j - p.len() - 1]);
    }
    if last_index_of(c, ':') != p.len() {
        assert(last_index_of(c, ':') < p.len() || last_index_of(c, ':') > p.len());
    }
    assert(last_index_of(c, ':') == p.len());
    assert(c.subrange(p.len() as int + 1, c.len() as int) =~= sig);
    assert(c.subrange(0, p.len() as int) =~= p);
    assert(p[id.len() as int] == ':');
    assert forall|j: int| 0 <= j < id.len() implies p[j] != ':' by {
        assert(p[j] == id[j]);
        if id[j] == ':' {
            assert(id.contains(':'));
        }
    }
    assert(first_index_of(p, ':') == id.len());
    assert(p.subrange(id.len() as int + 1, p.len() as int) =~= digits);
    assert(p.subrange(0, id.len() as int) =~= id);
}

fn constant_time_eq(a: &[u8], b: &[u8]) -> (r: bool)
    ensures
        r == (a@ == b@),
{
    if a.len() != b.len() {
        return false;
    }
    let mut diff: u8 = 0;
    let mut i: usize = 0;
    while i < a.len()
        invariant
            i <= a.len(),
            a.len() == b.len(),
            (diff == 0) == (forall|j: int| 0 <= j < i ==> a@[j] == b@[j]),
        decreases a.len() - i,
    {
        let x = a[i];
        let y = b[i];
        let d = diff;
        assert(((d | (x ^ y)) == 0u8) == (d == 0u8 && x == y)) by (bit_vector);
        diff = diff | (x ^ y);
        i = i + 1;
    }
    if diff == 0 {
        assert(a@ =~= b@);
    }
    diff == 0
}

/// The outcome a freshly signed token for `id` expiring at `exp` has at
/// time `now`: the id and expiry before the expiry, `Expired` from then on.
pub open spec fn fresh_token_outcome(id: Seq<char>, exp: u64, now: u64) -> Result<
    (Seq<char>, u64),
    VerifyError,
> {
    if exp > now {
        Ok((id, exp))
    } else {
        Err(VerifyError::Expired)
    }
}

/// Sign an invoice id with an explicit expiry and return the wire token.
/// For an id without colons the token verifies, under the same key, to
/// that id and expiry at every time before the expiry, and is reported
/// expired at every time from the expiry on.
pub fn sign_with_expiry(invoice_id: &str, expiry_unix: u64, signing_key: &[u8]) -> (t: String)
    requires
        invoice_id@.len() + 100 <= usize::MAX / 8,
    ensures
        t@ == signed_link_token(invoice_id@, expiry_unix, signing_key@),
        !invoice_id@.contains(':') ==> forall|now: u64|
            #[trigger] verify_spec(t@, signing_key@, now) == fresh_token_outcome(
                invoice_id@,
                expiry_unix,
                now,
            ),
{
    let mut payload = chars_of(invoice_id);
    payload.push(':');
    let digits = u64_to_decimal(expiry_unix);
    append_chars(&mut payload, &digits);
    assert(payload@ =~= link_payload(invoice_id@, expiry_unix));
    let payload_s = string_from_chars(&payload);
    let mac = hmac_sha256(signing_key, payload_s.as_str().as_bytes());
    let sig = hex_lower(&mac);
    let mut composed = payload;
    composed.push(':');
    append_chars(&mut composed, &sig);
    assert(composed@ =~= link_token_text(invoice_id@, expiry_unix, signing_key@));
    let composed_s = string_from_chars(&composed);
    proof {
        lemma_token_text_len(invoice_id@, expiry_unix, signing_key@);
        lemma_encode_utf8_len(composed@);
    }
    let t = b64url_encode(composed_s.as_str().as_bytes());
    proof {
        if !invoice_id@.contains(':') {
            assert forall|now: u64|
                #[trigger] verify_spec(t@, signing_key@, now) == fresh_token_outcome(
                    invoice_id@,
                    expiry_unix,
                    now,
                ) by {
                lemma_token_text_verifies(invoice_id@, expiry_unix, signing_key@, now);
            }
        }
    }
    t
}

/// Expiry of a link signed at clock reading `now` for `ttl` seconds:
/// `now + ttl`, or `u64::MAX` (never expires) when that overflows.
pub open spec fn link_expiry(now: u64, ttl: u64) -> u64 {
    if now + ttl <= u64::MAX {
        (now + ttl) as u64
    } else {
        u64::MAX
    }
}

/// Sign an `invoice_id` for `ttl_secs` seconds from now and return the
/// wire token. The expiry is the clock reading plus `ttl_secs`, held at
/// `u64::MAX` when the sum would overflow. For an id without colons the
/// token verifies to that id and expiry until the expiry, and is reported
/// expired from then on.
pub fn sign(invoice_id: &str, ttl_secs: u64, signing_key: &[u8]) -> (t: String)
    requires
        invoice_id@.len() + 100 <= usize::MAX / 8,
    ensures
        exists|now: u64|
            {
                &&& t@ == signed_link_token(
                    invoice_id@,
                    #[trigger] link_expiry(now, ttl_secs),
                    signing_key@,
                )
                &&& !invoice_id@.contains(':') ==> forall|at: u64|
                    verify_spec(t@, signing_key@, at) == fresh_token_outcome(
                        invoice_id@,
                        link_expiry(now, ttl_secs),
                        at,
                    )
            },
{
    let now = current_unix_seconds();
    let exp: u64 = match now.checked_add(ttl_secs) {
        Some(e) => e,
        None => u64::MAX,
    };
    assert(exp == link_expiry(now, ttl_secs));
    sign_with_expiry(invoice_id, exp, signing_key)
}

/// Verification of the decoded token bytes.
pub open spec fn verify_raw_spec(raw: Seq<u8>, key: Seq<u8>, now: u64) -> Result<
    (Seq<char>, u64),
    VerifyError,
> {
    if !valid_utf8(raw) {
        Err(VerifyError::Payload)
    } else {
        verify_text_spec(decode_utf8(raw), key, now)
    }
}

/// Verify a token against the supplied signing key at time `now_unix`.
///
/// A token that [`sign_with_expiry`] built for an id without colons
/// verifies to that id and expiry while `now_unix < expiry`, and is
/// reported `Expired` afterwards.
pub fn verify_at(token: &str, signing_key: &[u8], now_unix: u64) -> (r: Result<
    VerifiedToken,
    VerifyError,
>)
    ensures
        verify_result_is(r, verify_spec(token@, signing_key@, now_unix)),
        forall|id: Seq<char>, exp: u64|
            token@ == #[trigger] signed_link_token(id, exp, signing_key@) && !id.contains(':')
                ==> verify_result_is(
                r,
                if exp > now_unix {
                    Ok((id, exp))
                } else {
                    Err(VerifyError::Expired)
                },
            ),
{
    let raw = match b64url_decode(token) {
        Some(raw) => raw,
        None => return Err(VerifyError::Base64),
    };
    proof {
        assert forall|id: Seq<char>, exp: u64|
            token@ == #[trigger] signed_link_token(id, exp, signing_key@) && !id.contains(':')
                implies verify_raw_spec(raw@, signing_key@, now_unix) == (if exp > now_unix {
            Ok::<(Seq<char>, u64), VerifyError>((id, exp))
        } else {
            Err::<(Seq<char>, u64), VerifyError>(VerifyError::Expired)
        }) by {
            lemma_token_text_verifies(id, exp, signing_key@, now_unix);
            assert(raw@ == encode_utf8(link_token_text(id, exp, signing_key@)));
        }
    }
    verify_raw(raw, signing_key, now_unix)
}

fn verify_raw(raw: Vec<u8>, signing_key: &[u8], now_unix: u64) -> (r: Result<
    VerifiedToken,
    VerifyError,
>)
    ensures
        verify_result_is(r, verify_raw_spec(raw@, signing_key@, now_unix)),
{
    let text = match string_from_utf8(raw) {
        Some(s) => s,
        None => return Err(VerifyError::Payload),
    };
    let c = chars_of(text.as_str());
    proof {
        lemma_last_index_of(c@, ':');
    }
    let li = match find_last(&c, ':') {
        Some(i) => i,
        None => return Err(VerifyError::Payload),
    };
    assert(li < c@.len());
    let sig = slice_chars(&c, li + 1, c.len());
    let payload = slice_chars(&c, 0, li);
    let payload_s = string_from_chars(&payload);
    let mac = hmac_sha256(signing_key, payload_s.as_str().as_bytes());
    let expected = hex_lower(&mac);
    let sig_s = string_from_chars(&sig);
    let expected_s = string_from_chars(&expected);
    let same = constant_time_eq(sig_s.as_str().as_bytes(), expected_s.as_str().as_bytes());
    proof {
        if encode_utf8(sig@) == encode_utf8(expected@) {
            assert(decode_utf8(encode_utf8(sig@)) == decode_utf8(encode_utf8(expected@)));
        }
    }
    if !same {
        return Err(VerifyError::Mismatch);
    }
    proof {
        lemma_first_index_of(payload@, ':');
    }
    let fi = match find_first(&payload, ':') {
        Some(i) => i,
        None => return Err(VerifyError::Payload),
    };
    let exp_chars = slice_chars(&payload, fi + 1, payload.len());
    let expiry_unix = match parse_u64(&exp_chars) {
        Some(e) => e,
        None => return Err(VerifyError::Payload),
    };
    if expiry_unix <= now_unix {
        return Err(VerifyError::Expired);
    }
    let id = slice_chars(&payload, 0, fi);
    Ok(VerifiedToken { invoice_id: string_from_chars(&id), expiry_unix })
}

/// Verify a token against the supplied signing key and the current time.
pub fn verify(token: &str, signing_key: &[u8]) -> (r: Result<VerifiedToken, VerifyError>)
    ensures
        exists|now: u64| verify_result_is(r, verify_spec(token@, signing_key@, now)),
{
    verify_at(token, signing_key, current_unix_seconds())
}

} // verus!
