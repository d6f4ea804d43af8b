//! Minimal bearer-token authoriser.
//!
//! Reads `Authorization: Bearer <token>` and matches against the
//! configured allowlist. An empty allowlist bypasses authentication.
//! Token comparison is constant-time (`subtle`).

use vstd::prelude::*;
use vstd::string::StringSliceAdditionalSpecFns;
use vstd::utf8::{decode_utf8, encode_utf8};
use subtle::ConstantTimeEq;
use crate::text::{chars_of, string_from_chars, strip_prefix, strip_prefix_spec, trim, trim_spec};
use super::error::ApiError;

verus! {

broadcast use vstd::utf8::encode_utf8_decode_utf8;

/// `subtle::ConstantTimeEq::ct_eq` on byte slices, converted to `bool`:
/// true exactly when the slices have the same length and bytes.
#[verifier::external_body]
fn ct_eq_bytes(a: &[u8], b: &[u8]) -> (r: bool)
    ensures
        r == (a@ == b@),
{
    a.ct_eq(b).into()
}

/// Constant-time byte-slice equality. Different lengths compare unequal
/// without inspecting bytes.
pub fn constant_time_eq(a: &[u8], b: &[u8]) -> (r: bool)
    ensures
        r == (a@ == b@),
{
    if a.len() != b.len() {
        return false;
    }
    ct_eq_bytes(a, b)
}

/// The token carried by an `Authorization` header value: the text after
/// `Bearer ` (or `bearer `), trimmed.
pub open spec fn bearer_token_spec(header: Seq<char>) -> Option<Seq<char>> {
    match strip_prefix_spec(header, "Bearer "@) {
        Some(rest) => Some(trim_spec(rest)),
        None => match strip_prefix_spec(header, "bearer "@) {
            Some(rest) => Some(trim_spec(rest)),
            None => None,
        },
    }
}

/// Whether a request with this `Authorization` header value (if any)
/// passes the allowlist.
pub open spec fn authorized_spec(tokens: Seq<Seq<char>>, header: Option<Seq<char>>) -> bool {
    if tokens.len() == 0 {
        true
    } else {
        match header {
            None => false,
            Some(h) => match bearer_token_spec(h) {
                None => false,
                Some(t) => tokens.contains(t),
            },
        }
    }
}

/// The header value (if any) as characters.
pub open spec fn header_view(h: Option<&str>) -> Option<Seq<char>> {
    match h {
        Some(s) => Some(s@),
        None => None,
    }
}

/// The allowlist as character sequences.
pub open spec fn tokens_view(tokens: Seq<String>) -> Seq<Seq<char>> {
    tokens.map_values(|t: String| t@)
}

/// Extract the bearer token from an `Authorization` header value.
pub fn bearer_token(header: &str) -> (r: Option<String>)
    ensures
        match bearer_token_spec(header@) {
            Some(t) => r is Some && r->0@ == t,
            None => r is None,
        },
{
    let rest = match strip_prefix(header, "Bearer ") {
        Some(rest) => rest,
        None => match strip_prefix(header, "bearer ") {
            Some(rest) => rest,
            None => return None,
        },
    };
    let rc = chars_of(rest.as_str());
    let t = trim(&rc);
    Some(string_from_chars(&t))
}

/// Decide a request: `Ok` when the allowlist is empty or the header
/// carries an allowed bearer token, else [`ApiError::Unauthorized`].
/// `authorization` is the header value as text, `None` when it is
/// missing or not text.
pub fn check_bearer(bearer_tokens: &[String], authorization: Option<&str>) -> (r: Result<(), ApiError>)
    ensures
        r is Ok <==> authorized_spec(tokens_view(bearer_tokens@), header_view(authorization)),
        r is Err ==> r->Err_0 == ApiError::Unauthorized,
{
    if bearer_tokens.len() == 0 {
        return Ok(());
    }
    let header = match authorization {
        Some(h) => h,
        None => return Err(ApiError::Unauthorized),
    };
    let token = match bearer_token(header) {
        Some(t) => t,
        None => return Err(ApiError::Unauthorized),
    };
    let ghost tv = tokens_view(bearer_tokens@);
    let mut i: usize = 0;
    while i < bearer_tokens.len()
        invariant
            i <= bearer_tokens@.len(),
            tv == tokens_view(bearer_tokens@),
            bearer_tokens@.len() > 0,
            header_view(authorization) == Some(header@),
            bearer_token_spec(header@) == Some(token@),
            forall|j: int| 0 <= j < i ==> tv[j] != token@,
        decreases bearer_tokens.len() - i,
    {
        let same = constant_time_eq(bearer_tokens[i].as_str().as_bytes(), token.as_str().as_bytes());
        proof {
            let a = bearer_tokens@[i as int]@;
            if encode_utf8(a) == encode_utf8(token@) {
                assert(decode_utf8(encode_utf8(a)) == decode_utf8(encode_utf8(token@)));
            }
        }
        if same {
            assert(tv[i as int] == token@);
            assert(tv.contains(token@));
            return Ok(());
        }
        i = i + 1;
    }
    assert(!tv.contains(token@));
    Err(ApiError::Unauthorized)
}

} // verus!
