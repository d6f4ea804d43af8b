//! Outbound webhook signature and target-URI mapping.
//!
//! Signature scheme: `X-Inv-Signature: sha256=<hex(HMAC-SHA256(body, key))>`.

use vstd::prelude::*;
use crate::text::{concat_str, hex_lower, hex_lower_spec, lemma_hex_lower_len, string_from_chars, strip_prefix, strip_prefix_spec};
use super::crypto::{hmac_sha256, hmac_sha256_spec};
use super::error::ApiError;

verus! {

/// Header name carrying the HMAC-SHA256 signature.
pub const SIGNATURE_HEADER: &'static str = "X-Inv-Signature";

/// The header value for `body` signed with `key`.
pub open spec fn signature_header_text(body: Seq<u8>, key: Seq<u8>) -> Seq<char> {
    "sha256="@ + hex_lower_spec(hmac_sha256_spec(key, body))
}

/// Compute the signature string written to [`SIGNATURE_HEADER`].
pub fn signature_header(body: &[u8], signing_key: &[u8]) -> (s: String)
    ensures
        s@ == signature_header_text(body@, signing_key@),
        s@.len() == 71,
{
    let mac = hmac_sha256(signing_key, body);
    let hex = hex_lower(&mac);
    proof {
        lemma_hex_lower_len(mac@);
        reveal_strlit("sha256=");
    }
    let hs = string_from_chars(&hex);
    concat_str("sha256=", hs.as_str())
}

/// The error message for a URI that is not a webhook URI.
pub open spec fn webhook_uri_error(uri: Seq<char>) -> Seq<char> {
    "webhook URI must start with `webhook://` or `webhook+http://`: "@ + uri
}

/// The HTTP target of a webhook URI: `webhook+http://x` becomes
/// `http://x`, `webhook://x` becomes `https://x`, anything else is
/// refused.
pub open spec fn webhook_target(uri: Seq<char>) -> Result<Seq<char>, Seq<char>> {
    match strip_prefix_spec(uri, "webhook+http://"@) {
        Some(rest) => Ok("http://"@ + rest),
        None => match strip_prefix_spec(uri, "webhook://"@) {
            Some(rest) => Ok("https://"@ + rest),
            None => Err(webhook_uri_error(uri)),
        },
    }
}

/// Parse a `webhook://<url>` URI into the `https://<url>` (or, for
/// `webhook+http://`, `http://<url>`) form. Anything else is a
/// [`ApiError::BadRequest`].
pub fn webhook_to_http(uri: &str) -> (r: Result<String, ApiError>)
    ensures
        match webhook_target(uri@) {
            Ok(t) => r is Ok && r->Ok_0@ == t,
            Err(m) => r is Err && r->Err_0 is BadRequest && r->Err_0->BadRequest_0@ == m,
        },
{
    if let Some(rest) = strip_prefix(uri, "webhook+http://") {
        return Ok(concat_str("http://", rest.as_str()));
    }
    if let Some(rest) = strip_prefix(uri, "webhook://") {
        return Ok(concat_str("https://", rest.as_str()));
    }
    Err(
        ApiError::BadRequest(
            concat_str("webhook URI must start with `webhook://` or `webhook+http://`: ", uri),
        ),
    )
}


/// What a webhook delivery sends: the HTTP target and the signature
/// header value for the body.
#[derive(Debug, Clone, PartialEq, Eq)]
pub struct WebhookRequest {
    /// `http(s)://` URL to POST to.
    pub target: String,
    /// Value of [`SIGNATURE_HEADER`].
    pub signature: String,
}

/// Prepare a webhook delivery: map the URI to its HTTP target (refusing
/// a non-webhook URI) and sign the body.
pub fn webhook_request(uri: &str, body: &[u8], signing_key: &[u8]) -> (r: Result<WebhookRequest, ApiError>)
    ensures
        match webhook_target(uri@) {
            Ok(t) => r matches Ok(w) && w.target@ == t && w.signature@ == signature_header_text(
                body@,
                signing_key@,
            ),
            Err(m) => r matches Err(ApiError::BadRequest(e)) && e@ == m,
        },
{
    match webhook_to_http(uri) {
        Ok(target) => Ok(WebhookRequest { target, signature: signature_header(body, signing_key) }),
        Err(e) => Err(e),
    }
}

/// The POST could not be made: `POST {target}: {error}`.
pub fn webhook_transport_error(target: &str, error: &str) -> (e: ApiError)
    ensures
        e matches ApiError::WebhookDispatch(m) && m@ == "POST "@ + target@ + ": "@ + error@,
{
    let a = concat_str("POST ", target);
    let b = concat_str(a.as_str(), ": ");
    ApiError::WebhookDispatch(concat_str(b.as_str(), error))
}

/// Judge the receiver's answer: a 2xx status is delivered, anything else
/// fails as `POST {target}: status {status_text}`.
pub fn webhook_response(target: &str, status: u16, status_text: &str) -> (r: Result<(), ApiError>)
    ensures
        200 <= status <= 299 ==> r is Ok,
        !(200 <= status <= 299) ==> (r matches Err(ApiError::WebhookDispatch(m)) && m@ == "POST "@
            + target@ + ": status "@ + status_text@),
{
    if 200 <= status && status <= 299 {
        Ok(())
    } else {
        let a = concat_str("POST ", target);
        let b = concat_str(a.as_str(), ": status ");
        Err(ApiError::WebhookDispatch(concat_str(b.as_str(), status_text)))
    }
}

} // verus!
