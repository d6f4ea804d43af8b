//! RFC 9457 problem-detail mapping of every adapter error: HTTP status,
//! problem-type slug, title and detail.

use vstd::prelude::*;
use crate::commands::error::{core_message, CoreError};
use crate::text::concat_str;

verus! {

/// All errors surfaced by api handlers.
#[derive(Debug, Clone, PartialEq, Eq)]
pub enum ApiError {
    /// Forwarded from a command call.
    Core(CoreError),
    /// Request body / query parameters failed to parse.
    BadRequest(String),
    /// Missing or unrecognised bearer token.
    Unauthorized,
    /// Resource does not exist.
    NotFound(String),
    /// Signed-link verification failed (expired, mismatch or malformed).
    InvalidLink,
    /// Webhook delivery failed.
    WebhookDispatch(String),
    /// Catch-all internal error.
    Internal(String),
}

/// HTTP status for a command error.
pub open spec fn core_status_spec(e: CoreError) -> u16 {
    match e {
        CoreError::Validation(_) => 400,
        CoreError::Idempotency(_) => 409,
        CoreError::FsmTransition(_) => 409,
        CoreError::NotFound(_) => 404,
        CoreError::NotImplemented(_) => 501,
        CoreError::Repo(_) => 500,
        CoreError::Tax(_) => 500,
        CoreError::Render(_) => 500,
        CoreError::Pdf(_) => 500,
    }
}

/// Which command errors get which HTTP status: 404 exactly for a
/// not-found error (the status the adapter gives its own not-found), 400
/// exactly for a validation error (as for a bad request), 409 exactly for
/// an idempotency or transition conflict, 501 exactly for a missing
/// feature, and 500 (as for an internal error) exactly for repository,
/// tax, render and PDF failures. A forwarded command error keeps its
/// status.
pub proof fn core_status_law(e: CoreError, m: String)
    ensures
        core_status_spec(e) == 404 <==> e is NotFound,
        core_status_spec(CoreError::NotFound(m)) == status_spec(ApiError::NotFound(m)),
        core_status_spec(e) == 400 <==> e is Validation,
        core_status_spec(CoreError::Validation(m)) == status_spec(ApiError::BadRequest(m)),
        core_status_spec(e) == 409 <==> (e is Idempotency || e is FsmTransition),
        core_status_spec(e) == 501 <==> e is NotImplemented,
        core_status_spec(e) == 500 <==> (e is Repo || e is Tax || e is Render || e is Pdf),
        (e is Repo || e is Tax || e is Render || e is Pdf) ==> core_status_spec(e) == status_spec(
            ApiError::Internal(m),
        ),
        status_spec(ApiError::Core(e)) == core_status_spec(e),
{
}

/// Problem-type slug for a command error.
pub open spec fn core_slug_spec(e: CoreError) -> Seq<char> {
    match e {
        CoreError::Validation(_) => "validation"@,
        CoreError::Idempotency(_) => "idempotency-conflict"@,
        CoreError::FsmTransition(_) => "fsm-transition"@,
        CoreError::Repo(_) => "repo"@,
        CoreError::Tax(_) => "tax"@,
        CoreError::Render(_) => "render"@,
        CoreError::Pdf(_) => "pdf"@,
        CoreError::NotFound(_) => "not-found"@,
        CoreError::NotImplemented(_) => "not-implemented"@,
    }
}

/// Title for a command error.
pub open spec fn core_title_spec(e: CoreError) -> Seq<char> {
    match e {
        CoreError::Validation(_) => "Validation error"@,
        CoreError::Idempotency(_) => "Idempotency conflict"@,
        CoreError::FsmTransition(_) => "FSM transition rejected"@,
        CoreError::Repo(_) => "Repository error"@,
        CoreError::Tax(_) => "Tax engine error"@,
        CoreError::Render(_) => "Render error"@,
        CoreError::Pdf(_) => "PDF render error"@,
        CoreError::NotFound(_) => "Not found"@,
        CoreError::NotImplemented(_) => "Not implemented"@,
    }
}

/// HTTP status of an adapter error.
pub open spec fn status_spec(e: ApiError) -> u16 {
    match e {
        ApiError::Core(c) => core_status_spec(c),
        ApiError::BadRequest(_) => 400,
        ApiError::Unauthorized => 401,
        ApiError::NotFound(_) => 404,
        ApiError::InvalidLink => 404,
        ApiError::WebhookDispatch(_) => 502,
        ApiError::Internal(_) => 500,
    }
}

/// Problem-type slug of an adapter error.
pub open spec fn slug_spec(e: ApiError) -> Seq<char> {
    match e {
        ApiError::Core(c) => core_slug_spec(c),
        ApiError::BadRequest(_) => "bad-request"@,
        ApiError::Unauthorized => "unauthorized"@,
        ApiError::NotFound(_) => "not-found"@,
        ApiError::InvalidLink => "invalid-link"@,
        ApiError::WebhookDispatch(_) => "webhook-dispatch-failed"@,
        ApiError::Internal(_) => "internal"@,
    }
}

/// Title of an adapter error.
pub open spec fn title_spec(e: ApiError) -> Seq<char> {
    match e {
        ApiError::Core(c) => core_title_spec(c),
        ApiError::BadRequest(_) => "Bad request"@,
        ApiError::Unauthorized => "Unauthorized"@,
        ApiError::NotFound(_) => "Not found"@,
        ApiError::InvalidLink => "Invalid or expired link"@,
        ApiError::WebhookDispatch(_) => "Webhook dispatch failed"@,
        ApiError::Internal(_) => "Internal server error"@,
    }
}

/// Long-form detail of an adapter error.
pub open spec fn detail_spec(e: ApiError) -> Seq<char> {
    match e {
        ApiError::Core(c) => core_message(c),
        ApiError::BadRequest(s) => s@,
        ApiError::NotFound(s) => s@,
        ApiError::WebhookDispatch(s) => s@,
        ApiError::Internal(s) => s@,
        ApiError::Unauthorized => "Authorization header missing or unrecognised bearer token"@,
        ApiError::InvalidLink => "Token signature mismatch, expired, or malformed"@,
    }
}

/// HTTP status for a command error.
pub fn core_status(err: &CoreError) -> (s: u16)
    ensures
        s == core_status_spec(*err),
{
    match err {
        CoreError::Validation(_) => 400,
        CoreError::Idempotency(_) => 409,
        CoreError::FsmTransition(_) => 409,
        CoreError::NotFound(_) => 404,
        CoreError::NotImplemented(_) => 501,
        CoreError::Repo(_) | CoreError::Tax(_) | CoreError::Render(_) | CoreError::Pdf(_) => 500,
    }
}

/// Problem-type slug for a command error.
pub fn core_slug(err: &CoreError) -> (s: &'static str)
    ensures
        s@ == core_slug_spec(*err),
{
    match err {
        CoreError::Validation(_) => "validation",
        CoreError::Idempotency(_) => "idempotency-conflict",
        CoreError::FsmTransition(_) => "fsm-transition",
        CoreError::Repo(_) => "repo",
        CoreError::Tax(_) => "tax",
        CoreError::Render(_) => "render",
        CoreError::Pdf(_) => "pdf",
        CoreError::NotFound(_) => "not-found",
        CoreError::NotImplemented(_) => "not-implemented",
    }
}

/// Title for a command error.
pub fn core_title(err: &CoreError) -> (s: &'static str)
    ensures
        s@ == core_title_spec(*err),
{
    match err {
        CoreError::Validation(_) => "Validation error",
        CoreError::Idempotency(_) => "Idempotency conflict",
        CoreError::FsmTransition(_) => "FSM transition rejected",
        CoreError::Repo(_) => "Repository error",
        CoreError::Tax(_) => "Tax engine error",
        CoreError::Render(_) => "Render error",
        CoreError::Pdf(_) => "PDF render error",
        CoreError::NotFound(_) => "Not found",
        CoreError::NotImplemented(_) => "Not implemented",
    }
}

impl ApiError {
    /// HTTP status code.
    pub fn status(&self) -> (s: u16)
        ensures
            s == status_spec(*self),
    {
        match self {
            ApiError::Core(err) => core_status(err),
            ApiError::BadRequest(_) => 400,
            ApiError::Unauthorized => 401,
            ApiError::NotFound(_) | ApiError::InvalidLink => 404,
            ApiError::WebhookDispatch(_) => 502,
            ApiError::Internal(_) => 500,
        }
    }

    /// Problem-type slug.
    pub fn slug(&self) -> (s: &'static str)
        ensures
            s@ == slug_spec(*self),
    {
        match self {
            ApiError::Core(err) => core_slug(err),
            ApiError::BadRequest(_) => "bad-request",
            ApiError::Unauthorized => "unauthorized",
            ApiError::NotFound(_) => "not-found",
            ApiError::InvalidLink => "invalid-link",
            ApiError::WebhookDispatch(_) => "webhook-dispatch-failed",
            ApiError::Internal(_) => "internal",
        }
    }

    /// Short human-readable title.
    pub fn title(&self) -> (s: &'static str)
        ensures
            s@ == title_spec(*self),
    {
        match self {
            ApiError::Core(err) => core_title(err),
            ApiError::BadRequest(_) => "Bad request",
            ApiError::Unauthorized => "Unauthorized",
            ApiError::NotFound(_) => "Not found",
            ApiError::InvalidLink => "Invalid or expired link",
            ApiError::WebhookDispatch(_) => "Webhook dispatch failed",
            ApiError::Internal(_) => "Internal server error",
        }
    }

    /// Long-form detail.
    pub fn detail(&self) -> (s: String)
        ensures
            s@ == detail_spec(*self),
    {
        match self {
            ApiError::Core(err) => err.message(),
            ApiError::BadRequest(s) | ApiError::NotFound(s) | ApiError::WebhookDispatch(s)
            | ApiError::Internal(s) => s.clone(),
            ApiError::Unauthorized => "Authorization header missing or unrecognised bearer token".to_owned(),
            ApiError::InvalidLink => "Token signature mismatch, expired, or malformed".to_owned(),
        }
    }

    /// The problem `type` URI: `https://errors.inv.hop.top/<slug>`.
    pub fn problem_type(&self) -> (s: String)
        ensures
            s@ == "https://errors.inv.hop.top/"@ + slug_spec(*self),
    {
        concat_str("https://errors.inv.hop.top/", self.slug())
    }
}

impl From<CoreError> for ApiError {
    fn from(e: CoreError) -> (r: ApiError)
        ensures
            r == ApiError::Core(e),
    {
        ApiError::Core(e)
    }
}

impl vstd::std_specs::convert::FromSpecImpl<CoreError> for ApiError {
    open spec fn obeys_from_spec() -> bool {
        true
    }

    open spec fn from_spec(v: CoreError) -> ApiError {
        ApiError::Core(v)
    }
}

} // verus!
