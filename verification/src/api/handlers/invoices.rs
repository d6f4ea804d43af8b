//! `/v1/invoices` request shapes and decisions.

use vstd::prelude::*;
use crate::api::error::ApiError;
use crate::api::signed_link::{fresh_token_outcome, link_expiry, sign, signed_link_token, verify_spec};
use crate::commands::ctx::Actor;
use crate::domain::{invoice_state_text, InvoiceState};
use crate::text::{
    chars_of, has_prefix, push_str_chars, slice_chars, str_eq, string_from_chars, strip_prefix,
};

verus! {

/// Query of `GET /v1/invoices`.
#[derive(Debug, Default, Clone, PartialEq, Eq)]
pub struct ListQuery {
    /// Restrict to a customer.
    pub customer: Option<String>,
    /// Restrict to a state (wire name).
    pub state: Option<String>,
    /// Max rows.
    pub limit: Option<i64>,
    /// Offset for paging.
    pub offset: Option<i64>,
}

/// Optional body of `POST /v1/invoices/{id}/issue`.
#[derive(Debug, Default, Clone, PartialEq, Eq)]
pub struct IssueBody {
    /// Caller-supplied dedupe key.
    pub idempotency_key: Option<String>,
}

/// Body of `POST /v1/invoices/{id}/send`.
#[derive(Debug, Default, Clone, PartialEq, Eq)]
pub struct SendBody {
    /// Destination URI: `file://`, `stdout`, `webhook://`, `link://`.
    pub destination_uri: String,
    /// Caller-supplied dedupe key.
    pub idempotency_key: Option<String>,
}

/// Optional body of `POST /v1/invoices/{id}/void`.
#[derive(Debug, Default, Clone, PartialEq, Eq)]
pub struct VoidBody {
    /// Reason recorded on the history row.
    pub reason: Option<String>,
    /// Caller-supplied dedupe key.
    pub idempotency_key: Option<String>,
}

/// The state a wire name denotes, if any.
pub open spec fn state_from_text(s: Seq<char>) -> Option<InvoiceState> {
    if s == "draft"@ {
        Some(InvoiceState::Draft)
    } else if s == "issued"@ {
        Some(InvoiceState::Issued)
    } else if s == "sent"@ {
        Some(InvoiceState::Sent)
    } else if s == "viewed"@ {
        Some(InvoiceState::Viewed)
    } else if s == "partially_paid"@ {
        Some(InvoiceState::PartiallyPaid)
    } else if s == "paid"@ {
        Some(InvoiceState::Paid)
    } else if s == "voided"@ {
        Some(InvoiceState::Voided)
    } else {
        None
    }
}

/// Parse an invoice state from its wire name; anything else is a bad
/// request naming the input.
pub fn parse_state(s: &str) -> (r: Result<InvoiceState, ApiError>)
    ensures
        match state_from_text(s@) {
            Some(st) => r == Ok::<InvoiceState, ApiError>(st),
            None => r matches Err(ApiError::BadRequest(m)) && m@ == "invalid invoice state `"@ + s@
                + "`"@,
        },
{
    if str_eq(s, "draft") {
        Ok(InvoiceState::Draft)
    } else if str_eq(s, "issued") {
        Ok(InvoiceState::Issued)
    } else if str_eq(s, "sent") {
        Ok(InvoiceState::Sent)
    } else if str_eq(s, "viewed") {
        Ok(InvoiceState::Viewed)
    } else if str_eq(s, "partially_paid") {
        Ok(InvoiceState::PartiallyPaid)
    } else if str_eq(s, "paid") {
        Ok(InvoiceState::Paid)
    } else if str_eq(s, "voided") {
        Ok(InvoiceState::Voided)
    } else {
        let mut v: Vec<char> = Vec::new();
        push_str_chars(&mut v, "invalid invoice state `");
        push_str_chars(&mut v, s);
        push_str_chars(&mut v, "`");
        Err(ApiError::BadRequest(string_from_chars(&v)))
    }
}

/// Parsing the wire name of a state gives the state back.
pub proof fn parse_state_inverts_wire_name(st: InvoiceState)
    ensures
        state_from_text(invoice_state_text(st)) == Some(st),
{
    reveal_strlit("draft");
    reveal_strlit("issued");
    reveal_strlit("sent");
    reveal_strlit("viewed");
    reveal_strlit("partially_paid");
    reveal_strlit("paid");
    reveal_strlit("voided");
    assert("draft"@.len() == 5);
    assert("issued"@.len() == 6);
    assert("sent"@.len() == 4);
    assert("viewed"@.len() == 6);
    assert("partially_paid"@.len() == 14);
    assert("paid"@.len() == 4);
    assert("voided"@.len() == 6);
    assert("issued"@ != "draft"@);
    assert("sent"@ != "draft"@);
    assert("sent"@ != "issued"@);
    assert("viewed"@ != "draft"@);
    assert("viewed"@[0] != "issued"@[0]);
    assert("viewed"@ != "issued"@);
    assert("viewed"@ != "sent"@);
    assert("partially_paid"@ != "draft"@);
    assert("partially_paid"@ != "issued"@);
    assert("partially_paid"@ != "sent"@);
    assert("partially_paid"@ != "viewed"@);
    assert("paid"@ != "draft"@);
    assert("paid"@ != "issued"@);
    assert("paid"@[0] != "sent"@[0]);
    assert("paid"@ != "sent"@);
    assert("paid"@ != "viewed"@);
    assert("paid"@ != "partially_paid"@);
    assert("voided"@ != "draft"@);
    assert("voided"@[0] != "issued"@[0]);
    assert("voided"@ != "issued"@);
    assert("voided"@ != "sent"@);
    assert("voided"@[1] != "viewed"@[1]);
    assert("voided"@ != "viewed"@);
    assert("voided"@ != "partially_paid"@);
    assert("voided"@ != "paid"@);
}

/// The actor every HTTP request runs as: API principal `http`.
pub fn api_actor() -> (a: Actor)
    ensures
        a matches Actor::Api { name } && name@ == "http"@,
{
    Actor::Api { name: "http".to_string() }
}

/// An absent or empty filter value means no filter.
pub open spec fn filter_text(o: Option<String>) -> Option<Seq<char>> {
    match o {
        Some(s) => if s@.len() == 0 {
            None
        } else {
            Some(s@)
        },
        None => None,
    }
}

/// An optional query value, with the empty string read as absent.
pub fn non_empty(o: &Option<String>) -> (r: Option<String>)
    ensures
        match filter_text(*o) {
            Some(t) => r matches Some(s) && s@ == t,
            None => r is None,
        },
{
    match o {
        Some(s) => if chars_of(s.as_str()).len() == 0 {
            None
        } else {
            Some(s.clone())
        },
        None => None,
    }
}

/// The list filter a query asks for.
#[derive(Debug, Clone, PartialEq, Eq)]
pub struct InvoiceListFilter {
    /// Customer id, when restricted.
    pub customer: Option<String>,
    /// State, when restricted.
    pub state: Option<InvoiceState>,
    /// Max rows, passed through.
    pub limit: Option<i64>,
    /// Offset, passed through.
    pub offset: Option<i64>,
}

impl ListQuery {
    /// The filter: empty values read as absent; a state must be a wire
    /// name; limit and offset pass through.
    pub fn filter(&self) -> (r: Result<InvoiceListFilter, ApiError>)
        ensures
            match filter_text(self.state) {
                Some(t) => match state_from_text(t) {
                    None => r matches Err(ApiError::BadRequest(m)) && m@ == "invalid invoice state `"@
                        + t + "`"@,
                    Some(st) => r matches Ok(f) && f.state == Some(st),
                },
                None => r matches Ok(f) && f.state is None,
            },
            r matches Ok(f) ==> {
                &&& match filter_text(self.customer) {
                    Some(t) => f.customer matches Some(c) && c@ == t,
                    None => f.customer is None,
                }
                &&& f.limit == self.limit
                &&& f.offset == self.offset
            },
    {
        let state = match non_empty(&self.state) {
            Some(s) => match parse_state(s.as_str()) {
                Ok(st) => Some(st),
                Err(e) => {
                    return Err(e);
                },
            },
            None => None,
        };
        Ok(
            InvoiceListFilter {
                customer: non_empty(&self.customer),
                state,
                limit: self.limit,
                offset: self.offset,
            },
        )
    }
}

/// How the send handler treats a destination.
#[derive(Debug, Clone, Copy, PartialEq, Eq, Structural)]
pub enum SendRoute {
    /// Mint a signed view link (`link://...`).
    Link,
    /// Render, then POST with a signature (`webhook://`, `webhook+http://`).
    Webhook,
    /// Hand to the send command (`file://` and the rest).
    Command,
}

/// The route of a destination; `stdout` is refused over HTTP.
pub open spec fn send_route_spec(dest: Seq<char>) -> Option<SendRoute> {
    if has_prefix(dest, "link://"@) {
        Some(SendRoute::Link)
    } else if has_prefix(dest, "webhook://"@) || has_prefix(dest, "webhook+http://"@) {
        Some(SendRoute::Webhook)
    } else if dest == "stdout"@ {
        None
    } else {
        Some(SendRoute::Command)
    }
}

/// The message refusing `stdout` over HTTP.
pub open spec fn stdout_refusal() -> Seq<char> {
    "send: `stdout` destination is not supported over HTTP — use webhook:// or file:// or link://"@
}

/// Route a send request by its destination.
pub fn send_route(dest: &str) -> (r: Result<SendRoute, ApiError>)
    ensures
        match send_route_spec(dest@) {
            Some(route) => r == Ok::<SendRoute, ApiError>(route),
            None => r matches Err(ApiError::BadRequest(m)) && m@ == stdout_refusal(),
        },
{
    if strip_prefix(dest, "link://").is_some() {
        Ok(SendRoute::Link)
    } else if strip_prefix(dest, "webhook://").is_some() || strip_prefix(dest, "webhook+http://").is_some() {
        Ok(SendRoute::Webhook)
    } else if str_eq(dest, "stdout") {
        Err(
            ApiError::BadRequest(
                "send: `stdout` destination is not supported over HTTP — use webhook:// or file:// or link://".to_string(),
            ),
        )
    } else {
        Ok(SendRoute::Command)
    }
}

/// Number of trailing `/` characters.
pub open spec fn trailing_slashes(s: Seq<char>) -> nat
    decreases s.len(),
{
    if s.len() > 0 && s.last() == '/' {
        1 + trailing_slashes(s.drop_last())
    } else {
        0
    }
}

/// `{base without trailing slashes}/v/{token}`: the public view URL.
pub open spec fn view_url_spec(base: Seq<char>, token: Seq<char>) -> Seq<char> {
    base.subrange(0, base.len() - trailing_slashes(base)) + "/v/"@ + token
}

/// The public URL of a signed view link.
pub fn view_url(base: &str, token: &str) -> (s: String)
    ensures
        s@ == view_url_spec(base@, token@),
{
    let b = chars_of(base);
    let mut end: usize = b.len();
    assert(b@.subrange(0, end as int) =~= b@);
    while end > 0 && b[end - 1] == '/'
        invariant
            end <= b@.len(),
            trailing_slashes(b@) == (b@.len() - end) + trailing_slashes(b@.subrange(0, end as int)),
        decreases end,
    {
        assert(b@.subrange(0, end as int).drop_last() =~= b@.subrange(0, end - 1));
        end = end - 1;
    }
    proof {
        if end > 0 {
            assert(b@.subrange(0, end as int).last() == b@[end - 1]);
        }
    }
    let mut v = slice_chars(&b, 0, end);
    push_str_chars(&mut v, "/v/");
    push_str_chars(&mut v, token);
    string_from_chars(&v)
}


/// A freshly minted view link, as the send handler answers `link://`.
#[derive(Debug, Clone, PartialEq, Eq)]
pub struct MintedLink {
    /// Public URL of the view page.
    pub url: String,
    /// The signed token.
    pub token: String,
    /// Lifetime of the link.
    pub expires_in_seconds: u64,
}

/// Mint a view link for an invoice: a token signed with the link key and
/// expiring `ttl_secs` after the clock reading (see `link_expiry`), and
/// its public URL under `base_url`.
pub fn mint_view_link(invoice_id: &str, ttl_secs: u64, signing_key: &[u8], base_url: &str) -> (m: MintedLink)
    requires
        invoice_id@.len() + 100 <= usize::MAX / 8,
    ensures
        exists|now: u64|
            {
                &&& m.token@ == signed_link_token(
                    invoice_id@,
                    #[trigger] link_expiry(now, ttl_secs),
                    signing_key@,
                )
                &&& !invoice_id@.contains(':') ==> forall|at: u64|
                    verify_spec(m.token@, signing_key@, at) == fresh_token_outcome(
                        invoice_id@,
                        link_expiry(now, ttl_secs),
                        at,
                    )
            },
        m.url@ == view_url_spec(base_url@, m.token@),
        m.expires_in_seconds == ttl_secs,
{
    let token = sign(invoice_id, ttl_secs, signing_key);
    let url = view_url(base_url, token.as_str());
    MintedLink { url, token, expires_in_seconds: ttl_secs }
}

} // verus!
