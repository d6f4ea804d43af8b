//! `GET /v/{token}`: the public view of a signed link. The first view of
//! a sent invoice moves it to `Viewed`; later views only re-render.

use vstd::prelude::*;
use crate::api::error::ApiError;
use crate::api::signed_link::{verify, verify_at, verify_result_is, verify_spec};
use crate::bus::events::InvoiceViewed;
use crate::bus::outbox::InvoiceHistoryRow;
use crate::commands::ctx::UtcInstant;
use crate::domain::{HistoryChannel, InvoiceState};

verus! {

/// The invoice id a view token names at time `now_unix`; any failure of
/// the token is an invalid link.
pub fn view_invoice_id_at(token: &str, signing_key: &[u8], now_unix: u64) -> (r: Result<String, ApiError>)
    ensures
        match verify_spec(token@, signing_key@, now_unix) {
            Ok((id, _)) => r matches Ok(s) && s@ == id,
            Err(_) => r == Err::<String, ApiError>(ApiError::InvalidLink),
        },
{
    match verify_at(token, signing_key, now_unix) {
        Ok(v) => Ok(v.invoice_id),
        Err(_) => Err(ApiError::InvalidLink),
    }
}

/// The invoice id a view token names now (the system clock); any failure
/// of the token is an invalid link.
pub fn view_invoice_id(token: &str, signing_key: &[u8]) -> (r: Result<String, ApiError>)
    ensures
        exists|now: u64|
            match #[trigger] verify_spec(token@, signing_key@, now) {
                Ok((id, _)) => r matches Ok(s) && s@ == id,
                Err(_) => r == Err::<String, ApiError>(ApiError::InvalidLink),
            },
{
    let r = verify(token, signing_key);
    proof {
        let now = choose|now: u64| verify_result_is(r, verify_spec(token@, signing_key@, now));
        assert(verify_result_is(r, verify_spec(token@, signing_key@, now)));
    }
    match r {
        Ok(v) => Ok(v.invoice_id),
        Err(_) => Err(ApiError::InvalidLink),
    }
}

/// What a view records when it advances the invoice.
#[derive(Debug, Clone, PartialEq, Eq)]
pub struct ViewTransition {
    /// The audit row (`Sent -> Viewed`, tag `view`, actor `link.viewer`).
    pub history: InvoiceHistoryRow,
    /// Payload of the `viewed` event.
    pub event: InvoiceViewed,
}

/// The state a view leaves an invoice in: `Sent` becomes `Viewed`,
/// anything else is unchanged.
pub open spec fn after_view(s: InvoiceState) -> InvoiceState {
    if s == InvoiceState::Sent {
        InvoiceState::Viewed
    } else {
        s
    }
}

/// Decide what a view of an invoice in `state` records: for a sent
/// invoice the `Sent -> Viewed` row and the `viewed` event; otherwise
/// nothing.
pub fn view_transition(state: InvoiceState, history_id: String, invoice_id: &str, now: UtcInstant) -> (r:
    Option<ViewTransition>)
    ensures
        (state == InvoiceState::Sent) == (r is Some),
        r matches Some(t) ==> {
            &&& t.history.id@ == history_id@
            &&& t.history.invoice_id@ == invoice_id@
            &&& t.history.from_state == Some(InvoiceState::Sent)
            &&& t.history.to_state == after_view(state)
            &&& t.history.event@ == "view"@
            &&& t.history.actor matches Some(a) && a@ == "link.viewer"@
            &&& t.history.channel == HistoryChannel::Api
            &&& t.history.bus_event_id is None
            &&& t.history.reason is None
            &&& t.history.occurred_at == now
            &&& t.event.invoice_id@ == invoice_id@
            &&& t.event.actor@ == "link.viewer"@
            &&& t.event.channel@ == "api"@
        },
{
    if state != InvoiceState::Sent {
        return None;
    }
    Some(
        ViewTransition {
            history: InvoiceHistoryRow {
                id: history_id,
                invoice_id: invoice_id.to_string(),
                from_state: Some(InvoiceState::Sent),
                to_state: InvoiceState::Viewed,
                event: "view".to_string(),
                actor: Some("link.viewer".to_string()),
                channel: HistoryChannel::Api,
                bus_event_id: None,
                reason: None,
                occurred_at: now,
            },
            event: InvoiceViewed {
                invoice_id: invoice_id.to_string(),
                actor: "link.viewer".to_string(),
                channel: "api".to_string(),
            },
        },
    )
}

/// Views are idempotent: a second view changes nothing more than the
/// first did, and only a sent invoice is ever advanced.
pub proof fn view_is_idempotent(s: InvoiceState)
    ensures
        after_view(after_view(s)) == after_view(s),
        after_view(s) != s ==> s == InvoiceState::Sent,
{
}

} // verus!
