//! Domain-event payloads the commands publish at the moment they act
//! (richer than the outbox's audit envelope).

use vstd::prelude::*;
use crate::bus::events::{
    CreditNoteDrafted, CreditNoteIssued, InvoiceIssued, InvoiceVoided, TOPIC_INVOICE_PAID,
    TOPIC_INVOICE_PARTIALLY_PAID,
};
use crate::bus::outbox::{same_opt_text, CreditNoteHistoryRow};
use crate::commands::ctx::{audit_text, history_channel_of, Actor, Channel, UtcInstant};
use crate::domain::{decimal_display, history_channel_str, history_channel_text, CreditNoteState, Money};

verus! {

fn clone_opt(o: &Option<String>) -> (r: Option<String>)
    ensures
        same_opt_text(r, *o),
{
    match o {
        Some(s) => Some(s.clone()),
        None => None,
    }
}

fn channel_text(channel: Channel) -> (s: String)
    ensures
        s@ == history_channel_text(history_channel_of(channel)),
{
    history_channel_str(channel.history_channel()).to_string()
}

/// Display text of an amount.
pub open spec fn money_text(m: Money) -> Seq<char> {
    decimal_display(m.mantissa, m.scale)
}

/// The `invoice.issued` payload: number, customer, currency, the frozen
/// totals, the nexus-review flag, actor and channel.
pub fn issued_event(
    invoice_id: &str,
    number: &Option<String>,
    customer_id: &str,
    currency: &str,
    subtotal: Money,
    tax_total: Money,
    total: Money,
    nexus_review: bool,
    actor: &Actor,
    channel: Channel,
) -> (e: InvoiceIssued)
    requires
        subtotal.wf(),
        tax_total.wf(),
        total.wf(),
    ensures
        e.invoice_id@ == invoice_id@,
        same_opt_text(e.number, *number),
        e.customer_id@ == customer_id@,
        e.currency@ == currency@,
        e.subtotal@ == money_text(subtotal),
        e.tax_total@ == money_text(tax_total),
        e.total@ == money_text(total),
        e.nexus_review == nexus_review,
        e.actor@ == audit_text(*actor),
        e.channel@ == history_channel_text(history_channel_of(channel)),
{
    InvoiceIssued {
        invoice_id: invoice_id.to_string(),
        number: clone_opt(number),
        customer_id: customer_id.to_string(),
        currency: currency.to_string(),
        subtotal: subtotal.to_text(),
        tax_total: tax_total.to_text(),
        total: total.to_text(),
        nexus_review,
        actor: actor.audit_string(),
        channel: channel_text(channel),
    }
}

/// Payload of `invoice.sent` as the send command publishes it.
#[derive(Debug, Clone, PartialEq, Eq)]
pub struct SentEventBody {
    /// Invoice id.
    pub invoice_id: String,
    /// Invoice number.
    pub number: Option<String>,
    /// Where it was delivered.
    pub destination: String,
    /// Actor audit string.
    pub actor: String,
    /// Channel.
    pub channel: String,
}

/// The `invoice.sent` payload: number, destination, actor and channel.
pub fn sent_event(
    invoice_id: &str,
    number: &Option<String>,
    destination: &str,
    actor: &Actor,
    channel: Channel,
) -> (e: SentEventBody)
    ensures
        e.invoice_id@ == invoice_id@,
        same_opt_text(e.number, *number),
        e.destination@ == destination@,
        e.actor@ == audit_text(*actor),
        e.channel@ == history_channel_text(history_channel_of(channel)),
{
    SentEventBody {
        invoice_id: invoice_id.to_string(),
        number: clone_opt(number),
        destination: destination.to_string(),
        actor: actor.audit_string(),
        channel: channel_text(channel),
    }
}

/// Payload of `invoice.paid` / `invoice.partially_paid`.
#[derive(Debug, Clone, PartialEq, Eq)]
pub struct PaymentEventBody {
    /// Invoice id.
    pub invoice_id: String,
    /// This payment.
    pub amount: String,
    /// Cumulative amount paid.
    pub amount_paid: String,
    /// Invoice total.
    pub total: String,
    /// Currency code.
    pub currency: String,
    /// Actor audit string.
    pub actor: String,
    /// Channel.
    pub channel: String,
    /// Inbound bus event id, when a bus event triggered the payment.
    pub bus_event_id: Option<String>,
}

/// The payment event: on `invoice.paid` when the payment settled the
/// invoice, else on `invoice.partially_paid`; the body carries this
/// payment, the cumulative amount, the total, currency, actor, channel
/// and the triggering bus event.
pub fn payment_event(
    invoice_id: &str,
    amount: Money,
    amount_paid: Money,
    total: Money,
    currency: &str,
    actor: &Actor,
    channel: Channel,
    bus_event_id: &Option<String>,
    fully_paid: bool,
) -> (e: (&'static str, PaymentEventBody))
    requires
        amount.wf(),
        amount_paid.wf(),
        total.wf(),
    ensures
        e.0@ == if fully_paid {
            TOPIC_INVOICE_PAID@
        } else {
            TOPIC_INVOICE_PARTIALLY_PAID@
        },
        e.1.invoice_id@ == invoice_id@,
        e.1.amount@ == money_text(amount),
        e.1.amount_paid@ == money_text(amount_paid),
        e.1.total@ == money_text(total),
        e.1.currency@ == currency@,
        e.1.actor@ == audit_text(*actor),
        e.1.channel@ == history_channel_text(history_channel_of(channel)),
        same_opt_text(e.1.bus_event_id, *bus_event_id),
{
    let topic = if fully_paid {
        TOPIC_INVOICE_PAID
    } else {
        TOPIC_INVOICE_PARTIALLY_PAID
    };
    (
        topic,
        PaymentEventBody {
            invoice_id: invoice_id.to_string(),
            amount: amount.to_text(),
            amount_paid: amount_paid.to_text(),
            total: total.to_text(),
            currency: currency.to_string(),
            actor: actor.audit_string(),
            channel: channel_text(channel),
            bus_event_id: clone_opt(bus_event_id),
        },
    )
}

/// The `invoice.voided` payload: reason, actor and channel.
pub fn voided_event(invoice_id: &str, reason: &Option<String>, actor: &Actor, channel: Channel) -> (e:
    InvoiceVoided)
    ensures
        e.invoice_id@ == invoice_id@,
        same_opt_text(e.reason, *reason),
        e.actor@ == audit_text(*actor),
        e.channel@ == history_channel_text(history_channel_of(channel)),
{
    InvoiceVoided {
        invoice_id: invoice_id.to_string(),
        reason: clone_opt(reason),
        actor: actor.audit_string(),
        channel: channel_text(channel),
    }
}

/// The audit row of a new credit note: no previous state, `Draft`, tag
/// `draft`, with the refund reference as the triggering event.
pub fn credit_note_draft_row(
    history_id: String,
    credit_note_id: String,
    refund_ref: &Option<String>,
    actor: &Actor,
    channel: Channel,
    now: UtcInstant,
) -> (row: CreditNoteHistoryRow)
    ensures
        row.id@ == history_id@,
        row.credit_note_id@ == credit_note_id@,
        row.from_state is None,
        row.to_state == CreditNoteState::Draft,
        row.event@ == "draft"@,
        row.actor matches Some(a) && a@ == audit_text(*actor),
        row.channel == history_channel_of(channel),
        same_opt_text(row.bus_event_id, *refund_ref),
        row.occurred_at == now,
{
    CreditNoteHistoryRow {
        id: history_id,
        credit_note_id,
        from_state: None,
        to_state: CreditNoteState::Draft,
        event: "draft".to_string(),
        actor: Some(actor.audit_string()),
        channel: channel.history_channel(),
        bus_event_id: clone_opt(refund_ref),
        occurred_at: now,
    }
}

/// The `creditnote.drafted` payload.
pub fn credit_note_drafted_event(
    credit_note_id: &str,
    invoice_id: &str,
    amount: Money,
    currency: &str,
    refund_ref: &Option<String>,
    actor: &Actor,
    channel: Channel,
) -> (e: CreditNoteDrafted)
    requires
        amount.wf(),
    ensures
        e.credit_note_id@ == credit_note_id@,
        e.invoice_id@ == invoice_id@,
        e.amount@ == money_text(amount),
        e.currency@ == currency@,
        same_opt_text(e.refund_ref, *refund_ref),
        e.actor@ == audit_text(*actor),
        e.channel@ == history_channel_text(history_channel_of(channel)),
{
    CreditNoteDrafted {
        credit_note_id: credit_note_id.to_string(),
        invoice_id: invoice_id.to_string(),
        amount: amount.to_text(),
        currency: currency.to_string(),
        refund_ref: clone_opt(refund_ref),
        actor: actor.audit_string(),
        channel: channel_text(channel),
    }
}

/// The `creditnote.issued` payload.
pub fn credit_note_issued_event(
    credit_note_id: &str,
    number: &Option<String>,
    invoice_id: &str,
    amount: Money,
    currency: &str,
    actor: &Actor,
    channel: Channel,
) -> (e: CreditNoteIssued)
    requires
        amount.wf(),
    ensures
        e.credit_note_id@ == credit_note_id@,
        same_opt_text(e.number, *number),
        e.invoice_id@ == invoice_id@,
        e.amount@ == money_text(amount),
        e.currency@ == currency@,
        e.actor@ == audit_text(*actor),
        e.channel@ == history_channel_text(history_channel_of(channel)),
{
    CreditNoteIssued {
        credit_note_id: credit_note_id.to_string(),
        number: clone_opt(number),
        invoice_id: invoice_id.to_string(),
        amount: amount.to_text(),
        currency: currency.to_string(),
        actor: actor.audit_string(),
        channel: channel_text(channel),
    }
}

} // verus!
