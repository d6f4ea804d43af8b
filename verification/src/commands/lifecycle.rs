//! What every lifecycle transition records: the audit row and the events
//! published with it (the lifecycle triplet, then the domain event).

use vstd::prelude::*;
use crate::bus::outbox::{
    credit_note_row_topics, credit_note_triplet_topics,
    invoice_domain_topic_spec, invoice_row_topics,
    invoice_triplet_topics, option_seq, reconstruct_spec, same_opt_text,
    CreditNoteHistoryRow, InvoiceHistoryRow,
};
use crate::commands::ctx::{audit_text, history_channel_of, Actor, Channel, UtcInstant};
use crate::domain::{invoice_event_tag_text, CreditNoteState, InvoiceEvent, InvoiceState};

verus! {

/// `row` records the move `from -> to` by `event`, as a command writes it.
pub open spec fn is_transition_row(
    row: InvoiceHistoryRow,
    history_id: Seq<char>,
    invoice_id: Seq<char>,
    from: InvoiceState,
    to: InvoiceState,
    event: InvoiceEvent,
    actor: Actor,
    channel: Channel,
    now: UtcInstant,
) -> bool {
    &&& row.id@ == history_id
    &&& row.invoice_id@ == invoice_id
    &&& row.from_state == Some(from)
    &&& row.to_state == to
    &&& row.event@ == invoice_event_tag_text(event)
    &&& row.actor matches Some(a) && a@ == audit_text(actor)
    &&& row.channel == history_channel_of(channel)
    &&& row.occurred_at == now
}

/// The audit row of an invoice transition `from -> to` driven by `event`.
pub fn transition_row(
    history_id: String,
    invoice_id: String,
    from: InvoiceState,
    to: InvoiceState,
    event: &InvoiceEvent,
    actor: &Actor,
    channel: Channel,
    bus_event_id: Option<String>,
    reason: Option<String>,
    now: UtcInstant,
) -> (row: InvoiceHistoryRow)
    ensures
        is_transition_row(row, history_id@, invoice_id@, from, to, *event, *actor, channel, now),
        same_opt_text(row.bus_event_id, bus_event_id),
        same_opt_text(row.reason, reason),
{
    let bus = match &bus_event_id {
        Some(b) => Some(b.clone()),
        None => None,
    };
    let why = match &reason {
        Some(r) => Some(r.clone()),
        None => None,
    };
    InvoiceHistoryRow {
        id: history_id,
        invoice_id,
        from_state: Some(from),
        to_state: to,
        event: event.tag().to_string(),
        actor: Some(actor.audit_string()),
        channel: channel.history_channel(),
        bus_event_id: bus,
        reason: why,
        occurred_at: now,
    }
}

/// The audit row of a credit-note issue (`Draft -> Issued`, tag `issue`).
pub fn credit_note_issue_row(
    history_id: String,
    credit_note_id: String,
    from: CreditNoteState,
    to: CreditNoteState,
    actor: &Actor,
    channel: Channel,
    now: UtcInstant,
) -> (row: CreditNoteHistoryRow)
    ensures
        row.id@ == history_id@,
        row.credit_note_id@ == credit_note_id@,
        row.from_state == Some(from),
        row.to_state == to,
        row.event@ == "issue"@,
        row.actor matches Some(a) && a@ == audit_text(*actor),
        row.channel == history_channel_of(channel),
        row.bus_event_id is None,
        row.occurred_at == now,
{
    CreditNoteHistoryRow {
        id: history_id,
        credit_note_id,
        from_state: Some(from),
        to_state: to,
        event: "issue".to_string(),
        actor: Some(actor.audit_string()),
        channel: channel.history_channel(),
        bus_event_id: None,
        occurred_at: now,
    }
}

/// Topics a command publishes for an invoice transition: the lifecycle
/// triplet, then the domain topic of the row.
pub open spec fn command_transition_topics(row: InvoiceHistoryRow) -> Seq<Seq<char>> {
    invoice_triplet_topics() + option_seq(invoice_domain_topic_spec(row.event@, row.to_state))
}

/// Replaying a transition row through the outbox publishes the same
/// topics, in the same order, as the command published when it wrote the
/// row, provided the row records a real move (`from != to`) by an event
/// whose tag the outbox recognises.
pub proof fn outbox_replays_command_topics(row: InvoiceHistoryRow, event: InvoiceEvent)
    requires
        row.from_state is Some,
        row.from_state != Some(row.to_state),
        row.event@ == invoice_event_tag_text(event),
        reconstruct_spec(row.event@, row.to_state) is Some,
    ensures
        invoice_row_topics(row) == command_transition_topics(row),
{
}

/// For credit notes the replay of an issue row equals what the command
/// published: the triplet, then `creditnote.issued`.
pub proof fn outbox_replays_credit_note_issue(row: CreditNoteHistoryRow)
    requires
        row.from_state == Some(CreditNoteState::Draft),
        row.to_state == CreditNoteState::Issued,
        row.event@ == "issue"@,
    ensures
        credit_note_row_topics(row) == credit_note_triplet_topics() + seq![
            crate::bus::events::TOPIC_CREDITNOTE_ISSUED@,
        ],
{
    reveal_strlit("issue");
    reveal_strlit("draft");
}

} // verus!
