//! Transactional outbox: every audit (history) row is replayed onto the
//! bus as a fixed sequence of events.
//!
//! - An initial row (`from_state` is `None`) yields only the domain event.
//! - A transition row yields the lifecycle triplet `.proposed`,
//!   `.transitioned`, `.entered`, then the domain event.
//! - A self-edge row (`from_state == Some(to_state)`) skips the triplet.
//! - A row whose tag does not name a lifecycle event skips the triplet;
//!   a row whose (tag, state) pair has no domain topic skips the domain
//!   event.

use vstd::prelude::*;
use crate::bus::events::{
    TOPIC_CREDITNOTE_DRAFTED, TOPIC_CREDITNOTE_ENTERED, TOPIC_CREDITNOTE_ISSUED,
    TOPIC_CREDITNOTE_PROPOSED, TOPIC_CREDITNOTE_TRANSITIONED, TOPIC_INVOICE_DRAFTED,
    TOPIC_INVOICE_ENTERED, TOPIC_INVOICE_ISSUED, TOPIC_INVOICE_PAID,
    TOPIC_INVOICE_PARTIALLY_PAID, TOPIC_INVOICE_PROPOSED, TOPIC_INVOICE_SENT,
    TOPIC_INVOICE_TRANSITIONED, TOPIC_INVOICE_VIEWED, TOPIC_INVOICE_VOIDED,
};
use crate::commands::ctx::UtcInstant;
use crate::domain::{CreditNoteState, HistoryChannel, InvoiceEvent, InvoiceState, Money};
use crate::text::str_eq;

verus! {

/// One row of the invoice audit table (also the outbox record).
#[derive(Debug, Clone, PartialEq, Eq)]
pub struct InvoiceHistoryRow {
    /// Row id.
    pub id: String,
    /// Invoice the row belongs to.
    pub invoice_id: String,
    /// State before the change; `None` for the row that created the invoice.
    pub from_state: Option<InvoiceState>,
    /// State after the change.
    pub to_state: InvoiceState,
    /// Audit tag (`draft`, `issue`, `send`, `view`, `pay`, `void`).
    pub event: String,
    /// Audit string of the actor.
    pub actor: Option<String>,
    /// Channel the change came in on.
    pub channel: HistoryChannel,
    /// Id of the inbound bus event that triggered the change, if any.
    pub bus_event_id: Option<String>,
    /// Free-text reason (void).
    pub reason: Option<String>,
    /// When the change happened.
    pub occurred_at: UtcInstant,
}

/// One row of the credit-note audit table.
#[derive(Debug, Clone, PartialEq, Eq)]
pub struct CreditNoteHistoryRow {
    /// Row id.
    pub id: String,
    /// Credit note the row belongs to.
    pub credit_note_id: String,
    /// State before the change; `None` for the creating row.
    pub from_state: Option<CreditNoteState>,
    /// State after the change.
    pub to_state: CreditNoteState,
    /// Audit tag (`draft`, `issue`).
    pub event: String,
    /// Audit string of the actor.
    pub actor: Option<String>,
    /// Channel the change came in on.
    pub channel: HistoryChannel,
    /// Upstream reference that triggered the change (the refund id).
    pub bus_event_id: Option<String>,
    /// When the change happened.
    pub occurred_at: UtcInstant,
}

/// Which of the three lifecycle events an event is.
#[derive(Debug, Clone, Copy, PartialEq, Eq, Structural)]
pub enum LifecycleStage {
    /// `.proposed`
    Proposed,
    /// `.transitioned`
    Transitioned,
    /// `.entered`
    Entered,
}

/// Body of one replayed event.
#[derive(Debug, Clone, PartialEq, Eq)]
pub enum OutboxPayload {
    /// Lifecycle event of an invoice transition.
    InvoiceLifecycle {
        /// Which of the three.
        stage: LifecycleStage,
        /// Invoice id.
        invoice_id: String,
        /// State left.
        from: InvoiceState,
        /// State entered.
        to: InvoiceState,
        /// Event that drove the transition.
        event: InvoiceEvent,
        /// Actor audit string.
        actor: Option<String>,
        /// Channel.
        channel: HistoryChannel,
        /// When.
        occurred_at: UtcInstant,
    },
    /// Audit envelope of an invoice row (the domain event).
    InvoiceAudit {
        /// Invoice id.
        invoice_id: String,
        /// State before.
        from_state: Option<InvoiceState>,
        /// State after.
        to_state: InvoiceState,
        /// Audit tag.
        event: String,
        /// Actor audit string.
        actor: Option<String>,
        /// Channel.
        channel: HistoryChannel,
        /// When.
        occurred_at: UtcInstant,
        /// Reason (void).
        reason: Option<String>,
    },
    /// Lifecycle event of a credit-note transition (its one event: issue).
    CreditNoteLifecycle {
        /// Which of the three.
        stage: LifecycleStage,
        /// Credit note id.
        credit_note_id: String,
        /// State left.
        from: CreditNoteState,
        /// State entered.
        to: CreditNoteState,
        /// Actor audit string.
        actor: Option<String>,
        /// Channel.
        channel: HistoryChannel,
        /// When.
        occurred_at: UtcInstant,
    },
    /// Audit envelope of a credit-note row (the domain event).
    CreditNoteAudit {
        /// Credit note id.
        credit_note_id: String,
        /// State before.
        from_state: Option<CreditNoteState>,
        /// State after.
        to_state: CreditNoteState,
        /// Audit tag.
        event: String,
        /// Actor audit string.
        actor: Option<String>,
        /// Channel.
        channel: HistoryChannel,
        /// When.
        occurred_at: UtcInstant,
    },
}

/// One event to publish: topic and body.
#[derive(Debug, Clone, PartialEq, Eq)]
pub struct OutboxEvent {
    /// Dotted topic name.
    pub topic: String,
    /// Event body.
    pub payload: OutboxPayload,
}

/// Counts of one relay pass.
#[derive(Debug, Default, Clone, PartialEq, Eq)]
pub struct OutboxStats {
    /// Rows processed and marked published (both tables).
    pub rows_processed: usize,
    /// Events published.
    pub events_published: usize,
}

// ---------------------------------------------------------------------
// Specification
// ---------------------------------------------------------------------

/// The lifecycle event an audit tag stands for, given the state the row
/// entered. A `pay` row carries the full-versus-partial verdict in its
/// state, so it is rebuilt with amounts that classify the same way
/// (`1` of `1`, or `1` of `2`).
pub open spec fn reconstruct_spec(tag: Seq<char>, to_state: InvoiceState) -> Option<InvoiceEvent> {
    if tag == "issue"@ {
        Some(InvoiceEvent::Issue)
    } else if tag == "send"@ {
        Some(InvoiceEvent::Send)
    } else if tag == "remind"@ {
        Some(InvoiceEvent::Remind)
    } else if tag == "view"@ {
        Some(InvoiceEvent::View)
    } else if tag == "pay"@ {
        match to_state {
            InvoiceState::Paid => Some(
                InvoiceEvent::Pay {
                    amount_paid: Money { mantissa: 1, scale: 0 },
                    total: Money { mantissa: 1, scale: 0 },
                },
            ),
            InvoiceState::PartiallyPaid => Some(
                InvoiceEvent::Pay {
                    amount_paid: Money { mantissa: 1, scale: 0 },
                    total: Money { mantissa: 2, scale: 0 },
                },
            ),
            _ => None,
        }
    } else if tag == "void"@ {
        Some(InvoiceEvent::Void)
    } else {
        None
    }
}

/// Domain topic of an invoice row: fixed by its tag and the state entered.
pub open spec fn invoice_domain_topic_spec(tag: Seq<char>, to_state: InvoiceState) -> Option<
    Seq<char>,
> {
    if tag == "draft"@ && to_state == InvoiceState::Draft {
        Some(TOPIC_INVOICE_DRAFTED@)
    } else if tag == "issue"@ && to_state == InvoiceState::Issued {
        Some(TOPIC_INVOICE_ISSUED@)
    } else if tag == "send"@ && to_state == InvoiceState::Sent {
        Some(TOPIC_INVOICE_SENT@)
    } else if tag == "view"@ && to_state == InvoiceState::Viewed {
        Some(TOPIC_INVOICE_VIEWED@)
    } else if tag == "pay"@ && to_state == InvoiceState::Paid {
        Some(TOPIC_INVOICE_PAID@)
    } else if tag == "pay"@ && to_state == InvoiceState::PartiallyPaid {
        Some(TOPIC_INVOICE_PARTIALLY_PAID@)
    } else if tag == "void"@ && to_state == InvoiceState::Voided {
        Some(TOPIC_INVOICE_VOIDED@)
    } else {
        None
    }
}

/// Domain topic of a credit-note row.
pub open spec fn credit_note_domain_topic_spec(tag: Seq<char>, to_state: CreditNoteState) -> Option<
    Seq<char>,
> {
    if tag == "draft"@ && to_state == CreditNoteState::Draft {
        Some(TOPIC_CREDITNOTE_DRAFTED@)
    } else if tag == "issue"@ && to_state == CreditNoteState::Issued {
        Some(TOPIC_CREDITNOTE_ISSUED@)
    } else {
        None
    }
}

/// An invoice row replays the lifecycle triplet: it records a real move
/// (a previous state that differs from the new one) driven by a known event.
pub open spec fn invoice_row_has_triplet(row: InvoiceHistoryRow) -> bool {
    &&& row.from_state is Some
    &&& row.from_state != Some(row.to_state)
    &&& reconstruct_spec(row.event@, row.to_state) is Some
}

/// A credit-note row replays the lifecycle triplet: it records a real move.
pub open spec fn credit_note_row_has_triplet(row: CreditNoteHistoryRow) -> bool {
    row.from_state is Some && row.from_state != Some(row.to_state)
}

/// The lifecycle triplet's topics for invoices.
pub open spec fn invoice_triplet_topics() -> Seq<Seq<char>> {
    seq![TOPIC_INVOICE_PROPOSED@, TOPIC_INVOICE_TRANSITIONED@, TOPIC_INVOICE_ENTERED@]
}

/// The lifecycle triplet's topics for credit notes.
pub open spec fn credit_note_triplet_topics() -> Seq<Seq<char>> {
    seq![TOPIC_CREDITNOTE_PROPOSED@, TOPIC_CREDITNOTE_TRANSITIONED@, TOPIC_CREDITNOTE_ENTERED@]
}

/// A one-element sequence for `Some`, the empty one for `None`.
pub open spec fn option_seq<A>(o: Option<A>) -> Seq<A> {
    match o {
        Some(a) => seq![a],
        None => Seq::empty(),
    }
}

/// Topics an invoice row replays, in publish order.
pub open spec fn invoice_row_topics(row: InvoiceHistoryRow) -> Seq<Seq<char>> {
    (if invoice_row_has_triplet(row) {
        invoice_triplet_topics()
    } else {
        Seq::empty()
    }) + option_seq(invoice_domain_topic_spec(row.event@, row.to_state))
}

/// Topics a credit-note row replays, in publish order.
pub open spec fn credit_note_row_topics(row: CreditNoteHistoryRow) -> Seq<Seq<char>> {
    (if credit_note_row_has_triplet(row) {
        credit_note_triplet_topics()
    } else {
        Seq::empty()
    }) + option_seq(credit_note_domain_topic_spec(row.event@, row.to_state))
}

/// Stage of the `k`-th triplet event.
pub open spec fn stage_at(k: int) -> LifecycleStage {
    if k == 0 {
        LifecycleStage::Proposed
    } else if k == 1 {
        LifecycleStage::Transitioned
    } else {
        LifecycleStage::Entered
    }
}

/// Two optional strings hold the same text.
pub open spec fn same_opt_text(a: Option<String>, b: Option<String>) -> bool {
    match (a, b) {
        (Some(x), Some(y)) => x@ == y@,
        (None, None) => true,
        _ => false,
    }
}

/// `p` is the body of a lifecycle event of stage `stage` for `row`.
pub open spec fn invoice_lifecycle_body(
    p: OutboxPayload,
    row: InvoiceHistoryRow,
    stage: LifecycleStage,
    ev: InvoiceEvent,
) -> bool {
    match p {
        OutboxPayload::InvoiceLifecycle { stage: s, invoice_id, from, to, event, actor, channel, occurred_at } => {
            &&& s == stage
            &&& invoice_id@ == row.invoice_id@
            &&& Some(from) == row.from_state
            &&& to == row.to_state
            &&& event == ev
            &&& same_opt_text(actor, row.actor)
            &&& channel == row.channel
            &&& occurred_at == row.occurred_at
        },
        _ => false,
    }
}

/// `p` is the audit envelope of `row`.
pub open spec fn invoice_audit_body(p: OutboxPayload, row: InvoiceHistoryRow) -> bool {
    match p {
        OutboxPayload::InvoiceAudit { invoice_id, from_state, to_state, event, actor, channel, occurred_at, reason } => {
            &&& invoice_id@ == row.invoice_id@
            &&& from_state == row.from_state
            &&& to_state == row.to_state
            &&& event@ == row.event@
            &&& same_opt_text(actor, row.actor)
            &&& channel == row.channel
            &&& occurred_at == row.occurred_at
            &&& same_opt_text(reason, row.reason)
        },
        _ => false,
    }
}

/// `p` is the body of a credit-note lifecycle event of stage `stage`.
pub open spec fn credit_note_lifecycle_body(p: OutboxPayload, row: CreditNoteHistoryRow, stage: LifecycleStage) -> bool {
    match p {
        OutboxPayload::CreditNoteLifecycle { stage: s, credit_note_id, from, to, actor, channel, occurred_at } => {
            &&& s == stage
            &&& credit_note_id@ == row.credit_note_id@
            &&& Some(from) == row.from_state
            &&& to == row.to_state
            &&& same_opt_text(actor, row.actor)
            &&& channel == row.channel
            &&& occurred_at == row.occurred_at
        },
        _ => false,
    }
}

/// `p` is the audit envelope of a credit-note row.
pub open spec fn credit_note_audit_body(p: OutboxPayload, row: CreditNoteHistoryRow) -> bool {
    match p {
        OutboxPayload::CreditNoteAudit { credit_note_id, from_state, to_state, event, actor, channel, occurred_at } => {
            &&& credit_note_id@ == row.credit_note_id@
            &&& from_state == row.from_state
            &&& to_state == row.to_state
            &&& event@ == row.event@
            &&& same_opt_text(actor, row.actor)
            &&& channel == row.channel
            &&& occurred_at == row.occurred_at
        },
        _ => false,
    }
}

/// `events` is exactly the replay of `row`: the topics in order, each
/// lifecycle event carrying the row's move, the domain event its envelope.
pub open spec fn is_invoice_replay(events: Seq<OutboxEvent>, row: InvoiceHistoryRow) -> bool {
    let topics = invoice_row_topics(row);
    &&& events.len() == topics.len()
    &&& forall|i: int| 0 <= i < events.len() ==> #[trigger] events[i].topic@ == topics[i]
    &&& forall|i: int|
        0 <= i < events.len() ==> if invoice_row_has_triplet(row) && i < 3 {
            invoice_lifecycle_body(
                #[trigger] events[i].payload,
                row,
                stage_at(i),
                reconstruct_spec(row.event@, row.to_state)->0,
            )
        } else {
            invoice_audit_body(events[i].payload, row)
        }
}

/// `events` is exactly the replay of a credit-note row.
pub open spec fn is_credit_note_replay(events: Seq<OutboxEvent>, row: CreditNoteHistoryRow) -> bool {
    let topics = credit_note_row_topics(row);
    &&& events.len() == topics.len()
    &&& forall|i: int| 0 <= i < events.len() ==> #[trigger] events[i].topic@ == topics[i]
    &&& forall|i: int|
        0 <= i < events.len() ==> if credit_note_row_has_triplet(row) && i < 3 {
            credit_note_lifecycle_body(#[trigger] events[i].payload, row, stage_at(i))
        } else {
            credit_note_audit_body(events[i].payload, row)
        }
}

// ---------------------------------------------------------------------
// Implementation
// ---------------------------------------------------------------------

fn clone_opt_string(o: &Option<String>) -> (r: Option<String>)
    ensures
        same_opt_text(r, *o),
{
    match o {
        Some(s) => Some(s.clone()),
        None => None,
    }
}

/// Rebuild the lifecycle event from an audit tag and the state entered;
/// `None` for tags that name no lifecycle event (such as `draft`).
pub fn reconstruct_invoice_event(tag: &str, to_state: InvoiceState) -> (r: Option<InvoiceEvent>)
    ensures
        r == reconstruct_spec(tag@, to_state),
{
    if str_eq(tag, "issue") {
        Some(InvoiceEvent::Issue)
    } else if str_eq(tag, "send") {
        Some(InvoiceEvent::Send)
    } else if str_eq(tag, "remind") {
        Some(InvoiceEvent::Remind)
    } else if str_eq(tag, "view") {
        Some(InvoiceEvent::View)
    } else if str_eq(tag, "pay") {
        match to_state {
            InvoiceState::Paid => Some(
                InvoiceEvent::Pay {
                    amount_paid: Money { mantissa: 1, scale: 0 },
                    total: Money { mantissa: 1, scale: 0 },
                },
            ),
            InvoiceState::PartiallyPaid => Some(
                InvoiceEvent::Pay {
                    amount_paid: Money { mantissa: 1, scale: 0 },
                    total: Money { mantissa: 2, scale: 0 },
                },
            ),
            _ => None,
        }
    } else if str_eq(tag, "void") {
        Some(InvoiceEvent::Void)
    } else {
        None
    }
}

/// Domain topic of an invoice row, by tag and state entered.
pub fn invoice_domain_topic(tag: &str, to_state: InvoiceState) -> (r: Option<&'static str>)
    ensures
        match r {
            Some(t) => invoice_domain_topic_spec(tag@, to_state) == Some(t@),
            None => invoice_domain_topic_spec(tag@, to_state) is None,
        },
{
    if str_eq(tag, "draft") && to_state == InvoiceState::Draft {
        Some(TOPIC_INVOICE_DRAFTED)
    } else if str_eq(tag, "issue") && to_state == InvoiceState::Issued {
        Some(TOPIC_INVOICE_ISSUED)
    } else if str_eq(tag, "send") && to_state == InvoiceState::Sent {
        Some(TOPIC_INVOICE_SENT)
    } else if str_eq(tag, "view") && to_state == InvoiceState::Viewed {
        Some(TOPIC_INVOICE_VIEWED)
    } else if str_eq(tag, "pay") && to_state == InvoiceState::Paid {
        Some(TOPIC_INVOICE_PAID)
    } else if str_eq(tag, "pay") && to_state == InvoiceState::PartiallyPaid {
        Some(TOPIC_INVOICE_PARTIALLY_PAID)
    } else if str_eq(tag, "void") && to_state == InvoiceState::Voided {
        Some(TOPIC_INVOICE_VOIDED)
    } else {
        None
    }
}

/// Domain topic of a credit-note row, by tag and state entered.
pub fn credit_note_domain_topic(tag: &str, to_state: CreditNoteState) -> (r: Option<&'static str>)
    ensures
        match r {
            Some(t) => credit_note_domain_topic_spec(tag@, to_state) == Some(t@),
            None => credit_note_domain_topic_spec(tag@, to_state) is None,
        },
{
    if str_eq(tag, "draft") && to_state == CreditNoteState::Draft {
        Some(TOPIC_CREDITNOTE_DRAFTED)
    } else if str_eq(tag, "issue") && to_state == CreditNoteState::Issued {
        Some(TOPIC_CREDITNOTE_ISSUED)
    } else {
        None
    }
}

fn invoice_lifecycle_event(
    topic: &str,
    stage: LifecycleStage,
    row: &InvoiceHistoryRow,
    from: InvoiceState,
    event: InvoiceEvent,
) -> (e: OutboxEvent)
    requires
        row.from_state == Some(from),
    ensures
        e.topic@ == topic@,
        invoice_lifecycle_body(e.payload, *row, stage, event),
{
    OutboxEvent {
        topic: topic.to_string(),
        payload: OutboxPayload::InvoiceLifecycle {
            stage,
            invoice_id: row.invoice_id.clone(),
            from,
            to: row.to_state,
            event,
            actor: clone_opt_string(&row.actor),
            channel: row.channel,
            occurred_at: row.occurred_at,
        },
    }
}

fn credit_note_lifecycle_event(
    topic: &str,
    stage: LifecycleStage,
    row: &CreditNoteHistoryRow,
    from: CreditNoteState,
) -> (e: OutboxEvent)
    requires
        row.from_state == Some(from),
    ensures
        e.topic@ == topic@,
        credit_note_lifecycle_body(e.payload, *row, stage),
{
    OutboxEvent {
        topic: topic.to_string(),
        payload: OutboxPayload::CreditNoteLifecycle {
            stage,
            credit_note_id: row.credit_note_id.clone(),
            from,
            to: row.to_state,
            actor: clone_opt_string(&row.actor),
            channel: row.channel,
            occurred_at: row.occurred_at,
        },
    }
}

/// The three lifecycle events of an invoice transition, in publish order:
/// `.proposed`, `.transitioned`, `.entered`, each carrying the row's move
/// and `event`.
pub fn invoice_lifecycle_triplet(row: &InvoiceHistoryRow, from: InvoiceState, event: InvoiceEvent) -> (out: Vec<OutboxEvent>)
    requires
        row.from_state == Some(from),
    ensures
        out@.len() == 3,
        forall|i: int| 0 <= i < 3 ==> #[trigger] out@[i].topic@ == invoice_triplet_topics()[i],
        forall|i: int| 0 <= i < 3 ==> invoice_lifecycle_body(#[trigger] out@[i].payload, *row, stage_at(i), event),
{
    let mut out: Vec<OutboxEvent> = Vec::new();
    out.push(invoice_lifecycle_event(TOPIC_INVOICE_PROPOSED, LifecycleStage::Proposed, row, from, event));
    out.push(invoice_lifecycle_event(TOPIC_INVOICE_TRANSITIONED, LifecycleStage::Transitioned, row, from, event));
    out.push(invoice_lifecycle_event(TOPIC_INVOICE_ENTERED, LifecycleStage::Entered, row, from, event));
    out
}

/// The three lifecycle events of a credit-note transition, in publish order.
pub fn credit_note_lifecycle_triplet(row: &CreditNoteHistoryRow, from: CreditNoteState) -> (out: Vec<OutboxEvent>)
    requires
        row.from_state == Some(from),
    ensures
        out@.len() == 3,
        forall|i: int| 0 <= i < 3 ==> #[trigger] out@[i].topic@ == credit_note_triplet_topics()[i],
        forall|i: int| 0 <= i < 3 ==> credit_note_lifecycle_body(#[trigger] out@[i].payload, *row, stage_at(i)),
{
    let mut out: Vec<OutboxEvent> = Vec::new();
    out.push(credit_note_lifecycle_event(TOPIC_CREDITNOTE_PROPOSED, LifecycleStage::Proposed, row, from));
    out.push(credit_note_lifecycle_event(TOPIC_CREDITNOTE_TRANSITIONED, LifecycleStage::Transitioned, row, from));
    out.push(credit_note_lifecycle_event(TOPIC_CREDITNOTE_ENTERED, LifecycleStage::Entered, row, from));
    out
}

/// Replay an invoice audit row as bus events, in publish order.
pub fn invoice_row_to_events(row: &InvoiceHistoryRow) -> (out: Vec<OutboxEvent>)
    ensures
        is_invoice_replay(out@, *row),
{
    let mut out: Vec<OutboxEvent> = Vec::new();
    let self_edge = match row.from_state {
        Some(f) => f == row.to_state,
        None => false,
    };
    if !self_edge {
        if let Some(from) = row.from_state {
            if let Some(ev) = reconstruct_invoice_event(row.event.as_str(), row.to_state) {
                out = invoice_lifecycle_triplet(row, from, ev);
            }
        }
    }
    assert(out@.len() == (if invoice_row_has_triplet(*row) { 3int } else { 0int }));
    if let Some(topic) = invoice_domain_topic(row.event.as_str(), row.to_state) {
        let audit = OutboxEvent {
            topic: topic.to_string(),
            payload: OutboxPayload::InvoiceAudit {
                invoice_id: row.invoice_id.clone(),
                from_state: row.from_state,
                to_state: row.to_state,
                event: row.event.clone(),
                actor: clone_opt_string(&row.actor),
                channel: row.channel,
                occurred_at: row.occurred_at,
                reason: clone_opt_string(&row.reason),
            },
        };
        out.push(audit);
    }
    proof {
        let topics = invoice_row_topics(*row);
        if invoice_row_has_triplet(*row) {
            assert(topics[0] == TOPIC_INVOICE_PROPOSED@);
            assert(topics[1] == TOPIC_INVOICE_TRANSITIONED@);
            assert(topics[2] == TOPIC_INVOICE_ENTERED@);
        }
    }
    out
}

/// Replay a credit-note audit row as bus events, in publish order.
pub fn credit_note_row_to_events(row: &CreditNoteHistoryRow) -> (out: Vec<OutboxEvent>)
    ensures
        is_credit_note_replay(out@, *row),
{
    let mut out: Vec<OutboxEvent> = Vec::new();
    let moved = match row.from_state {
        Some(f) => f != row.to_state,
        None => false,
    };
    if moved {
        if let Some(from) = row.from_state {
            out = credit_note_lifecycle_triplet(row, from);
        }
    }
    if let Some(topic) = credit_note_domain_topic(row.event.as_str(), row.to_state) {
        let audit = OutboxEvent {
            topic: topic.to_string(),
            payload: OutboxPayload::CreditNoteAudit {
                credit_note_id: row.credit_note_id.clone(),
                from_state: row.from_state,
                to_state: row.to_state,
                event: row.event.clone(),
                actor: clone_opt_string(&row.actor),
                channel: row.channel,
                occurred_at: row.occurred_at,
            },
        };
        out.push(audit);
    }
    proof {
        let topics = credit_note_row_topics(*row);
        if credit_note_row_has_triplet(*row) {
            assert(topics[0] == TOPIC_CREDITNOTE_PROPOSED@);
            assert(topics[1] == TOPIC_CREDITNOTE_TRANSITIONED@);
            assert(topics[2] == TOPIC_CREDITNOTE_ENTERED@);
        }
    }
    out
}

impl OutboxStats {
    /// Empty counts, the start of a relay pass.
    pub fn new() -> (s: OutboxStats)
        ensures
            s.rows_processed == 0,
            s.events_published == 0,
    {
        OutboxStats { rows_processed: 0, events_published: 0 }
    }

    /// Count one published event.
    pub fn record_event(&mut self)
        requires
            old(self).events_published < usize::MAX,
        ensures
            final(self).events_published == old(self).events_published + 1,
            final(self).rows_processed == old(self).rows_processed,
    {
        self.events_published = self.events_published + 1;
    }

    /// Count one row marked published.
    pub fn record_row(&mut self)
        requires
            old(self).rows_processed < usize::MAX,
        ensures
            final(self).rows_processed == old(self).rows_processed + 1,
            final(self).events_published == old(self).events_published,
    {
        self.rows_processed = self.rows_processed + 1;
    }
}

} // verus!
