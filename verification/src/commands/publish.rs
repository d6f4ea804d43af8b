//! What a command publishes after a transition, in publish order: the
//! lifecycle triplet (`.proposed`, `.transitioned`, `.entered`), then the
//! command's domain event.

use vstd::prelude::*;
use crate::bus::events::{CreditNoteIssued, InvoiceIssued, InvoiceVoided, TOPIC_CREDITNOTE_ISSUED};
use crate::bus::outbox::{
    credit_note_lifecycle_body, credit_note_lifecycle_triplet,
    credit_note_triplet_topics, invoice_domain_topic_spec, invoice_lifecycle_body,
    invoice_lifecycle_triplet, invoice_triplet_topics, stage_at, CreditNoteHistoryRow,
    InvoiceHistoryRow, OutboxEvent, OutboxPayload,
};
use crate::commands::events::{PaymentEventBody, SentEventBody};
use crate::commands::lifecycle::command_transition_topics;
use crate::domain::{CreditNoteState, InvoiceEvent, InvoiceState};

verus! {

/// The body of a command's domain event.
#[derive(Debug, Clone, PartialEq, Eq)]
pub enum DomainBody {
    /// `invoice.issued`
    Issued(InvoiceIssued),
    /// `invoice.sent`
    Sent(SentEventBody),
    /// `invoice.paid` / `invoice.partially_paid`
    Payment(PaymentEventBody),
    /// `invoice.voided`
    Voided(InvoiceVoided),
    /// `creditnote.issued`
    CreditNoteIssued(CreditNoteIssued),
}

/// The body of one published event.
#[derive(Debug, Clone, PartialEq, Eq)]
pub enum PublishBody {
    /// One event of the lifecycle triplet.
    Lifecycle(OutboxPayload),
    /// The command's domain event.
    Domain(DomainBody),
}

/// One event a command publishes: topic and body.
#[derive(Debug, Clone, PartialEq, Eq)]
pub struct PublishItem {
    /// Dotted topic name.
    pub topic: String,
    /// Event body.
    pub body: PublishBody,
}

/// The topics of a publish list, in order.
pub open spec fn item_topics(items: Seq<PublishItem>) -> Seq<Seq<char>> {
    items.map_values(|it: PublishItem| it.topic@)
}

fn lifecycle_item(e: OutboxEvent) -> (it: PublishItem)
    ensures
        it.topic@ == e.topic@,
        it.body == PublishBody::Lifecycle(e.payload),
{
    PublishItem { topic: e.topic, body: PublishBody::Lifecycle(e.payload) }
}

/// The events an invoice transition publishes, in order: the lifecycle
/// triplet of the row's move by `event`, then `domain` on `domain_topic`.
/// When `domain_topic` is the one the outbox derives from the row, the
/// topics are those the outbox replays for the row.
pub fn invoice_publish_list(
    row: &InvoiceHistoryRow,
    from: InvoiceState,
    event: InvoiceEvent,
    domain_topic: &str,
    domain: DomainBody,
) -> (out: Vec<PublishItem>)
    requires
        row.from_state == Some(from),
    ensures
        out@.len() == 4,
        forall|i: int|
            0 <= i < 3 ==> #[trigger] out@[i].topic@ == invoice_triplet_topics()[i] && (
            out@[i].body matches PublishBody::Lifecycle(p) && invoice_lifecycle_body(
                p,
                *row,
                stage_at(i),
                event,
            )),
        out@[3].topic@ == domain_topic@,
        out@[3].body == PublishBody::Domain(domain),
        item_topics(out@) == invoice_triplet_topics().push(domain_topic@),
        invoice_domain_topic_spec(row.event@, row.to_state) == Some(domain_topic@) ==> item_topics(
            out@,
        ) == command_transition_topics(*row),
{
    let mut triplet = invoice_lifecycle_triplet(row, from, event);
    let ghost t = triplet@;
    let entered = triplet.pop().unwrap();
    let transitioned = triplet.pop().unwrap();
    let proposed = triplet.pop().unwrap();
    let mut out: Vec<PublishItem> = Vec::new();
    out.push(lifecycle_item(proposed));
    out.push(lifecycle_item(transitioned));
    out.push(lifecycle_item(entered));
    proof {
        assert(out@[0].topic@ == t[0].topic@ && out@[1].topic@ == t[1].topic@ && out@[2].topic@
            == t[2].topic@);
    }
    out.push(PublishItem { topic: domain_topic.to_string(), body: PublishBody::Domain(domain) });
    proof {
        assert(item_topics(out@) =~= invoice_triplet_topics().push(domain_topic@));
    }
    out
}

/// The events a credit-note issue publishes, in order: the lifecycle
/// triplet of the row's move, then `creditnote.issued` with `issued`.
pub fn credit_note_publish_list(row: &CreditNoteHistoryRow, from: CreditNoteState, issued: CreditNoteIssued) -> (out:
    Vec<PublishItem>)
    requires
        row.from_state == Some(from),
    ensures
        out@.len() == 4,
        forall|i: int|
            0 <= i < 3 ==> #[trigger] out@[i].topic@ == credit_note_triplet_topics()[i] && (
            out@[i].body matches PublishBody::Lifecycle(p) && credit_note_lifecycle_body(
                p,
                *row,
                stage_at(i),
            )),
        out@[3].topic@ == TOPIC_CREDITNOTE_ISSUED@,
        out@[3].body == PublishBody::Domain(DomainBody::CreditNoteIssued(issued)),
        item_topics(out@) == credit_note_triplet_topics().push(TOPIC_CREDITNOTE_ISSUED@),
{
    let mut triplet = credit_note_lifecycle_triplet(row, from);
    let ghost t = triplet@;
    let entered = triplet.pop().unwrap();
    let transitioned = triplet.pop().unwrap();
    let proposed = triplet.pop().unwrap();
    let mut out: Vec<PublishItem> = Vec::new();
    out.push(lifecycle_item(proposed));
    out.push(lifecycle_item(transitioned));
    out.push(lifecycle_item(entered));
    proof {
        assert(out@[0].topic@ == t[0].topic@ && out@[1].topic@ == t[1].topic@ && out@[2].topic@
            == t[2].topic@);
    }
    out.push(
        PublishItem {
            topic: TOPIC_CREDITNOTE_ISSUED.to_string(),
            body: PublishBody::Domain(DomainBody::CreditNoteIssued(issued)),
        },
    );
    proof {
        assert(item_topics(out@) =~= credit_note_triplet_topics().push(TOPIC_CREDITNOTE_ISSUED@));
    }
    out
}

} // verus!
