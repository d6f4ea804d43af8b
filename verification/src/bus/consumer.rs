//! Inbound bus consumer: canonicalise the topic through the operator's
//! remap, route it to a command, and build that command's input from the
//! decoded payload.
//!
//! Default topics in:
//! - `fin.billing.charge.created`   -> draft an invoice
//! - `fin.billing.payment.received` -> record a payment
//! - `fin.billing.payment.refunded` -> create a credit note

use vstd::prelude::*;
use crate::bus::topic_map::{remap_topic, remapped, TopicMap};
use crate::commands::credit::CreateCreditNoteInput;
use crate::commands::ctx::{Actor, Channel, UtcInstant};
use crate::commands::draft::{DraftInvoiceInput, DraftLineInput};
use crate::commands::error::{core_message, CoreError};
use crate::commands::pay::MarkPaidInput;
use crate::domain::Money;
use crate::text::{push_str_chars, str_eq, string_from_chars, strip_prefix, strip_prefix_spec};

verus! {

/// `fin.billing.charge.created`
pub const TOPIC_CHARGE_CREATED: &'static str = "fin.billing.charge.created";
/// `fin.billing.payment.received`
pub const TOPIC_PAYMENT_RECEIVED: &'static str = "fin.billing.payment.received";
/// `fin.billing.payment.refunded`
pub const TOPIC_PAYMENT_REFUNDED: &'static str = "fin.billing.payment.refunded";
/// Seller jurisdiction assumed when a charge names none (Quebec, Canada).
pub const DEFAULT_SELLER_JURISDICTION: &'static str = "CA-QC";
/// Tax category assumed when a charge line names none.
pub const DEFAULT_TAX_CATEGORY: &'static str = "standard";

/// Why an inbound event was not dispatched.
#[derive(Debug, Clone, PartialEq, Eq)]
pub enum DispatchError {
    /// No command handles the (canonical) topic.
    UnknownTopic(String),
    /// The payload did not decode for the topic.
    DecodePayload {
        /// Canonical topic.
        topic: String,
        /// Decoder's message.
        message: String,
    },
    /// A required field is missing or malformed.
    InvalidPayload {
        /// Canonical topic.
        topic: String,
        /// Why.
        message: String,
    },
    /// The command rejected the call.
    Command {
        /// Command name.
        command: String,
        /// The command's error.
        source: CoreError,
    },
}

/// The message a dispatch error displays.
pub open spec fn dispatch_message(e: DispatchError) -> Seq<char> {
    match e {
        DispatchError::UnknownTopic(t) => "no consumer for topic `"@ + t@ + "`"@,
        DispatchError::DecodePayload { topic, message } => "decoding payload for `"@ + topic@
            + "` failed: "@ + message@,
        DispatchError::InvalidPayload { topic, message } => "validating payload for `"@ + topic@
            + "`: "@ + message@,
        DispatchError::Command { command, source } => "command `"@ + command@ + "` failed: "@
            + core_message(source),
    }
}

impl DispatchError {
    /// Human-readable message.
    pub fn message(&self) -> (s: String)
        ensures
            s@ == dispatch_message(*self),
    {
        let mut v: Vec<char> = Vec::new();
        match self {
            DispatchError::UnknownTopic(t) => {
                push_str_chars(&mut v, "no consumer for topic `");
                push_str_chars(&mut v, t.as_str());
                push_str_chars(&mut v, "`");
            },
            DispatchError::DecodePayload { topic, message } => {
                push_str_chars(&mut v, "decoding payload for `");
                push_str_chars(&mut v, topic.as_str());
                push_str_chars(&mut v, "` failed: ");
                push_str_chars(&mut v, message.as_str());
            },
            DispatchError::InvalidPayload { topic, message } => {
                push_str_chars(&mut v, "validating payload for `");
                push_str_chars(&mut v, topic.as_str());
                push_str_chars(&mut v, "`: ");
                push_str_chars(&mut v, message.as_str());
            },
            DispatchError::Command { command, source } => {
                push_str_chars(&mut v, "command `");
                push_str_chars(&mut v, command.as_str());
                push_str_chars(&mut v, "` failed: ");
                let m = source.message();
                push_str_chars(&mut v, m.as_str());
            },
        }
        string_from_chars(&v)
    }
}

/// The command an inbound topic routes to.
#[derive(Debug, Clone, Copy, PartialEq, Eq, Structural)]
pub enum InboundRoute {
    /// Draft an invoice.
    ChargeCreated,
    /// Record a payment.
    PaymentReceived,
    /// Create a credit note.
    PaymentRefunded,
}

/// The route of a canonical topic, if it has one.
pub open spec fn route_of(canonical: Seq<char>) -> Option<InboundRoute> {
    if canonical == TOPIC_CHARGE_CREATED@ {
        Some(InboundRoute::ChargeCreated)
    } else if canonical == TOPIC_PAYMENT_RECEIVED@ {
        Some(InboundRoute::PaymentReceived)
    } else if canonical == TOPIC_PAYMENT_REFUNDED@ {
        Some(InboundRoute::PaymentRefunded)
    } else {
        None
    }
}

/// Bus consumer with the operator's topic remap.
#[derive(Debug, Default)]
pub struct Consumer {
    remap: TopicMap,
}

impl View for Consumer {
    type V = Map<Seq<char>, Seq<char>>;

    /// The consumer's remap.
    closed spec fn view(&self) -> Map<Seq<char>, Seq<char>> {
        self.remap@
    }
}

impl Consumer {
    /// A consumer with no remap (canonical topics only).
    pub fn new() -> (c: Self)
        ensures
            c@ == Map::<Seq<char>, Seq<char>>::empty(),
    {
        Consumer { remap: TopicMap::new() }
    }

    /// A consumer with the given remap.
    pub fn with_remap(remap: TopicMap) -> (c: Self)
        ensures
            c@ == remap@,
    {
        Consumer { remap }
    }

    /// The canonical name of an inbound topic under this consumer's remap.
    pub fn canonical_topic(&self, topic: &str) -> (s: String)
        ensures
            s@ == remapped(self@, topic@),
    {
        remap_topic(&self.remap, topic).to_string()
    }

    /// Canonicalise and route an inbound topic: the canonical topic with
    /// its route, or `UnknownTopic` with the canonical topic.
    pub fn route(&self, topic: &str) -> (r: Result<(String, InboundRoute), DispatchError>)
        ensures
            match route_of(remapped(self@, topic@)) {
                Some(route) => r matches Ok((c, rt)) && c@ == remapped(self@, topic@) && rt == route,
                None => r matches Err(DispatchError::UnknownTopic(c)) && c@ == remapped(self@, topic@),
            },
    {
        let canonical = self.canonical_topic(topic);
        let c = canonical.as_str();
        if str_eq(c, TOPIC_CHARGE_CREATED) {
            Ok((canonical, InboundRoute::ChargeCreated))
        } else if str_eq(c, TOPIC_PAYMENT_RECEIVED) {
            Ok((canonical, InboundRoute::PaymentReceived))
        } else if str_eq(c, TOPIC_PAYMENT_REFUNDED) {
            Ok((canonical, InboundRoute::PaymentRefunded))
        } else {
            Err(DispatchError::UnknownTopic(canonical))
        }
    }
}

/// One line of a `charge.created` payload.
#[derive(Debug, Clone, PartialEq, Eq)]
pub struct ChargeLine {
    /// Description.
    pub description: String,
    /// Quantity.
    pub quantity: Money,
    /// Unit price.
    pub unit_price: Money,
    /// Tax category name, when given.
    pub tax_category: Option<String>,
}

/// `fin.billing.charge.created` payload.
#[derive(Debug, Clone, PartialEq, Eq)]
pub struct ChargeCreatedPayload {
    /// Customer id.
    pub customer_id: String,
    /// Currency code.
    pub currency: String,
    /// Seller jurisdiction, when given.
    pub seller_jurisdiction: Option<String>,
    /// Lines.
    pub lines: Vec<ChargeLine>,
    /// Due date, when given.
    pub due_date: Option<UtcInstant>,
    /// Caller-side dedupe key; the event id when absent.
    pub idempotency_key: Option<String>,
}

/// `fin.billing.payment.received` payload.
#[derive(Debug, Clone, PartialEq, Eq)]
pub struct PaymentReceivedPayload {
    /// Invoice reference (bare id or `inv://invoice/<id>`).
    pub invoice_ref: Option<String>,
    /// Amount received.
    pub amount: Money,
    /// When fin received it.
    pub received_at: UtcInstant,
    /// Caller-side dedupe key; the event id when absent.
    pub idempotency_key: Option<String>,
}

/// `fin.billing.payment.refunded` payload.
#[derive(Debug, Clone, PartialEq, Eq)]
pub struct PaymentRefundedPayload {
    /// Invoice reference (bare id or `inv://invoice/<id>`).
    pub invoice_ref: String,
    /// Amount refunded.
    pub amount: Money,
    /// Free-form reason.
    pub reason: Option<String>,
    /// Refund id from fin; the event id when absent.
    pub refund_id: Option<String>,
}

/// The id inside an invoice reference: the reference without its
/// `inv://invoice/` prefix, or the reference itself.
pub open spec fn invoice_ref_id(s: Seq<char>) -> Seq<char> {
    match strip_prefix_spec(s, "inv://invoice/"@) {
        Some(rest) => rest,
        None => s,
    }
}

/// Strip the `inv://invoice/` prefix from an invoice reference.
pub fn parse_invoice_ref(s: &str) -> (r: String)
    ensures
        r@ == invoice_ref_id(s@),
{
    match strip_prefix(s, "inv://invoice/") {
        Some(rest) => rest,
        None => s.to_string(),
    }
}

/// The value given, or the fallback text.
pub open spec fn text_or(o: Option<String>, fallback: Seq<char>) -> Seq<char> {
    match o {
        Some(s) => s@,
        None => fallback,
    }
}

fn string_or(o: &Option<String>, fallback: &str) -> (r: String)
    ensures
        r@ == text_or(*o, fallback@),
{
    match o {
        Some(s) => s.clone(),
        None => fallback.to_string(),
    }
}

/// The actor recorded for commands the consumer runs: the bus, from `fin`.
fn fin() -> (a: Actor)
    ensures
        a matches Actor::Bus { source } && source@ == "fin"@,
{
    Actor::Bus { source: "fin".to_string() }
}

/// The draft input a `charge.created` event makes: the payload's fields,
/// the default jurisdiction and tax category where absent, the event id
/// as idempotency key where the payload has none, actor `fin` on the bus.
pub fn charge_created_input(event_id: &str, p: &ChargeCreatedPayload) -> (d: DraftInvoiceInput)
    ensures
        d.customer_id@ == p.customer_id@,
        d.currency@ == p.currency@,
        d.seller_jurisdiction@ == text_or(p.seller_jurisdiction, DEFAULT_SELLER_JURISDICTION@),
        d.lines@.len() == p.lines@.len(),
        forall|i: int|
            0 <= i < p.lines@.len() ==> {
                &&& (#[trigger] d.lines@[i]).description@ == p.lines@[i].description@
                &&& d.lines@[i].quantity == p.lines@[i].quantity
                &&& d.lines@[i].unit_price == p.lines@[i].unit_price
                &&& d.lines@[i].tax_category@ == text_or(
                    p.lines@[i].tax_category,
                    DEFAULT_TAX_CATEGORY@,
                )
            },
        d.idempotency_key matches Some(k) && k@ == text_or(p.idempotency_key, event_id@),
        d.actor matches Actor::Bus { source } && source@ == "fin"@,
        d.channel == Channel::Bus,
        d.due_at == p.due_date,
        d.template_path is None,
        d.schedule_id is None,
{
    let mut lines: Vec<DraftLineInput> = Vec::new();
    let mut i: usize = 0;
    while i < p.lines.len()
        invariant
            i <= p.lines@.len(),
            lines@.len() == i,
            forall|j: int|
                0 <= j < i ==> {
                    &&& (#[trigger] lines@[j]).description@ == p.lines@[j].description@
                    &&& lines@[j].quantity == p.lines@[j].quantity
                    &&& lines@[j].unit_price == p.lines@[j].unit_price
                    &&& lines@[j].tax_category@ == text_or(
                        p.lines@[j].tax_category,
                        DEFAULT_TAX_CATEGORY@,
                    )
                },
        decreases p.lines.len() - i,
    {
        let l = &p.lines[i];
        lines.push(
            DraftLineInput {
                description: l.description.clone(),
                quantity: l.quantity,
                unit_price: l.unit_price,
                tax_category: string_or(&l.tax_category, DEFAULT_TAX_CATEGORY),
            },
        );
        i = i + 1;
    }
    DraftInvoiceInput {
        customer_id: p.customer_id.clone(),
        seller_jurisdiction: string_or(&p.seller_jurisdiction, DEFAULT_SELLER_JURISDICTION),
        currency: p.currency.clone(),
        lines,
        idempotency_key: Some(string_or(&p.idempotency_key, event_id)),
        actor: fin(),
        channel: Channel::Bus,
        due_at: p.due_date,
        template_path: None,
        schedule_id: None,
    }
}

/// The payment input a `payment.received` event makes; refused when the
/// payload names no invoice.
pub fn payment_received_input(topic: &str, event_id: &str, p: &PaymentReceivedPayload) -> (r: Result<
    MarkPaidInput,
    DispatchError,
>)
    ensures
        match p.invoice_ref {
            None => r matches Err(DispatchError::InvalidPayload { topic: t, message: m }) && t@
                == topic@ && m@ == "payment.received without invoice_ref is not routable at v1"@,
            Some(iref) => r matches Ok(m) && {
                &&& m.invoice_id@ == invoice_ref_id(iref@)
                &&& m.amount == p.amount
                &&& m.received_at == Some(p.received_at)
                &&& m.idempotency_key matches Some(k) && k@ == text_or(p.idempotency_key, event_id@)
                &&& m.bus_event_id matches Some(b) && b@ == event_id@
                &&& m.actor matches Actor::Bus { source } && source@ == "fin"@
                &&& m.channel == Channel::Bus
            },
        },
{
    match &p.invoice_ref {
        None => Err(
            DispatchError::InvalidPayload {
                topic: topic.to_string(),
                message: "payment.received without invoice_ref is not routable at v1".to_string(),
            },
        ),
        Some(iref) => Ok(
            MarkPaidInput {
                invoice_id: parse_invoice_ref(iref.as_str()),
                amount: p.amount,
                received_at: Some(p.received_at),
                idempotency_key: Some(string_or(&p.idempotency_key, event_id)),
                bus_event_id: Some(event_id.to_string()),
                actor: fin(),
                channel: Channel::Bus,
            },
        ),
    }
}

/// The credit-note input a `payment.refunded` event makes: the refund id
/// (or the event id) as refund reference, the event id as idempotency key.
pub fn payment_refunded_input(event_id: &str, p: &PaymentRefundedPayload) -> (c: CreateCreditNoteInput)
    ensures
        c.invoice_id@ == invoice_ref_id(p.invoice_ref@),
        c.amount == p.amount,
        match (c.reason, p.reason) {
            (Some(a), Some(b)) => a@ == b@,
            (None, None) => true,
            _ => false,
        },
        c.refund_ref matches Some(k) && k@ == text_or(p.refund_id, event_id@),
        c.idempotency_key matches Some(k) && k@ == event_id@,
        c.actor matches Actor::Bus { source } && source@ == "fin"@,
        c.channel == Channel::Bus,
{
    CreateCreditNoteInput {
        invoice_id: parse_invoice_ref(p.invoice_ref.as_str()),
        amount: p.amount,
        reason: match &p.reason {
            Some(r) => Some(r.clone()),
            None => None,
        },
        refund_ref: Some(string_or(&p.refund_id, event_id)),
        idempotency_key: Some(event_id.to_string()),
        actor: fin(),
        channel: Channel::Bus,
    }
}

/// The error a command failure becomes, naming the command.
pub fn command_failed(command: &str, source: CoreError) -> (e: DispatchError)
    ensures
        e matches DispatchError::Command { command: c, source: s } && c@ == command@ && s == source,
{
    DispatchError::Command { command: command.to_string(), source }
}

} // verus!
