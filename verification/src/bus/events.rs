//! Topic names and payload shapes of every domain event.

use vstd::prelude::*;
use crate::commands::ctx::UtcInstant;
use crate::domain::CalendarDate;

verus! {

/// `inv.billing.invoice.drafted`
pub const TOPIC_INVOICE_DRAFTED: &'static str = "inv.billing.invoice.drafted";
/// `inv.billing.invoice.issued`
pub const TOPIC_INVOICE_ISSUED: &'static str = "inv.billing.invoice.issued";
/// `inv.billing.invoice.sent`
pub const TOPIC_INVOICE_SENT: &'static str = "inv.billing.invoice.sent";
/// `inv.billing.invoice.viewed`
pub const TOPIC_INVOICE_VIEWED: &'static str = "inv.billing.invoice.viewed";
/// `inv.billing.invoice.paid`
pub const TOPIC_INVOICE_PAID: &'static str = "inv.billing.invoice.paid";
/// `inv.billing.invoice.partially_paid`
pub const TOPIC_INVOICE_PARTIALLY_PAID: &'static str = "inv.billing.invoice.partially_paid";
/// `inv.billing.invoice.overdue`
pub const TOPIC_INVOICE_OVERDUE: &'static str = "inv.billing.invoice.overdue";
/// `inv.billing.invoice.voided`
pub const TOPIC_INVOICE_VOIDED: &'static str = "inv.billing.invoice.voided";
/// `inv.billing.creditnote.drafted`
pub const TOPIC_CREDITNOTE_DRAFTED: &'static str = "inv.billing.creditnote.drafted";
/// `inv.billing.creditnote.issued`
pub const TOPIC_CREDITNOTE_ISSUED: &'static str = "inv.billing.creditnote.issued";
/// `inv.billing.reminder.scheduled`
pub const TOPIC_REMINDER_SCHEDULED: &'static str = "inv.billing.reminder.scheduled";
/// `inv.billing.reminder.sent`
pub const TOPIC_REMINDER_SENT: &'static str = "inv.billing.reminder.sent";
/// `inv.billing.reminder.cancelled`
pub const TOPIC_REMINDER_CANCELLED: &'static str = "inv.billing.reminder.cancelled";
/// `inv.billing.schedule.created`
pub const TOPIC_SCHEDULE_CREATED: &'static str = "inv.billing.schedule.created";
/// `inv.billing.schedule.paused`
pub const TOPIC_SCHEDULE_PAUSED: &'static str = "inv.billing.schedule.paused";
/// `inv.billing.schedule.cancelled`
pub const TOPIC_SCHEDULE_CANCELLED: &'static str = "inv.billing.schedule.cancelled";
/// `inv.billing.invoice.proposed` (lifecycle mechanic event).
pub const TOPIC_INVOICE_PROPOSED: &'static str = "inv.billing.invoice.proposed";
/// `inv.billing.invoice.transitioned` (lifecycle mechanic event).
pub const TOPIC_INVOICE_TRANSITIONED: &'static str = "inv.billing.invoice.transitioned";
/// `inv.billing.invoice.entered` (lifecycle mechanic event).
pub const TOPIC_INVOICE_ENTERED: &'static str = "inv.billing.invoice.entered";
/// `inv.billing.creditnote.proposed` (lifecycle mechanic event).
pub const TOPIC_CREDITNOTE_PROPOSED: &'static str = "inv.billing.creditnote.proposed";
/// `inv.billing.creditnote.transitioned` (lifecycle mechanic event).
pub const TOPIC_CREDITNOTE_TRANSITIONED: &'static str = "inv.billing.creditnote.transitioned";
/// `inv.billing.creditnote.entered` (lifecycle mechanic event).
pub const TOPIC_CREDITNOTE_ENTERED: &'static str = "inv.billing.creditnote.entered";

/// Payload for [`TOPIC_INVOICE_DRAFTED`].
#[derive(Debug, Clone, PartialEq, Eq)]
pub struct InvoiceDrafted {
    /// Newly-created invoice id.
    pub invoice_id: String,
    /// Bill-to customer id.
    pub customer_id: String,
    /// Invoice currency (ISO 4217).
    pub currency: String,
    /// Pre-tax subtotal (decimal text).
    pub subtotal: String,
    /// Total (= subtotal at draft time).
    pub total: String,
    /// Audit string for the triggering actor.
    pub actor: String,
    /// Channel the command came in on.
    pub channel: String,
}

/// Payload for [`TOPIC_INVOICE_ISSUED`].
#[derive(Debug, Clone, PartialEq, Eq)]
pub struct InvoiceIssued {
    /// Invoice id.
    pub invoice_id: String,
    /// Assigned invoice number (e.g. `INV-2026-0001`).
    pub number: Option<String>,
    /// Bill-to customer id.
    pub customer_id: String,
    /// Currency.
    pub currency: String,
    /// Subtotal pre-tax.
    pub subtotal: String,
    /// Tax total.
    pub tax_total: String,
    /// Total = subtotal + tax.
    pub total: String,
    /// Operator-review flag (US nexus undetermined).
    pub nexus_review: bool,
    /// Audit actor.
    pub actor: String,
    /// Channel.
    pub channel: String,
}

/// Payload for [`TOPIC_INVOICE_SENT`].
#[derive(Debug, Clone, PartialEq, Eq)]
pub struct InvoiceSent {
    /// Invoice id.
    pub invoice_id: String,
    /// Audit actor.
    pub actor: String,
    /// Channel.
    pub channel: String,
}

/// Payload for [`TOPIC_INVOICE_VIEWED`].
#[derive(Debug, Clone, PartialEq, Eq)]
pub struct InvoiceViewed {
    /// Invoice id.
    pub invoice_id: String,
    /// Audit actor.
    pub actor: String,
    /// Channel.
    pub channel: String,
}

/// Payload for [`TOPIC_INVOICE_PAID`].
#[derive(Debug, Clone, PartialEq, Eq)]
pub struct InvoicePaid {
    /// Invoice id.
    pub invoice_id: String,
    /// Amount paid in this transaction.
    pub amount_paid: String,
    /// Cumulative amount paid so far.
    pub cumulative_paid: String,
    /// Invoice total.
    pub total: String,
    /// Audit actor.
    pub actor: String,
    /// Channel.
    pub channel: String,
}

/// Payload for [`TOPIC_INVOICE_PARTIALLY_PAID`].
#[derive(Debug, Clone, PartialEq, Eq)]
pub struct InvoicePartiallyPaid {
    /// Invoice id.
    pub invoice_id: String,
    /// Amount paid in this transaction.
    pub amount_paid: String,
    /// Cumulative amount paid so far.
    pub cumulative_paid: String,
    /// Invoice total.
    pub total: String,
    /// Audit actor.
    pub actor: String,
    /// Channel.
    pub channel: String,
}

/// Payload for [`TOPIC_INVOICE_OVERDUE`].
#[derive(Debug, Clone, PartialEq, Eq)]
pub struct InvoiceOverdue {
    /// Invoice id.
    pub invoice_id: String,
    /// Due date the invoice missed.
    pub due_at: UtcInstant,
    /// Audit actor.
    pub actor: String,
}

/// Payload for [`TOPIC_INVOICE_VOIDED`].
#[derive(Debug, Clone, PartialEq, Eq)]
pub struct InvoiceVoided {
    /// Invoice id.
    pub invoice_id: String,
    /// Optional reason.
    pub reason: Option<String>,
    /// Audit actor.
    pub actor: String,
    /// Channel.
    pub channel: String,
}

/// Payload for [`TOPIC_CREDITNOTE_DRAFTED`].
#[derive(Debug, Clone, PartialEq, Eq)]
pub struct CreditNoteDrafted {
    /// Credit-note id.
    pub credit_note_id: String,
    /// Invoice the note credits.
    pub invoice_id: String,
    /// Amount.
    pub amount: String,
    /// Currency.
    pub currency: String,
    /// Inbound refund event id, if auto-created.
    pub refund_ref: Option<String>,
    /// Audit actor.
    pub actor: String,
    /// Channel.
    pub channel: String,
}

/// Payload for [`TOPIC_CREDITNOTE_ISSUED`].
#[derive(Debug, Clone, PartialEq, Eq)]
pub struct CreditNoteIssued {
    /// Credit-note id.
    pub credit_note_id: String,
    /// Assigned number (`CN-YYYY-NNNN`).
    pub number: Option<String>,
    /// Invoice.
    pub invoice_id: String,
    /// Amount.
    pub amount: String,
    /// Currency.
    pub currency: String,
    /// Audit actor.
    pub actor: String,
    /// Channel.
    pub channel: String,
}

/// Payload for [`TOPIC_REMINDER_SCHEDULED`].
#[derive(Debug, Clone, PartialEq, Eq)]
pub struct ReminderScheduled {
    /// Reminder id.
    pub reminder_id: String,
    /// Invoice the reminder targets.
    pub invoice_id: String,
    /// When the reminder is scheduled to fire.
    pub due_at: UtcInstant,
    /// Reminder channel.
    pub channel: String,
    /// Audit actor.
    pub actor: String,
}

/// Payload for [`TOPIC_REMINDER_SENT`].
#[derive(Debug, Clone, PartialEq, Eq)]
pub struct ReminderSent {
    /// Reminder id.
    pub reminder_id: String,
    /// Invoice.
    pub invoice_id: String,
    /// Outbound channel actually used.
    pub channel: String,
    /// When the send completed.
    pub sent_at: UtcInstant,
}

/// Payload for [`TOPIC_REMINDER_CANCELLED`].
#[derive(Debug, Clone, PartialEq, Eq)]
pub struct ReminderCancelled {
    /// Reminder id.
    pub reminder_id: String,
    /// Invoice.
    pub invoice_id: String,
    /// Optional reason.
    pub reason: Option<String>,
    /// Audit actor.
    pub actor: String,
}

/// Payload for [`TOPIC_SCHEDULE_CREATED`].
#[derive(Debug, Clone, PartialEq, Eq)]
pub struct ScheduleCreated {
    /// Schedule id.
    pub schedule_id: String,
    /// Bill-to customer id.
    pub customer_id: String,
    /// Cadence (`monthly`, ...).
    pub cadence: String,
    /// Currency.
    pub currency: String,
    /// Auto-issue flag.
    pub auto_issue: bool,
    /// First-run date.
    pub start_date: CalendarDate,
    /// Audit actor.
    pub actor: String,
    /// Channel.
    pub channel: String,
}

/// Payload for [`TOPIC_SCHEDULE_PAUSED`].
#[derive(Debug, Clone, PartialEq, Eq)]
pub struct SchedulePaused {
    /// Schedule id.
    pub schedule_id: String,
    /// New state (lower-cased).
    pub state: String,
    /// Audit actor.
    pub actor: String,
    /// Channel.
    pub channel: String,
}

/// Payload for [`TOPIC_SCHEDULE_CANCELLED`].
#[derive(Debug, Clone, PartialEq, Eq)]
pub struct ScheduleCancelled {
    /// Schedule id.
    pub schedule_id: String,
    /// New state.
    pub state: String,
    /// Optional reason (`end_date_reached`, operator note, ...).
    pub reason: Option<String>,
}

} // verus!
