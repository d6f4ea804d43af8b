//! Recording a payment: input validation and the paid-versus-partial
//! verdict the lifecycle returns.

use vstd::prelude::*;
use crate::commands::ctx::{Actor, Channel, UtcInstant};
use crate::commands::error::CoreError;
use crate::domain::{decimal_display, InvoiceState, Money};
use crate::text::{push_str_chars, string_from_chars};

verus! {

/// Input of the mark-paid command.
#[derive(Debug, Clone, PartialEq, Eq)]
pub struct MarkPaidInput {
    /// Invoice receiving the payment.
    pub invoice_id: String,
    /// Payment amount; must be positive.
    pub amount: Money,
    /// When the payment was received (the clock's now when absent).
    pub received_at: Option<UtcInstant>,
    /// Caller-supplied dedupe key.
    pub idempotency_key: Option<String>,
    /// Inbound bus event id, when a bus event triggered the payment.
    pub bus_event_id: Option<String>,
    /// Who triggered.
    pub actor: Actor,
    /// Channel.
    pub channel: Channel,
}

/// `"{what} amount must be > 0, got {amount}"` when `amount <= 0`.
pub open spec fn positive_amount_outcome(what: Seq<char>, amount: Money, r: Result<(), CoreError>) -> bool {
    if amount.mantissa <= 0 {
        r matches Err(CoreError::Validation(m)) && m@ == what + " amount must be > 0, got "@
            + decimal_display(amount.mantissa, amount.scale)
    } else {
        r is Ok
    }
}

/// Reject an amount that is not positive, naming it `what`.
pub fn require_positive(what: &str, amount: Money) -> (r: Result<(), CoreError>)
    requires
        amount.wf(),
    ensures
        positive_amount_outcome(what@, amount, r),
{
    if amount.is_positive() {
        Ok(())
    } else {
        let mut v: Vec<char> = Vec::new();
        push_str_chars(&mut v, what);
        push_str_chars(&mut v, " amount must be > 0, got ");
        let t = amount.to_text();
        push_str_chars(&mut v, t.as_str());
        Err(CoreError::Validation(string_from_chars(&v)))
    }
}

impl MarkPaidInput {
    /// The payment amount must be positive.
    pub fn validate(&self) -> (r: Result<(), CoreError>)
        requires
            self.amount.wf(),
        ensures
            positive_amount_outcome("payment"@, self.amount, r),
    {
        require_positive("payment", self.amount)
    }
}

/// A payment settles the invoice exactly when the lifecycle moved it to
/// `Paid`; the payment time is then recorded as `paid_at`.
pub fn settles_invoice(to_state: InvoiceState) -> (r: bool)
    ensures
        r == (to_state == InvoiceState::Paid),
{
    to_state == InvoiceState::Paid
}

/// When a payment counts as received: the payload's time, or the clock's.
pub fn payment_time(received_at: Option<UtcInstant>, now: UtcInstant) -> (t: UtcInstant)
    ensures
        t == match received_at {
            Some(r) => r,
            None => now,
        },
{
    match received_at {
        Some(r) => r,
        None => now,
    }
}

} // verus!
