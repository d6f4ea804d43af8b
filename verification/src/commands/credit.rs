//! Credit notes: input validation.

use vstd::prelude::*;
use crate::commands::ctx::{Actor, Channel};
use crate::commands::error::CoreError;
use crate::commands::pay::{positive_amount_outcome, require_positive};
use crate::domain::Money;

verus! {

/// Input of the create-credit-note command.
#[derive(Debug, Clone, PartialEq, Eq)]
pub struct CreateCreditNoteInput {
    /// Invoice being credited.
    pub invoice_id: String,
    /// Credited amount; must be positive.
    pub amount: Money,
    /// Free-form reason.
    pub reason: Option<String>,
    /// Upstream refund reference.
    pub refund_ref: Option<String>,
    /// Caller-supplied dedupe key.
    pub idempotency_key: Option<String>,
    /// Who triggered.
    pub actor: Actor,
    /// Channel.
    pub channel: Channel,
}

impl CreateCreditNoteInput {
    /// The credited amount must be positive.
    pub fn validate(&self) -> (r: Result<(), CoreError>)
        requires
            self.amount.wf(),
        ensures
            positive_amount_outcome("credit-note"@, self.amount, r),
    {
        require_positive("credit-note", self.amount)
    }
}

} // verus!
