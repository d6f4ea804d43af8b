//! Inputs of the issue, void and credit-note-issue commands. They accept
//! whatever the lifecycle accepts, so validation passes every input.

use vstd::prelude::*;
use crate::commands::ctx::{Actor, Channel};
use crate::commands::error::CoreError;

verus! {

/// Input of the issue command.
#[derive(Debug, Clone, PartialEq, Eq)]
pub struct IssueInvoiceInput {
    /// Invoice to issue.
    pub invoice_id: String,
    /// Caller-supplied dedupe key.
    pub idempotency_key: Option<String>,
    /// Who triggered.
    pub actor: Actor,
    /// Channel.
    pub channel: Channel,
}

impl IssueInvoiceInput {
    /// Every input is valid; the lifecycle decides.
    pub fn validate(&self) -> (r: Result<(), CoreError>)
        ensures
            r is Ok,
    {
        Ok(())
    }
}

/// Input of the void command.
#[derive(Debug, Clone, PartialEq, Eq)]
pub struct VoidInvoiceInput {
    /// Invoice to void.
    pub invoice_id: String,
    /// Reason recorded on the history row.
    pub reason: Option<String>,
    /// Caller-supplied dedupe key.
    pub idempotency_key: Option<String>,
    /// Who triggered.
    pub actor: Actor,
    /// Channel.
    pub channel: Channel,
}

impl VoidInvoiceInput {
    /// Every input is valid; the lifecycle decides.
    pub fn validate(&self) -> (r: Result<(), CoreError>)
        ensures
            r is Ok,
    {
        Ok(())
    }
}

/// Input of the credit-note issue command.
#[derive(Debug, Clone, PartialEq, Eq)]
pub struct IssueCreditNoteInput {
    /// Credit note to issue.
    pub credit_note_id: String,
    /// Caller-supplied dedupe key.
    pub idempotency_key: Option<String>,
    /// Who triggered.
    pub actor: Actor,
    /// Channel.
    pub channel: Channel,
}

impl IssueCreditNoteInput {
    /// Every input is valid; the lifecycle decides.
    pub fn validate(&self) -> (r: Result<(), CoreError>)
        ensures
            r is Ok,
    {
        Ok(())
    }
}

} // verus!
