//! Error type surfaced by every command.

use vstd::prelude::*;
use crate::domain::{invoice_state_str, invoice_state_text, InvoiceState};
use crate::text::concat_str;

verus! {

/// The lifecycle rejected a requested transition.
#[derive(Debug, Clone, PartialEq, Eq)]
pub enum TransitionError {
    /// `event` is not allowed from `state`.
    Illegal {
        /// State the entity was in.
        state: InvoiceState,
        /// Event tag that was refused (`issue`, `send`, ...).
        event: String,
    },
}

/// Errors surfaced by every command.
#[derive(Debug, Clone, PartialEq, Eq)]
pub enum CoreError {
    /// Input failed validation up front.
    Validation(String),
    /// Idempotency-key collision with an existing record of another shape.
    Idempotency(String),
    /// The lifecycle rejected the requested transition.
    FsmTransition(TransitionError),
    /// Underlying store error (its message).
    Repo(String),
    /// Tax resolver rejected an input (its message).
    Tax(String),
    /// HTML render failed (its message).
    Render(String),
    /// PDF render failed (its message).
    Pdf(String),
    /// The caller asked us to act on a record that doesn't exist.
    NotFound(String),
    /// Destination scheme recognised but not implemented.
    NotImplemented(String),
}


/// The message a transition error displays.
pub open spec fn transition_message(e: TransitionError) -> Seq<char> {
    match e {
        TransitionError::Illegal { state, event } => "event `"@ + event@ + "` is not allowed from state `"@
            + invoice_state_text(state) + "`"@,
    }
}

/// The message a command error displays.
pub open spec fn core_message(e: CoreError) -> Seq<char> {
    match e {
        CoreError::Validation(m) => "validation error: "@ + m@,
        CoreError::Idempotency(m) => "idempotency conflict: "@ + m@,
        CoreError::FsmTransition(t) => "fsm transition error: "@ + transition_message(t),
        CoreError::Repo(m) => "repository error: "@ + m@,
        CoreError::Tax(m) => "tax error: "@ + m@,
        CoreError::Render(m) => "render error: "@ + m@,
        CoreError::Pdf(m) => "pdf render error: "@ + m@,
        CoreError::NotFound(m) => "not found: "@ + m@,
        CoreError::NotImplemented(m) => "not implemented: "@ + m@,
    }
}

impl TransitionError {
    /// Human-readable message.
    pub fn message(&self) -> (s: String)
        ensures
            s@ == transition_message(*self),
    {
        match self {
            TransitionError::Illegal { state, event } => {
                let a = concat_str("event `", event.as_str());
                let b = concat_str(a.as_str(), "` is not allowed from state `");
                let c = concat_str(b.as_str(), invoice_state_str(*state));
                concat_str(c.as_str(), "`")
            },
        }
    }
}

impl CoreError {
    /// Human-readable message (what the error displays).
    pub fn message(&self) -> (s: String)
        ensures
            s@ == core_message(*self),
    {
        match self {
            CoreError::Validation(m) => concat_str("validation error: ", m.as_str()),
            CoreError::Idempotency(m) => concat_str("idempotency conflict: ", m.as_str()),
            CoreError::FsmTransition(t) => {
                let tm = t.message();
                concat_str("fsm transition error: ", tm.as_str())
            },
            CoreError::Repo(m) => concat_str("repository error: ", m.as_str()),
            CoreError::Tax(m) => concat_str("tax error: ", m.as_str()),
            CoreError::Render(m) => concat_str("render error: ", m.as_str()),
            CoreError::Pdf(m) => concat_str("pdf render error: ", m.as_str()),
            CoreError::NotFound(m) => concat_str("not found: ", m.as_str()),
            CoreError::NotImplemented(m) => concat_str("not implemented: ", m.as_str()),
        }
    }
}

} // verus!
