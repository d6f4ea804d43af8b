//! The command core's verified parts: caller identity and channel, the
//! error taxonomy, input validation and the per-command decision logic.

pub mod ctx;
pub mod draft;
pub mod emitted;
pub mod error;
pub mod events;
pub mod issue;
pub mod lifecycle;
pub mod number;
pub mod overdue;
pub mod pay;
pub mod publish;
pub mod reminder;
pub mod credit;
pub mod schedule;
pub mod send;
