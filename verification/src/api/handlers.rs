//! Request shapes and the request-side decisions of the HTTP handlers.

pub mod credit_notes;
pub mod customers;
pub mod invoices;
pub mod reminders;
pub mod schedules;
pub mod view;
