//! `/v1/reminders` request shapes.

use vstd::prelude::*;
use crate::api::handlers::invoices::{filter_text, non_empty};

verus! {

/// Query of `GET /v1/reminders`.
#[derive(Debug, Default, Clone, PartialEq, Eq)]
pub struct ListQuery {
    /// Restrict the reminders listed.
    pub invoice_id: Option<String>,
}

impl ListQuery {
    /// The requested filter, with an empty value read as absent.
    pub fn filter(&self) -> (r: Option<String>)
        ensures
            match filter_text(self.invoice_id) {
                Some(t) => r matches Some(s) && s@ == t,
                None => r is None,
            },
    {
        non_empty(&self.invoice_id)
    }
}

} // verus!
