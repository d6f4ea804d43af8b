//! The overdue ticker's selection: which invoices are past due.

use vstd::prelude::*;
use crate::commands::ctx::{instant_before, UtcInstant};
use crate::bus::outbox::same_opt_text;
use crate::domain::{decimal_display, invoice_state_str, invoice_state_text, InvoiceState, Money};

verus! {

/// States the overdue ticker scans: issued, sent or viewed.
pub open spec fn awaiting_payment(s: InvoiceState) -> bool {
    s == InvoiceState::Issued || s == InvoiceState::Sent || s == InvoiceState::Viewed
}

/// Overdue: awaiting payment and due strictly before `now`.
pub open spec fn overdue_spec(state: InvoiceState, due_at: Option<UtcInstant>, now: UtcInstant) -> bool {
    awaiting_payment(state) && match due_at {
        Some(d) => instant_before(d, now),
        None => false,
    }
}

/// An invoice is overdue when it is issued, sent or viewed and its due
/// date lies before `now`; one without a due date never is.
pub fn is_overdue(state: InvoiceState, due_at: Option<UtcInstant>, now: UtcInstant) -> (r: bool)
    ensures
        r == overdue_spec(state, due_at, now),
{
    let waiting = match state {
        InvoiceState::Issued | InvoiceState::Sent | InvoiceState::Viewed => true,
        _ => false,
    };
    waiting && match due_at {
        Some(d) => d.is_before(&now),
        None => false,
    }
}

/// The overdue rule over the clock's (seconds, nanoseconds) reading: only
/// an issued, sent or viewed invoice with a due date can be overdue; a due
/// instant whose second is later than `now`'s is never overdue, nor is one
/// due exactly at `now`; an earlier second, or the same second with fewer
/// nanoseconds, makes a waiting invoice overdue; and once overdue it stays
/// overdue at every later reading.
pub proof fn overdue_law(state: InvoiceState, due: UtcInstant, now: UtcInstant, later: UtcInstant)
    ensures
        !overdue_spec(state, None, now),
        overdue_spec(state, Some(due), now) ==> (state == InvoiceState::Issued || state
            == InvoiceState::Sent || state == InvoiceState::Viewed),
        due.secs > now.secs ==> !overdue_spec(state, Some(due), now),
        due.secs == now.secs && due.nanos >= now.nanos ==> !overdue_spec(state, Some(due), now),
        !overdue_spec(state, Some(now), now),
        (state == InvoiceState::Issued || state == InvoiceState::Sent || state
            == InvoiceState::Viewed) ==> {
            &&& due.secs < now.secs ==> overdue_spec(state, Some(due), now)
            &&& due.secs == now.secs && due.nanos < now.nanos ==> overdue_spec(state, Some(due), now)
        },
        overdue_spec(state, Some(due), now) && (now.secs < later.secs || (now.secs == later.secs
            && now.nanos <= later.nanos)) ==> overdue_spec(state, Some(due), later),
{
}

/// The states the ticker scans, in scan order.
pub fn awaiting_payment_states() -> (v: Vec<InvoiceState>)
    ensures
        v@ == seq![
            InvoiceState::Issued,
            InvoiceState::Sent,
            InvoiceState::Viewed,
        ],
{
    let mut v: Vec<InvoiceState> = Vec::new();
    v.push(InvoiceState::Issued);
    v.push(InvoiceState::Sent);
    v.push(InvoiceState::Viewed);
    v
}

/// Positions of the overdue candidates, in order: exactly the `i` whose
/// `(state, due_at)` is overdue at `now`.
pub fn overdue_positions(candidates: &[(InvoiceState, Option<UtcInstant>)], now: UtcInstant) -> (out: Vec<usize>)
    ensures
        forall|k: int| 0 <= k < out@.len() ==> #[trigger] out@[k] < candidates@.len() && overdue_spec(
            candidates@[out@[k] as int].0,
            candidates@[out@[k] as int].1,
            now,
        ),
        forall|k: int, l: int| 0 <= k < l < out@.len() ==> out@[k] < out@[l],
        forall|i: int|
            0 <= i < candidates@.len() && overdue_spec(#[trigger] candidates@[i].0, candidates@[i].1, now)
                ==> out@.contains(i as usize),
{
    let mut out: Vec<usize> = Vec::new();
    let mut i: usize = 0;
    while i < candidates.len()
        invariant
            i <= candidates@.len(),
            forall|k: int| 0 <= k < out@.len() ==> #[trigger] out@[k] < i && overdue_spec(
                candidates@[out@[k] as int].0,
                candidates@[out@[k] as int].1,
                now,
            ),
            forall|k: int, l: int| 0 <= k < l < out@.len() ==> out@[k] < out@[l],
            forall|j: int|
                0 <= j < i && overdue_spec(#[trigger] candidates@[j].0, candidates@[j].1, now)
                    ==> out@.contains(j as usize),
        decreases candidates.len() - i,
    {
        let (st, due) = candidates[i];
        let ghost old_out = out@;
        if is_overdue(st, due, now) {
            out.push(i);
            assert(out@[out@.len() - 1] == i);
        }
        assert forall|j: int|
            0 <= j < i + 1 && overdue_spec(#[trigger] candidates@[j].0, candidates@[j].1, now)
                implies out@.contains(j as usize) by {
            if j == i {
                assert(out@[out@.len() - 1] == i);
            } else {
                assert(old_out.contains(j as usize));
                let idx = choose|idx: int| 0 <= idx < old_out.len() && old_out[idx] == j as usize;
                assert(out@[idx] == old_out[idx]);
            }
        }
        i = i + 1;
    }
    out
}


/// Payload of `invoice.overdue` as the ticker publishes it.
#[derive(Debug, Clone, PartialEq, Eq)]
pub struct OverdueEventBody {
    /// Invoice id.
    pub invoice_id: String,
    /// Customer billed.
    pub customer_id: String,
    /// Invoice number.
    pub number: Option<String>,
    /// Due date.
    pub due_at: Option<UtcInstant>,
    /// Invoice total (display text).
    pub total: String,
    /// Amount paid so far (display text).
    pub amount_paid: String,
    /// Currency code.
    pub currency: String,
    /// Current state (wire name).
    pub state: String,
}

/// The `invoice.overdue` payload of an overdue invoice.
pub fn overdue_event(
    invoice_id: &str,
    customer_id: &str,
    number: &Option<String>,
    due_at: Option<UtcInstant>,
    total: Money,
    amount_paid: Money,
    currency: &str,
    state: InvoiceState,
) -> (e: OverdueEventBody)
    requires
        total.wf(),
        amount_paid.wf(),
    ensures
        e.invoice_id@ == invoice_id@,
        e.customer_id@ == customer_id@,
        same_opt_text(e.number, *number),
        e.due_at == due_at,
        e.total@ == decimal_display(total.mantissa, total.scale),
        e.amount_paid@ == decimal_display(amount_paid.mantissa, amount_paid.scale),
        e.currency@ == currency@,
        e.state@ == invoice_state_text(state),
{
    OverdueEventBody {
        invoice_id: invoice_id.to_string(),
        customer_id: customer_id.to_string(),
        number: match number {
            Some(n) => Some(n.clone()),
            None => None,
        },
        due_at,
        total: total.to_text(),
        amount_paid: amount_paid.to_text(),
        currency: currency.to_string(),
        state: invoice_state_str(state).to_string(),
    }
}

} // verus!
