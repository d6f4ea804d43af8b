//! `/v1/schedules` listing: the query, its filter, and which stored
//! schedules a listing returns.

use vstd::prelude::*;
use crate::api::error::ApiError;
use crate::api::handlers::invoices::{filter_text, non_empty};
use crate::cli::parse::schedule_state_from_text;
use crate::domain::ScheduleState;
use crate::text::{push_str_chars, str_eq, string_from_chars};

verus! {

/// Query of `GET /v1/schedules`.
#[derive(Debug, Default, Clone, PartialEq, Eq)]
pub struct ListQuery {
    /// Restrict to one customer.
    pub customer_id: Option<String>,
    /// Restrict to one state (`active`, `paused`, `cancelled`).
    pub state: Option<String>,
    /// Max rows.
    pub limit: Option<i64>,
    /// Rows to skip.
    pub offset: Option<i64>,
}

/// The listing a query asks for.
#[derive(Debug, Clone, PartialEq, Eq)]
pub struct ScheduleListFilter {
    /// Customer id, when restricted.
    pub customer_id: Option<String>,
    /// State, when restricted.
    pub state: Option<ScheduleState>,
    /// Max rows, when limited.
    pub limit: Option<i64>,
    /// Rows to skip, when given.
    pub offset: Option<i64>,
}

fn parse_schedule_filter_state(s: &str) -> (r: Result<ScheduleState, ApiError>)
    ensures
        match schedule_state_from_text(s@) {
            Some(st) => r == Ok::<ScheduleState, ApiError>(st),
            None => r matches Err(ApiError::BadRequest(m)) && m@ == "invalid schedule state `"@ + s@
                + "`"@,
        },
{
    if str_eq(s, "active") {
        Ok(ScheduleState::Active)
    } else if str_eq(s, "paused") {
        Ok(ScheduleState::Paused)
    } else if str_eq(s, "cancelled") {
        Ok(ScheduleState::Cancelled)
    } else {
        let mut v: Vec<char> = Vec::new();
        push_str_chars(&mut v, "invalid schedule state `");
        push_str_chars(&mut v, s);
        push_str_chars(&mut v, "`");
        Err(ApiError::BadRequest(string_from_chars(&v)))
    }
}

impl ListQuery {
    /// The filter: empty values read as absent; a state must be a wire
    /// name (else a bad request); limit and offset pass through.
    pub fn filter(&self) -> (r: Result<ScheduleListFilter, ApiError>)
        ensures
            match filter_text(self.state) {
                Some(t) => match schedule_state_from_text(t) {
                    None => r matches Err(ApiError::BadRequest(m)) && m@ == "invalid schedule state `"@
                        + t + "`"@,
                    Some(st) => r matches Ok(f) && f.state == Some(st),
                },
                None => r matches Ok(f) && f.state is None,
            },
            r matches Ok(f) ==> {
                &&& match filter_text(self.customer_id) {
                    Some(t) => f.customer_id matches Some(c) && c@ == t,
                    None => f.customer_id is None,
                }
                &&& f.limit == self.limit
                &&& f.offset == self.offset
            },
    {
        let state = match non_empty(&self.state) {
            Some(s) => match parse_schedule_filter_state(s.as_str()) {
                Ok(st) => Some(st),
                Err(e) => {
                    return Err(e);
                },
            },
            None => None,
        };
        Ok(
            ScheduleListFilter {
                customer_id: non_empty(&self.customer_id),
                state,
                limit: self.limit,
                offset: self.offset,
            },
        )
    }
}

/// A stored schedule (its customer and state) passes the filter.
pub open spec fn schedule_matches(row: (String, ScheduleState), f: ScheduleListFilter) -> bool {
    &&& match f.customer_id {
        Some(c) => row.0@ == c@,
        None => true,
    }
    &&& match f.state {
        Some(s) => row.1 == s,
        None => true,
    }
}

/// Positions among the first `n` rows that pass the filter, in order.
pub open spec fn matching_positions(rows: Seq<(String, ScheduleState)>, f: ScheduleListFilter, n: int) -> Seq<usize>
    decreases n,
{
    if n <= 0 {
        Seq::empty()
    } else {
        let before = matching_positions(rows, f, n - 1);
        if schedule_matches(rows[n - 1], f) {
            before.push((n - 1) as usize)
        } else {
            before
        }
    }
}

/// How many matching rows are skipped: the offset, zero when absent or
/// negative.
pub open spec fn skip_of(f: ScheduleListFilter) -> int {
    match f.offset {
        Some(o) => if o < 0 {
            0
        } else {
            o as int
        },
        None => 0,
    }
}

/// The page of `m` a filter selects: skip the offset, then keep at most
/// the limit (all when absent; none when negative).
pub open spec fn page_of(m: Seq<usize>, f: ScheduleListFilter) -> Seq<usize> {
    let start = if skip_of(f) < m.len() {
        skip_of(f)
    } else {
        m.len() as int
    };
    let end = match f.limit {
        Some(l) => if l < 0 {
            start
        } else if start + l < m.len() {
            start + l
        } else {
            m.len() as int
        },
        None => m.len() as int,
    };
    m.subrange(start, end)
}

/// The positions of the stored schedules a listing returns: those of the
/// requested customer and state, in stored order, paged by offset and
/// limit. With no filter every schedule is listed.
pub fn select_schedules(rows: &[(String, ScheduleState)], f: &ScheduleListFilter) -> (out: Vec<usize>)
    ensures
        out@ == page_of(matching_positions(rows@, *f, rows@.len() as int), *f),
{
    let mut m: Vec<usize> = Vec::new();
    let mut i: usize = 0;
    while i < rows.len()
        invariant
            i <= rows@.len(),
            m@ == matching_positions(rows@, *f, i as int),
        decreases rows.len() - i,
    {
        let row = &rows[i];
        let cust_ok = match &f.customer_id {
            Some(c) => str_eq(row.0.as_str(), c.as_str()),
            None => true,
        };
        let state_ok = match f.state {
            Some(s) => row.1 == s,
            None => true,
        };
        if cust_ok && state_ok {
            m.push(i);
        }
        i = i + 1;
    }
    let skip: usize = match f.offset {
        Some(o) => if o < 0 {
            0
        } else if (o as u64) < (m.len() as u64) {
            o as usize
        } else {
            m.len()
        },
        None => 0,
    };
    let end: usize = match f.limit {
        Some(l) => if l < 0 {
            skip
        } else if (l as u64) < ((m.len() - skip) as u64) {
            skip + l as usize
        } else {
            m.len()
        },
        None => m.len(),
    };
    let mut out: Vec<usize> = Vec::new();
    let mut k: usize = skip;
    while k < end
        invariant
            skip <= k <= end <= m@.len(),
            out@ == m@.subrange(skip as int, k as int),
        decreases end - k,
    {
        out.push(m[k]);
        assert(out@ =~= m@.subrange(skip as int, k + 1));
        k = k + 1;
    }
    out
}

} // verus!
