//! `/v1/customers` request shapes.

use vstd::prelude::*;

verus! {

/// Query of `GET /v1/customers`.
#[derive(Debug, Default, Clone, PartialEq, Eq)]
pub struct ListQuery {
    /// Max rows (default 100, kept within 1..=1000).
    pub limit: Option<i64>,
    /// Offset (default 0, never negative).
    pub offset: Option<i64>,
}

/// `v.clamp(lo, hi)`
pub open spec fn clamp_spec(v: int, lo: int, hi: int) -> int {
    if v < lo {
        lo
    } else if v > hi {
        hi
    } else {
        v
    }
}

impl ListQuery {
    /// The page asked for: limit defaulting to 100 and clamped to
    /// `1..=1000`, offset defaulting to 0 and raised to 0 when negative.
    pub fn page(&self) -> (p: (i64, i64))
        ensures
            p.0 == clamp_spec(
                match self.limit {
                    Some(l) => l as int,
                    None => 100,
                },
                1,
                1000,
            ),
            p.1 == match self.offset {
                Some(o) => if o < 0 {
                    0
                } else {
                    o as int
                },
                None => 0,
            },
    {
        let l: i64 = match self.limit {
            Some(l) => l,
            None => 100,
        };
        let limit: i64 = if l < 1 {
            1
        } else if l > 1000 {
            1000
        } else {
            l
        };
        let o: i64 = match self.offset {
            Some(o) => o,
            None => 0,
        };
        let offset: i64 = if o < 0 {
            0
        } else {
            o
        };
        (limit, offset)
    }
}

} // verus!
