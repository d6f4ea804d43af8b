//! Human document numbers (`INV-YYYY-NNNN`, `CN-YYYY-NNNN`) and the
//! issue-year window the sequence counts over.

use vstd::prelude::*;
use crate::text::{append_chars, decimal_chars, push_str_chars, string_from_chars, u64_to_decimal};

verus! {

/// `digits` left-padded with `0` to at least `width` characters.
pub open spec fn zero_pad(digits: Seq<char>, width: nat) -> Seq<char> {
    if digits.len() >= width {
        digits
    } else {
        Seq::new((width - digits.len()) as nat, |i: int| '0') + digits
    }
}

/// `format!("{v:0width$}")` for an integer: sign first, then the digits
/// zero-padded so that sign and digits together fill `width`.
pub open spec fn padded_int_text(v: int, width: nat) -> Seq<char> {
    if v >= 0 {
        zero_pad(decimal_chars(v as nat), width)
    } else {
        "-"@ + zero_pad(decimal_chars((-v) as nat), if width >= 1 { (width - 1) as nat } else { 0 })
    }
}

/// `{prefix}-{year:04}-{seq:04}`
pub open spec fn document_number_text(prefix: Seq<char>, year: int, seq: int) -> Seq<char> {
    prefix + "-"@ + padded_int_text(year, 4) + "-"@ + padded_int_text(seq, 4)
}

/// `{year:04}-01-01T00:00:00Z`, the first instant of a year as RFC 3339 text.
pub open spec fn year_start_text(year: int) -> Seq<char> {
    padded_int_text(year, 4) + "-01-01T00:00:00Z"@
}

/// Render an integer zero-padded to `width`, sign included.
pub fn padded_int(v: i64, width: usize) -> (out: Vec<char>)
    requires
        v > i64::MIN,
    ensures
        out@ == padded_int_text(v as int, width as nat),
{
    let mut out: Vec<char> = Vec::new();
    let mag: u64 = if v >= 0 {
        v as u64
    } else {
        out.push('-');
        (-v) as u64
    };
    let digits = u64_to_decimal(mag);
    let w: usize = if v >= 0 {
        width
    } else if width >= 1 {
        width - 1
    } else {
        0
    };
    let ghost start = out@;
    let mut k: usize = digits.len();
    while k < w
        invariant
            digits.len() <= k <= w || (k == digits.len() && w < k),
            out@ == start + Seq::new((k - digits.len()) as nat, |i: int| '0'),
        decreases w - k,
    {
        out.push('0');
        assert(out@ =~= start + Seq::new((k + 1 - digits.len()) as nat, |i: int| '0'));
        k = k + 1;
    }
    let ghost pad = out@;
    append_chars(&mut out, &digits);
    proof {
        let dl = digits@.len();
        if dl >= w {
            assert(k == dl);
            assert(pad =~= start);
        } else {
            assert(k == w);
        }
        if v >= 0 {
            assert(start =~= Seq::<char>::empty());
            assert(out@ =~= zero_pad(decimal_chars(v as nat), width as nat));
        } else {
            assert(start =~= seq!['-']);
            assert(out@ =~= "-"@ + zero_pad(decimal_chars((-v) as nat), w as nat)) by {
                reveal_strlit("-");
            }
        }
    }
    out
}

/// `{prefix}-{year:04}-{(count + 1):04}`: the number of the next document
/// issued in `year` when `count` were issued before it.
pub fn document_number(prefix: &str, year: i32, count: u32) -> (s: String)
    requires
        count < u32::MAX,
    ensures
        s@ == document_number_text(prefix@, year as int, count + 1),
{
    let mut v: Vec<char> = Vec::new();
    push_str_chars(&mut v, prefix);
    push_str_chars(&mut v, "-");
    let y = padded_int(year as i64, 4);
    append_chars(&mut v, &y);
    push_str_chars(&mut v, "-");
    let n = padded_int((count as i64) + 1, 4);
    append_chars(&mut v, &n);
    string_from_chars(&v)
}

/// Number of the next invoice issued in `year` (`INV-2026-0001` for the first).
pub fn invoice_number(year: i32, issued_this_year: u32) -> (s: String)
    requires
        issued_this_year < u32::MAX,
    ensures
        s@ == document_number_text("INV"@, year as int, issued_this_year + 1),
{
    document_number("INV", year, issued_this_year)
}

/// Number of the next credit note issued in `year` (`CN-2026-0001` for the first).
pub fn credit_note_number(year: i32, issued_this_year: u32) -> (s: String)
    requires
        issued_this_year < u32::MAX,
    ensures
        s@ == document_number_text("CN"@, year as int, issued_this_year + 1),
{
    document_number("CN", year, issued_this_year)
}

/// The half-open window `[start of year, start of next year)` as RFC 3339
/// text, which the issued-this-year count compares `issued_at` against.
pub fn issue_year_window(year: i32) -> (w: (String, String))
    requires
        year < i32::MAX,
    ensures
        w.0@ == year_start_text(year as int),
        w.1@ == year_start_text(year + 1),
{
    let mut a = padded_int(year as i64, 4);
    push_str_chars(&mut a, "-01-01T00:00:00Z");
    let mut b = padded_int((year as i64) + 1, 4);
    push_str_chars(&mut b, "-01-01T00:00:00Z");
    (string_from_chars(&a), string_from_chars(&b))
}

/// A stored count becomes a sequence base: negative counts read as zero,
/// counts past `u32::MAX` keep their low 32 bits (`c.max(0) as u32`).
pub fn count_to_u32(c: i64) -> (n: u32)
    ensures
        c <= 0 ==> n == 0,
        c > 0 ==> n == c as u32,
{
    if c <= 0 {
        0
    } else {
        c as u32
    }
}

} // verus!
