//! Parsing of CLI argument values.

use vstd::prelude::*;
use crate::api::handlers::invoices::{parse_state, state_from_text};
use crate::domain::{valid_date, CalendarDate, InvoiceState, Money, ReminderChannel, ScheduleState};
use crate::text::{
    chars_of, concat_str, parse_u64, parse_u64_spec, str_eq, find_last, is_blank, last_index_of, push_str_chars, slice_chars, string_from_chars,
    trim_spec,
};

verus! {

/// What `rust_decimal::Decimal::from_str` yields for a text: the
/// decimal's `(mantissa, scale)`, or the parse error's display text.
pub uninterp spec fn decimal_from_str(s: Seq<char>) -> Result<(i128, u32), Seq<char>>;

/// `rust_decimal::Decimal::from_str(s)`, the decimal taken apart into
/// mantissa and scale (every decimal has a 96-bit mantissa and a scale
/// of at most 28), the error as its display text.
#[verifier::external_body]
fn decimal_parse(s: &str) -> (r: Result<Money, String>)
    ensures
        match decimal_from_str(s@) {
            Ok((m, sc)) => r == Ok::<Money, String>(Money { mantissa: m, scale: sc }),
            Err(e) => r matches Err(t) && t@ == e,
        },
        r matches Ok(m) ==> m.wf(),
{
    match <rust_decimal::Decimal as std::str::FromStr>::from_str(s) {
        Ok(d) => Ok(Money { mantissa: d.mantissa(), scale: d.scale() }),
        Err(e) => Err(e.to_string()),
    }
}

/// `invalid {label} `{raw}`: {error}` for a failed decimal.
pub open spec fn decimal_outcome(label: Seq<char>, raw: Seq<char>, r: Result<Money, String>) -> bool {
    match decimal_from_str(raw) {
        Ok((m, sc)) => r == Ok::<Money, String>(Money { mantissa: m, scale: sc }),
        Err(e) => r matches Err(t) && t@ == "invalid "@ + label + " `"@ + raw + "`: "@ + e,
    }
}

/// Parse a decimal amount, naming `label` in the error.
pub fn parse_decimal(label: &str, raw: &str) -> (r: Result<Money, String>)
    ensures
        decimal_outcome(label@, raw@, r),
        r matches Ok(m) ==> m.wf(),
{
    match decimal_parse(raw) {
        Ok(m) => Ok(m),
        Err(e) => {
            let mut v: Vec<char> = Vec::new();
            push_str_chars(&mut v, "invalid ");
            push_str_chars(&mut v, label);
            push_str_chars(&mut v, " `");
            push_str_chars(&mut v, raw);
            push_str_chars(&mut v, "`: ");
            push_str_chars(&mut v, e.as_str());
            Err(string_from_chars(&v))
        },
    }
}

/// A parsed `--line` value.
#[derive(Debug, Clone, PartialEq, Eq)]
pub struct LineSpec {
    /// Description (everything before the last two colons).
    pub description: String,
    /// Quantity.
    pub quantity: Money,
    /// Unit price.
    pub unit_price: Money,
}

/// Position of the last colon, and of the one before it.
pub open spec fn line_cuts(raw: Seq<char>) -> (int, int) {
    let i = last_index_of(raw, ':');
    let j = if i < 0 { -1 } else { last_index_of(raw.subrange(0, i), ':') };
    (i, j)
}

/// What `parse_line` answers: the text splits from the right at its last
/// two colons into description, quantity and price; the price is parsed
/// first, then the quantity, then the description must not be blank.
pub open spec fn line_outcome(raw: Seq<char>, r: Result<LineSpec, String>) -> bool {
    let (i, j) = line_cuts(raw);
    if i < 0 || j < 0 {
        r matches Err(m) && m@ == "invalid --line `"@ + raw + "` (expected `<desc>:<qty>:<price>`)"@
    } else {
        let desc = raw.subrange(0, j);
        let qty = raw.subrange(j + 1, i);
        let price = raw.subrange(i + 1, raw.len() as int);
        match decimal_from_str(price) {
            Err(e) => r matches Err(m) && m@ == "invalid "@ + "line unit_price"@ + " `"@ + price
                + "`: "@ + e,
            Ok((pm, ps)) => match decimal_from_str(qty) {
                Err(e) => r matches Err(m) && m@ == "invalid "@ + "line quantity"@ + " `"@ + qty
                    + "`: "@ + e,
                Ok((qm, qs)) => if trim_spec(desc).len() == 0 {
                    r matches Err(m) && m@ == "--line `"@ + raw + "`: description must not be empty"@
                } else {
                    r matches Ok(l) && l.description@ == desc && l.quantity == Money {
                        mantissa: qm,
                        scale: qs,
                    } && l.unit_price == Money { mantissa: pm, scale: ps }
                },
            },
        }
    }
}

/// Parse `--line "<desc>:<qty>:<price>"`. The description is everything
/// before the last two colons, so it may itself hold colons.
pub fn parse_line(raw: &str) -> (r: Result<LineSpec, String>)
    ensures
        line_outcome(raw@, r),
{
    let cs = chars_of(raw);
    let i = match find_last(&cs, ':') {
        Some(i) => i,
        None => {
            return Err(bad_line(raw));
        },
    };
    proof {
        crate::text::lemma_last_index_of(cs@, ':');
    }
    let head = slice_chars(&cs, 0, i);
    let j = match find_last(&head, ':') {
        Some(j) => j,
        None => {
            return Err(bad_line(raw));
        },
    };
    proof {
        crate::text::lemma_last_index_of(head@, ':');
    }
    assert(i < cs@.len() && j < i);
    assert(line_cuts(raw@) == (i as int, j as int));
    let desc_c = slice_chars(&cs, 0, j);
    let qty_c = slice_chars(&cs, j + 1, i);
    assert(i < cs.len());
    let after: usize = i + 1;
    let price_c = slice_chars(&cs, after, cs.len());
    let desc = string_from_chars(&desc_c);
    let qty = string_from_chars(&qty_c);
    let price = string_from_chars(&price_c);
    let unit_price = match parse_decimal("line unit_price", price.as_str()) {
        Ok(m) => m,
        Err(e) => {
            return Err(e);
        },
    };
    let quantity = match parse_decimal("line quantity", qty.as_str()) {
        Ok(m) => m,
        Err(e) => {
            return Err(e);
        },
    };
    if is_blank(desc.as_str()) {
        let mut v: Vec<char> = Vec::new();
        push_str_chars(&mut v, "--line `");
        push_str_chars(&mut v, raw);
        push_str_chars(&mut v, "`: description must not be empty");
        return Err(string_from_chars(&v));
    }
    Ok(LineSpec { description: desc, quantity, unit_price })
}

fn bad_line(raw: &str) -> (s: String)
    ensures
        s@ == "invalid --line `"@ + raw@ + "` (expected `<desc>:<qty>:<price>`)"@,
{
    let mut v: Vec<char> = Vec::new();
    push_str_chars(&mut v, "invalid --line `");
    push_str_chars(&mut v, raw);
    push_str_chars(&mut v, "` (expected `<desc>:<qty>:<price>`)");
    string_from_chars(&v)
}


/// Parse an invoice state from its wire name (CLI spelling of the error).
pub fn parse_invoice_state(raw: &str) -> (r: Result<InvoiceState, String>)
    ensures
        match state_from_text(raw@) {
            Some(st) => r == Ok::<InvoiceState, String>(st),
            None => r matches Err(m) && m@ == "unknown invoice state `"@ + raw@ + "`"@,
        },
{
    match parse_state(raw) {
        Ok(st) => Ok(st),
        Err(_) => {
            let a = concat_str("unknown invoice state `", raw);
            Err(concat_str(a.as_str(), "`"))
        },
    }
}

/// The schedule state a wire name denotes, if any.
pub open spec fn schedule_state_from_text(s: Seq<char>) -> Option<ScheduleState> {
    if s == "active"@ {
        Some(ScheduleState::Active)
    } else if s == "paused"@ {
        Some(ScheduleState::Paused)
    } else if s == "cancelled"@ {
        Some(ScheduleState::Cancelled)
    } else {
        None
    }
}

/// Parse `--state` of the schedule commands.
pub fn parse_schedule_state(raw: &str) -> (r: Result<ScheduleState, String>)
    ensures
        match schedule_state_from_text(raw@) {
            Some(st) => r == Ok::<ScheduleState, String>(st),
            None => r matches Err(m) && m@ == "invalid --state `"@ + raw@
                + "` (want active | paused | cancelled)"@,
        },
{
    if str_eq(raw, "active") {
        Ok(ScheduleState::Active)
    } else if str_eq(raw, "paused") {
        Ok(ScheduleState::Paused)
    } else if str_eq(raw, "cancelled") {
        Ok(ScheduleState::Cancelled)
    } else {
        let a = concat_str("invalid --state `", raw);
        Err(concat_str(a.as_str(), "` (want active | paused | cancelled)"))
    }
}

/// The reminder channel a wire name denotes, if any.
pub open spec fn reminder_channel_from_text(s: Seq<char>) -> Option<ReminderChannel> {
    if s == "file"@ {
        Some(ReminderChannel::File)
    } else if s == "stdout"@ {
        Some(ReminderChannel::Stdout)
    } else if s == "bus"@ {
        Some(ReminderChannel::Bus)
    } else if s == "webhook"@ {
        Some(ReminderChannel::Webhook)
    } else if s == "link"@ {
        Some(ReminderChannel::Link)
    } else {
        None
    }
}

/// Parse `--channel` of the reminder commands.
pub fn parse_channel(raw: &str) -> (r: Result<ReminderChannel, String>)
    ensures
        match reminder_channel_from_text(raw@) {
            Some(c) => r == Ok::<ReminderChannel, String>(c),
            None => r matches Err(m) && m@ == "unknown reminder channel `"@ + raw@ + "`"@,
        },
{
    if str_eq(raw, "file") {
        Ok(ReminderChannel::File)
    } else if str_eq(raw, "stdout") {
        Ok(ReminderChannel::Stdout)
    } else if str_eq(raw, "bus") {
        Ok(ReminderChannel::Bus)
    } else if str_eq(raw, "webhook") {
        Ok(ReminderChannel::Webhook)
    } else if str_eq(raw, "link") {
        Ok(ReminderChannel::Link)
    } else {
        let a = concat_str("unknown reminder channel `", raw);
        Err(concat_str(a.as_str(), "`"))
    }
}

/// Parse a `--{key}` value as whole seconds (`str::parse::<u64>`).
pub fn parse_secs(key: &str, raw: &str) -> (r: Result<u64, String>)
    ensures
        match parse_u64_spec(raw@) {
            Some(n) => r == Ok::<u64, String>(n),
            None => r matches Err(m) && m@ == "parsing --"@ + key@ + " as u64 seconds: "@ + raw@,
        },
{
    let cs = chars_of(raw);
    match parse_u64(&cs) {
        Some(n) => Ok(n),
        None => {
            let a = concat_str("parsing --", key);
            let b = concat_str(a.as_str(), " as u64 seconds: ");
            Err(concat_str(b.as_str(), raw))
        },
    }
}


/// What parsing all `--line` values answers: the first failure, or every
/// line in order; none at all is refused.
pub open spec fn lines_outcome(raws: Seq<Seq<char>>, r: Result<Vec<LineSpec>, String>) -> bool {
    if raws.len() == 0 {
        r matches Err(m) && m@ == "at least one --line is required"@
    } else {
        match r {
            Ok(v) => v@.len() == raws.len() && forall|i: int|
                0 <= i < raws.len() ==> line_outcome(raws[i], Ok(#[trigger] v@[i])),
            Err(m) => exists|i: int|
                0 <= i < raws.len() && line_outcome(raws[i], Err(m)) && forall|j: int|
                    0 <= j < i ==> #[trigger] line_is_ok(raws[j]),
        }
    }
}

/// The `--line` value parses.
pub open spec fn line_is_ok(raw: Seq<char>) -> bool {
    exists|l: LineSpec| line_outcome(raw, Ok(l))
}

/// The text views of a list of strings.
pub open spec fn texts(v: Seq<String>) -> Seq<Seq<char>> {
    Seq::new(v.len(), |i: int| v[i]@)
}

/// Parse every `--line` value, stopping at the first bad one; at least
/// one is required.
pub fn parse_line_args(raws: &[String]) -> (r: Result<Vec<LineSpec>, String>)
    ensures
        lines_outcome(texts(raws@), r),
{
    if raws.len() == 0 {
        return Err("at least one --line is required".to_string());
    }
    let mut out: Vec<LineSpec> = Vec::new();
    let mut i: usize = 0;
    while i < raws.len()
        invariant
            i <= raws@.len(),
            raws@.len() > 0,
            out@.len() == i,
            forall|j: int| 0 <= j < i ==> line_outcome(#[trigger] texts(raws@)[j], Ok(out@[j])),
        decreases raws.len() - i,
    {
        let r = parse_line(raws[i].as_str());
        assert(texts(raws@)[i as int] == raws@[i as int]@);
        match r {
            Ok(l) => {
                out.push(l);
            },
            Err(m) => {
                proof {
                    assert forall|j: int| 0 <= j < i implies #[trigger] line_is_ok(texts(raws@)[j]) by {
                        assert(line_outcome(texts(raws@)[j], Ok(out@[j])));
                    }
                }
                return Err(m);
            },
        }
        i = i + 1;
    }
    Ok(out)
}


/// What `chrono::NaiveDate::from_str` yields for a text: the date as
/// `(year, month, day)`, or the parse error's display text.
pub uninterp spec fn naive_date_from_str(s: Seq<char>) -> Result<(i32, u32, u32), Seq<char>>;

/// `<chrono::NaiveDate as FromStr>::from_str(s)`, the date taken apart
/// into year, month and day (every `NaiveDate` is a real date inside
/// chrono's year range), the error as its display text.
#[verifier::external_body]
fn date_parse(s: &str) -> (r: Result<CalendarDate, String>)
    ensures
        match naive_date_from_str(s@) {
            Ok((y, m, d)) => r == Ok::<CalendarDate, String>(CalendarDate { year: y, month: m, day: d }),
            Err(e) => r matches Err(t) && t@ == e,
        },
        r matches Ok(d) ==> valid_date(d),
{
    match <chrono::NaiveDate as std::str::FromStr>::from_str(s) {
        Ok(d) => Ok(CalendarDate { year: chrono::Datelike::year(&d), month: chrono::Datelike::month(&d), day: chrono::Datelike::day(&d) }),
        Err(e) => Err(e.to_string()),
    }
}

/// Parse a `YYYY-MM-DD` date, naming `label` in the error.
pub fn parse_date(label: &str, raw: &str) -> (r: Result<CalendarDate, String>)
    ensures
        match naive_date_from_str(raw@) {
            Ok((y, m, d)) => r == Ok::<CalendarDate, String>(CalendarDate { year: y, month: m, day: d }),
            Err(e) => r matches Err(t) && t@ == "invalid "@ + label@ + " `"@ + raw@
                + "` (expected YYYY-MM-DD): "@ + e,
        },
        r matches Ok(d) ==> valid_date(d),
{
    match date_parse(raw) {
        Ok(d) => Ok(d),
        Err(e) => {
            let mut v: Vec<char> = Vec::new();
            push_str_chars(&mut v, "invalid ");
            push_str_chars(&mut v, label);
            push_str_chars(&mut v, " `");
            push_str_chars(&mut v, raw);
            push_str_chars(&mut v, "` (expected YYYY-MM-DD): ");
            push_str_chars(&mut v, e.as_str());
            Err(string_from_chars(&v))
        },
    }
}

} // verus!
