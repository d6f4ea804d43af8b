//! Plain domain values the command, bus and adapter logic read: the
//! invoice and credit-note lifecycle states, the audit channel, schedule
//! and reminder states, and their wire spellings.

use vstd::prelude::*;
use crate::text::{decimal_chars, digit_char};

verus! {

/// Invoice lifecycle state.
#[derive(Debug, Clone, Copy, PartialEq, Eq, Structural)]
pub enum InvoiceState {
    /// Editable draft.
    Draft,
    /// Number assigned, tax frozen.
    Issued,
    /// Delivered to the customer.
    Sent,
    /// Opened through the signed link.
    Viewed,
    /// Some but not all of the total received.
    PartiallyPaid,
    /// Fully settled.
    Paid,
    /// Cancelled before payment.
    Voided,
}

/// Credit-note lifecycle state.
#[derive(Debug, Clone, Copy, PartialEq, Eq, Structural)]
pub enum CreditNoteState {
    /// Editable draft.
    Draft,
    /// Number assigned; terminal.
    Issued,
}

/// Channel recorded on an audit (history) row.
#[derive(Debug, Clone, Copy, PartialEq, Eq, Structural)]
pub enum HistoryChannel {
    /// CLI adapter.
    Cli,
    /// HTTP API adapter.
    Api,
    /// WebSocket adapter.
    Ws,
    /// MCP adapter.
    Mcp,
    /// Bus consumer.
    Bus,
}

/// Recurring-schedule state.
#[derive(Debug, Clone, Copy, PartialEq, Eq, Structural)]
pub enum ScheduleState {
    /// Materialises invoices on its cadence.
    Active,
    /// Temporarily stopped.
    Paused,
    /// Terminal.
    Cancelled,
}

/// Reminder state.
#[derive(Debug, Clone, Copy, PartialEq, Eq, Structural)]
pub enum ReminderState {
    /// Waiting for its time.
    Scheduled,
    /// Dispatched by the ticker.
    Sent,
    /// Cancelled before dispatch.
    Cancelled,
}

/// Delivery scheme of a reminder.
#[derive(Debug, Clone, Copy, PartialEq, Eq, Structural)]
pub enum ReminderChannel {
    /// Write to a file.
    File,
    /// Write to standard output.
    Stdout,
    /// Publish on the bus.
    Bus,
    /// POST to a webhook.
    Webhook,
    /// Mint a signed link.
    Link,
}

/// Wire spelling of an invoice state.
pub open spec fn invoice_state_text(s: InvoiceState) -> Seq<char> {
    match s {
        InvoiceState::Draft => "draft"@,
        InvoiceState::Issued => "issued"@,
        InvoiceState::Sent => "sent"@,
        InvoiceState::Viewed => "viewed"@,
        InvoiceState::PartiallyPaid => "partially_paid"@,
        InvoiceState::Paid => "paid"@,
        InvoiceState::Voided => "voided"@,
    }
}

/// Wire spelling of an invoice state.
pub fn invoice_state_str(s: InvoiceState) -> (r: &'static str)
    ensures
        r@ == invoice_state_text(s),
{
    match s {
        InvoiceState::Draft => "draft",
        InvoiceState::Issued => "issued",
        InvoiceState::Sent => "sent",
        InvoiceState::Viewed => "viewed",
        InvoiceState::PartiallyPaid => "partially_paid",
        InvoiceState::Paid => "paid",
        InvoiceState::Voided => "voided",
    }
}

/// Wire spelling of a credit-note state.
pub open spec fn credit_note_state_text(s: CreditNoteState) -> Seq<char> {
    match s {
        CreditNoteState::Draft => "draft"@,
        CreditNoteState::Issued => "issued"@,
    }
}

/// Wire spelling of a credit-note state.
pub fn credit_note_state_str(s: CreditNoteState) -> (r: &'static str)
    ensures
        r@ == credit_note_state_text(s),
{
    match s {
        CreditNoteState::Draft => "draft",
        CreditNoteState::Issued => "issued",
    }
}

/// Wire spelling of an audit channel.
pub open spec fn history_channel_text(c: HistoryChannel) -> Seq<char> {
    match c {
        HistoryChannel::Cli => "cli"@,
        HistoryChannel::Api => "api"@,
        HistoryChannel::Ws => "ws"@,
        HistoryChannel::Mcp => "mcp"@,
        HistoryChannel::Bus => "bus"@,
    }
}

/// Wire spelling of an audit channel.
pub fn history_channel_str(c: HistoryChannel) -> (r: &'static str)
    ensures
        r@ == history_channel_text(c),
{
    match c {
        HistoryChannel::Cli => "cli",
        HistoryChannel::Api => "api",
        HistoryChannel::Ws => "ws",
        HistoryChannel::Mcp => "mcp",
        HistoryChannel::Bus => "bus",
    }
}

/// Wire spelling of a schedule state.
pub open spec fn schedule_state_text(s: ScheduleState) -> Seq<char> {
    match s {
        ScheduleState::Active => "active"@,
        ScheduleState::Paused => "paused"@,
        ScheduleState::Cancelled => "cancelled"@,
    }
}

/// Wire spelling of a schedule state (its name, lower-cased).
pub fn schedule_state_str(s: ScheduleState) -> (r: &'static str)
    ensures
        r@ == schedule_state_text(s),
{
    match s {
        ScheduleState::Active => "active",
        ScheduleState::Paused => "paused",
        ScheduleState::Cancelled => "cancelled",
    }
}

/// Wire spelling of a reminder channel.
pub open spec fn reminder_channel_text(c: ReminderChannel) -> Seq<char> {
    match c {
        ReminderChannel::File => "file"@,
        ReminderChannel::Stdout => "stdout"@,
        ReminderChannel::Bus => "bus"@,
        ReminderChannel::Webhook => "webhook"@,
        ReminderChannel::Link => "link"@,
    }
}

/// Wire spelling of a reminder channel (its name, lower-cased).
pub fn reminder_channel_str(c: ReminderChannel) -> (r: &'static str)
    ensures
        r@ == reminder_channel_text(c),
{
    match c {
        ReminderChannel::File => "file",
        ReminderChannel::Stdout => "stdout",
        ReminderChannel::Bus => "bus",
        ReminderChannel::Webhook => "webhook",
        ReminderChannel::Link => "link",
    }
}


/// A calendar date (proleptic Gregorian).
#[derive(Debug, Clone, Copy, PartialEq, Eq, Structural)]
pub struct CalendarDate {
    /// Year.
    pub year: i32,
    /// Month, 1 to 12.
    pub month: u32,
    /// Day of month, 1 to 31.
    pub day: u32,
}

/// Gregorian leap year.
pub open spec fn is_leap_year(y: int) -> bool {
    (y % 4 == 0 && y % 100 != 0) || y % 400 == 0
}

/// Days in month `m` of year `y`.
pub open spec fn days_in_month(y: int, m: int) -> int {
    if m == 2 {
        if is_leap_year(y) {
            29
        } else {
            28
        }
    } else if m == 4 || m == 6 || m == 9 || m == 11 {
        30
    } else {
        31
    }
}

/// The date exists and lies in chrono's year range (-262143 to 262142).
pub open spec fn valid_date(d: CalendarDate) -> bool {
    &&& -262143 <= d.year <= 262142
    &&& 1 <= d.month <= 12
    &&& 1 <= d.day <= days_in_month(d.year as int, d.month as int)
}

/// `n` zero characters.
pub open spec fn zeros(n: nat) -> Seq<char> {
    Seq::new(n, |_i: int| '0')
}

/// `s` with zeros in front, up to `width` characters.
pub open spec fn zero_pad(s: Seq<char>, width: nat) -> Seq<char> {
    if s.len() < width {
        zeros((width - s.len()) as nat) + s
    } else {
        s
    }
}

/// Two decimal digits of `n` (below 100), the tens first.
pub open spec fn two_digits(n: int) -> Seq<char> {
    seq![digit_char(n / 10), digit_char(n % 10)]
}

/// A year as a date renders it: four digits, zero-padded, for years 0 to
/// 9999; otherwise an explicit sign and at least four digits.
pub open spec fn year_text(y: int) -> Seq<char> {
    if 0 <= y <= 9999 {
        zero_pad(decimal_chars(y as nat), 4)
    } else if y < 0 {
        seq!['-'] + zero_pad(decimal_chars((-y) as nat), 4)
    } else {
        seq!['+'] + zero_pad(decimal_chars(y as nat), 4)
    }
}

/// Display text of a date as `chrono::NaiveDate` renders it: the year,
/// then the month and the day in two digits each, joined by `-`
/// (`2026-03-01`, `+12345-06-07`, `-0001-01-01`).
pub open spec fn date_display(year: i32, month: u32, day: u32) -> Seq<char> {
    year_text(year as int) + seq!['-'] + two_digits(month as int) + seq!['-'] + two_digits(day as int)
}

/// `chrono::NaiveDate::from_ymd_opt(year, month, day)` rendered with
/// `to_string()`. For a date that exists in chrono's year range
/// `from_ymd_opt` yields `Some`, and its text is `date_display`.
#[verifier::external_body]
fn date_text(year: i32, month: u32, day: u32) -> (r: Option<String>)
    requires
        valid_date(CalendarDate { year, month, day }),
    ensures
        r is Some,
        r.unwrap()@ == date_display(year, month, day),
{
    chrono::NaiveDate::from_ymd_opt(year, month, day).map(|d| d.to_string())
}

/// `a` is strictly earlier than `b`.
pub open spec fn date_before(a: CalendarDate, b: CalendarDate) -> bool {
    a.year < b.year || (a.year == b.year && (a.month < b.month || (a.month == b.month && a.day
        < b.day)))
}

/// Dates are ordered by year, then month, then day: an earlier year is
/// always before and a later year never is, whatever the months; within
/// a year the month decides, within a month the day; no date is before
/// itself, the order is transitive, and of two different dates one is
/// before the other.
pub proof fn date_order_law(a: CalendarDate, b: CalendarDate, c: CalendarDate)
    ensures
        a.year < b.year ==> date_before(a, b),
        a.year > b.year ==> !date_before(a, b),
        a.year == b.year && a.month < b.month ==> date_before(a, b),
        a.year == b.year && a.month > b.month ==> !date_before(a, b),
        a.year == b.year && a.month == b.month ==> (date_before(a, b) <==> a.day < b.day),
        !date_before(a, a),
        date_before(a, b) ==> !date_before(b, a),
        date_before(a, b) && date_before(b, c) ==> date_before(a, c),
        a != b ==> date_before(a, b) || date_before(b, a),
{
}

impl CalendarDate {
    /// Display text (`YYYY-MM-DD`).
    pub fn to_text(&self) -> (s: String)
        requires
            valid_date(*self),
        ensures
            s@ == date_display(self.year, self.month, self.day),
    {
        match date_text(self.year, self.month, self.day) {
            Some(s) => s,
            None => String::new(),
        }
    }

    /// `self` is strictly earlier than `other`.
    pub fn is_before(&self, other: &CalendarDate) -> (r: bool)
        ensures
            r == date_before(*self, *other),
    {
        self.year < other.year || (self.year == other.year && (self.month < other.month || (
        self.month == other.month && self.day < other.day)))
    }
}


/// An exact decimal amount: `mantissa / 10^scale`, the same
/// representation `rust_decimal::Decimal` keeps (scale at most 28).
#[derive(Debug, Clone, Copy, PartialEq, Eq, Structural)]
pub struct Money {
    /// Signed integer digits.
    pub mantissa: i128,
    /// Number of digits after the decimal point.
    pub scale: u32,
}

/// Display text of the decimal `mantissa / 10^scale`, as
/// `rust_decimal::Decimal` renders it: `-` for a negative amount, the
/// integer digits (at least one), and for a positive scale a point and
/// exactly `scale` fraction digits (`125.00`, `-0.05`, `7`).
pub open spec fn decimal_display(mantissa: i128, scale: u32) -> Seq<char> {
    let magnitude: nat = (if mantissa < 0 {
        -mantissa
    } else {
        mantissa as int
    }) as nat;
    let p = zero_pad(decimal_chars(magnitude), scale as nat + 1);
    let k = p.len() - scale;
    (if mantissa < 0 {
        seq!['-']
    } else {
        Seq::<char>::empty()
    }) + if scale == 0 {
        p
    } else {
        p.subrange(0, k) + seq!['.'] + p.subrange(k, p.len() as int)
    }
}

/// Largest magnitude a decimal mantissa can have (96 bits).
pub const MAX_MANTISSA: i128 = 79228162514264337593543950335i128;

/// `rust_decimal::Decimal::from_i128_with_scale(..).to_string()`: the
/// display text of the amount, `decimal_display`.
#[verifier::external_body]
fn decimal_text(mantissa: i128, scale: u32) -> (s: String)
    requires
        scale <= 28,
        -MAX_MANTISSA <= mantissa <= MAX_MANTISSA,
    ensures
        s@ == decimal_display(mantissa, scale),
{
    rust_decimal::Decimal::from_i128_with_scale(mantissa, scale).to_string()
}

/// What `rust_decimal::Decimal::checked_add` yields for two decimals
/// given as `(mantissa, scale)`: the sum's parts, or `None` on overflow.
pub uninterp spec fn decimal_checked_sum(am: i128, ascale: u32, bm: i128, bscale: u32) -> Option<(i128, u32)>;

/// What `rust_decimal::Decimal::checked_mul` yields for two decimals
/// given as `(mantissa, scale)`: the product's parts, or `None` on overflow.
pub uninterp spec fn decimal_checked_product(am: i128, ascale: u32, bm: i128, bscale: u32) -> Option<(i128, u32)>;

/// `rust_decimal::Decimal::checked_add`, the operands rebuilt from their
/// parts and the sum taken apart again. The sum is named; every decimal
/// it yields has a 96-bit mantissa and a scale of at most 28.
#[verifier::external_body]
fn decimal_add(a: Money, b: Money) -> (r: Option<Money>)
    requires
        a.wf(),
        b.wf(),
    ensures
        match decimal_checked_sum(a.mantissa, a.scale, b.mantissa, b.scale) {
            Some((m, s)) => r == Some(Money { mantissa: m, scale: s }),
            None => r is None,
        },
        r matches Some(x) ==> x.wf(),
{
    let x = rust_decimal::Decimal::from_i128_with_scale(a.mantissa, a.scale);
    let y = rust_decimal::Decimal::from_i128_with_scale(b.mantissa, b.scale);
    x.checked_add(y).map(|d| Money { mantissa: d.mantissa(), scale: d.scale() })
}

/// `rust_decimal::Decimal::checked_mul`, the operands rebuilt from their
/// parts and the product taken apart again. The product is named; every
/// decimal it yields has a 96-bit mantissa and a scale of at most 28.
#[verifier::external_body]
fn decimal_mul(a: Money, b: Money) -> (r: Option<Money>)
    requires
        a.wf(),
        b.wf(),
    ensures
        match decimal_checked_product(a.mantissa, a.scale, b.mantissa, b.scale) {
            Some((m, s)) => r == Some(Money { mantissa: m, scale: s }),
            None => r is None,
        },
        r matches Some(x) ==> x.wf(),
{
    let x = rust_decimal::Decimal::from_i128_with_scale(a.mantissa, a.scale);
    let y = rust_decimal::Decimal::from_i128_with_scale(b.mantissa, b.scale);
    x.checked_mul(y).map(|d| Money { mantissa: d.mantissa(), scale: d.scale() })
}

/// The running total of amounts from zero, adding in order; `None` once
/// an addition overflows.
pub open spec fn sum_spec(v: Seq<Money>) -> Option<(i128, u32)>
    decreases v.len(),
{
    if v.len() == 0 {
        Some((0, 0))
    } else {
        match sum_spec(v.drop_last()) {
            None => None,
            Some((m, s)) => decimal_checked_sum(m, s, v.last().mantissa, v.last().scale),
        }
    }
}

/// Every amount is representable as a decimal.
pub open spec fn all_wf(v: Seq<Money>) -> bool {
    forall|i: int| 0 <= i < v.len() ==> #[trigger] v[i].wf()
}

/// Sum amounts in order starting from zero, as the commands total their
/// lines; `None` when a step overflows.
pub fn sum_amounts(v: &[Money]) -> (r: Option<Money>)
    requires
        all_wf(v@),
    ensures
        match sum_spec(v@) {
            Some((m, s)) => r == Some(Money { mantissa: m, scale: s }),
            None => r is None,
        },
{
    let mut acc = Money { mantissa: 0, scale: 0 };
    let mut i: usize = 0;
    assert(v@.subrange(0, 0) =~= Seq::<Money>::empty());
    while i < v.len()
        invariant
            i <= v@.len(),
            all_wf(v@),
            acc.wf(),
            sum_spec(v@.subrange(0, i as int)) == Some((acc.mantissa, acc.scale)),
        decreases v.len() - i,
    {
        assert(v@.subrange(0, i + 1).drop_last() =~= v@.subrange(0, i as int));
        assert(v@[i as int].wf());
        match decimal_add(acc, v[i]) {
            Some(x) => {
                acc = x;
            },
            None => {
                proof {
                    lemma_sum_none_stays(v@, i as int + 1);
                }
                assert(v@.subrange(0, v@.len() as int) =~= v@);
                return None;
            },
        }
        i = i + 1;
    }
    assert(v@.subrange(0, v@.len() as int) =~= v@);
    Some(acc)
}

/// Once a prefix overflows, every longer prefix does too.
proof fn lemma_sum_none_stays(v: Seq<Money>, k: int)
    requires
        0 <= k <= v.len(),
        sum_spec(v.subrange(0, k)) is None,
    ensures
        sum_spec(v) is None,
    decreases v.len() - k,
{
    if k < v.len() {
        assert(v.subrange(0, k + 1).drop_last() =~= v.subrange(0, k));
        lemma_sum_none_stays(v, k + 1);
    } else {
        assert(v.subrange(0, k) =~= v);
    }
}

impl Money {
    /// `self + other` as a decimal; `None` on overflow.
    pub fn checked_add(&self, other: &Money) -> (r: Option<Money>)
        requires
            self.wf(),
            other.wf(),
        ensures
            match decimal_checked_sum(self.mantissa, self.scale, other.mantissa, other.scale) {
                Some((m, s)) => r == Some(Money { mantissa: m, scale: s }),
                None => r is None,
            },
    {
        decimal_add(*self, *other)
    }

    /// `self * other` as a decimal (a line's quantity times its unit
    /// price); `None` on overflow.
    pub fn checked_mul(&self, other: &Money) -> (r: Option<Money>)
        requires
            self.wf(),
            other.wf(),
        ensures
            match decimal_checked_product(self.mantissa, self.scale, other.mantissa, other.scale) {
                Some((m, s)) => r == Some(Money { mantissa: m, scale: s }),
                None => r is None,
            },
    {
        decimal_mul(*self, *other)
    }

    /// The amount is representable as a `rust_decimal::Decimal`.
    pub open spec fn wf(self) -> bool {
        self.scale <= 28 && -MAX_MANTISSA <= self.mantissa <= MAX_MANTISSA
    }

    /// Display text of the amount (`1.50`, `-3`, ...).
    pub fn to_text(&self) -> (s: String)
        requires
            self.wf(),
        ensures
            s@ == decimal_display(self.mantissa, self.scale),
    {
        decimal_text(self.mantissa, self.scale)
    }

    /// The amount is greater than zero.
    pub fn is_positive(&self) -> (r: bool)
        ensures
            r == (self.mantissa > 0),
    {
        self.mantissa > 0
    }

    /// The amount is less than zero.
    pub fn is_negative(&self) -> (r: bool)
        ensures
            r == (self.mantissa < 0),
    {
        self.mantissa < 0
    }
}

/// An event that drives the invoice lifecycle.
#[derive(Debug, Clone, Copy, PartialEq, Eq, Structural)]
pub enum InvoiceEvent {
    /// Draft to issued.
    Issue,
    /// Deliver to the customer.
    Send,
    /// Re-send a reminder (self-edge on `Sent`).
    Remind,
    /// Customer opened the signed link.
    View,
    /// Record a payment: cumulative `amount_paid` against `total`.
    Pay {
        /// Cumulative amount paid after this payment.
        amount_paid: Money,
        /// Invoice total.
        total: Money,
    },
    /// Cancel the invoice.
    Void,
}

/// Audit tag of an invoice event, as written to history rows.
pub open spec fn invoice_event_tag_text(e: InvoiceEvent) -> Seq<char> {
    match e {
        InvoiceEvent::Issue => "issue"@,
        InvoiceEvent::Send => "send"@,
        InvoiceEvent::Remind => "remind"@,
        InvoiceEvent::View => "view"@,
        InvoiceEvent::Pay { .. } => "pay"@,
        InvoiceEvent::Void => "void"@,
    }
}

impl InvoiceEvent {
    /// Audit tag written to the history row.
    pub fn tag(&self) -> (r: &'static str)
        ensures
            r@ == invoice_event_tag_text(*self),
    {
        match self {
            InvoiceEvent::Issue => "issue",
            InvoiceEvent::Send => "send",
            InvoiceEvent::Remind => "remind",
            InvoiceEvent::View => "view",
            InvoiceEvent::Pay { .. } => "pay",
            InvoiceEvent::Void => "void",
        }
    }
}

} // verus!
