//! Recurring schedules: creation checks, pause/cancel (cancel is
//! terminal) and what one ticker run does to a due schedule.

use vstd::prelude::*;
use crate::commands::ctx::{audit_text, history_channel_of, Actor, Channel};
use crate::bus::consumer::DEFAULT_SELLER_JURISDICTION;
use crate::bus::events::{ScheduleCancelled, ScheduleCreated};
use crate::commands::draft::{validation_outcome, DraftInvoiceInput, DraftLineInput};
use crate::commands::error::CoreError;
use crate::domain::{
    date_before, date_display, history_channel_str, history_channel_text, schedule_state_str,
    schedule_state_text, valid_date, CalendarDate, Money, ScheduleState,
};
use crate::text::{append_chars, decimal_chars, push_str_chars, string_from_chars, u64_to_decimal};

verus! {

/// One template line of a schedule.
#[derive(Debug, Clone, PartialEq, Eq)]
pub struct ScheduleLineInput {
    /// Description.
    pub description: String,
    /// Quantity (must be > 0).
    pub quantity: Money,
    /// Unit price (must be > 0).
    pub unit_price: Money,
    /// Tax category name.
    pub tax_category: String,
}

/// Input of the schedule-create command.
#[derive(Debug, Clone, PartialEq, Eq)]
pub struct ScheduleCreateInput {
    /// Customer billed.
    pub customer_id: String,
    /// Lines copied onto every generated invoice (at least one).
    pub template_lines: Vec<ScheduleLineInput>,
    /// ISO 4217 currency code.
    pub currency: String,
    /// Cadence text (`monthly`, ...).
    pub cadence: String,
    /// First run date.
    pub start_date: CalendarDate,
    /// Last date a run may fall on.
    pub end_date: Option<CalendarDate>,
    /// Issue each generated draft immediately.
    pub auto_issue: bool,
    /// Who triggered.
    pub actor: Actor,
    /// Channel.
    pub channel: Channel,
}

/// Why template line `i` is rejected, if it is.
pub open spec fn schedule_line_error(i: nat, l: ScheduleLineInput) -> Option<Seq<char>> {
    if l.quantity.mantissa <= 0 {
        Some("line "@ + decimal_chars(i) + ": quantity must be > 0"@)
    } else if l.unit_price.mantissa <= 0 {
        Some("line "@ + decimal_chars(i) + ": unit_price must be > 0"@)
    } else {
        None
    }
}

/// The first rejected template line at index `k` or later.
pub open spec fn schedule_lines_error_from(lines: Seq<ScheduleLineInput>, k: int) -> Option<Seq<char>>
    decreases lines.len() - k,
{
    if k < 0 || k >= lines.len() {
        None
    } else {
        match schedule_line_error(k as nat, lines[k]) {
            Some(m) => Some(m),
            None => schedule_lines_error_from(lines, k + 1),
        }
    }
}

/// The validation message for a schedule input, or `None` when valid.
pub open spec fn schedule_validation_error(input: ScheduleCreateInput) -> Option<Seq<char>> {
    if input.template_lines@.len() == 0 {
        Some("schedule must have at least one template line"@)
    } else {
        match schedule_lines_error_from(input.template_lines@, 0) {
            Some(m) => Some(m),
            None => match input.end_date {
                Some(end) => if date_before(end, input.start_date) {
                    Some("end_date must be >= start_date"@)
                } else {
                    None
                },
                None => None,
            },
        }
    }
}

impl ScheduleCreateInput {
    /// At least one template line, each with a positive quantity and a
    /// positive unit price, and an end date (if any) not before the
    /// start date. The first failure is reported.
    pub fn validate(&self) -> (r: Result<(), CoreError>)
        ensures
            validation_outcome(schedule_validation_error(*self), r),
    {
        if self.template_lines.len() == 0 {
            return Err(
                CoreError::Validation("schedule must have at least one template line".to_string()),
            );
        }
        let mut i: usize = 0;
        while i < self.template_lines.len()
            invariant
                i <= self.template_lines@.len(),
                schedule_lines_error_from(self.template_lines@, 0) == schedule_lines_error_from(
                    self.template_lines@,
                    i as int,
                ),
            decreases self.template_lines.len() - i,
        {
            let l = &self.template_lines[i];
            let bad_qty = !l.quantity.is_positive();
            let bad_price = !l.unit_price.is_positive();
            if bad_qty || bad_price {
                let mut v: Vec<char> = Vec::new();
                push_str_chars(&mut v, "line ");
                let n = u64_to_decimal(i as u64);
                append_chars(&mut v, &n);
                if bad_qty {
                    push_str_chars(&mut v, ": quantity must be > 0");
                } else {
                    push_str_chars(&mut v, ": unit_price must be > 0");
                }
                return Err(CoreError::Validation(string_from_chars(&v)));
            }
            i = i + 1;
        }
        if let Some(end) = self.end_date {
            if end.is_before(&self.start_date) {
                return Err(CoreError::Validation("end_date must be >= start_date".to_string()));
            }
        }
        Ok(())
    }
}

/// `{:?}` of a schedule state (`Active`, `Paused`, `Cancelled`).
pub open spec fn schedule_state_debug(s: ScheduleState) -> Seq<char> {
    match s {
        ScheduleState::Active => "Active"@,
        ScheduleState::Paused => "Paused"@,
        ScheduleState::Cancelled => "Cancelled"@,
    }
}

fn schedule_state_debug_str(s: ScheduleState) -> (r: &'static str)
    ensures
        r@ == schedule_state_debug(s),
{
    match s {
        ScheduleState::Active => "Active",
        ScheduleState::Paused => "Paused",
        ScheduleState::Cancelled => "Cancelled",
    }
}

/// What a pause or cancel answers: a cancelled schedule can only be
/// cancelled again; anything else moves to the requested state.
pub open spec fn state_change_outcome(
    current: ScheduleState,
    to: ScheduleState,
    schedule_id: Seq<char>,
    r: Result<ScheduleState, CoreError>,
) -> bool {
    if current == ScheduleState::Cancelled && to != ScheduleState::Cancelled {
        r matches Err(CoreError::Validation(m)) && m@ == "schedule "@ + schedule_id
            + " is cancelled (terminal); cannot transition to "@ + schedule_state_debug(to)
    } else {
        r == Ok::<ScheduleState, CoreError>(to)
    }
}

/// Move a schedule from `current` to `to` (pause or cancel).
pub fn schedule_state_change(current: ScheduleState, to: ScheduleState, schedule_id: &str) -> (r:
    Result<ScheduleState, CoreError>)
    ensures
        state_change_outcome(current, to, schedule_id@, r),
{
    if current == ScheduleState::Cancelled && to != ScheduleState::Cancelled {
        let mut v: Vec<char> = Vec::new();
        push_str_chars(&mut v, "schedule ");
        push_str_chars(&mut v, schedule_id);
        push_str_chars(&mut v, " is cancelled (terminal); cannot transition to ");
        push_str_chars(&mut v, schedule_state_debug_str(to));
        return Err(CoreError::Validation(string_from_chars(&v)));
    }
    Ok(to)
}

/// Cancellation is terminal: from `Cancelled`, every requested change
/// either fails or leaves the schedule `Cancelled`.
pub proof fn cancelled_is_terminal(to: ScheduleState, schedule_id: Seq<char>, r: Result<ScheduleState, CoreError>)
    requires
        state_change_outcome(ScheduleState::Cancelled, to, schedule_id, r),
    ensures
        r matches Ok(s) ==> s == ScheduleState::Cancelled,
{
}

/// The ticker's view of a schedule: what one run reads and updates.
#[derive(Debug, Clone, Copy, PartialEq, Eq, Structural)]
pub struct ScheduleRun {
    /// Lifecycle state.
    pub state: ScheduleState,
    /// Date of the next run.
    pub next_run: CalendarDate,
    /// Date of the previous run.
    pub last_run: Option<CalendarDate>,
    /// Last date a run may fall on.
    pub end_date: Option<CalendarDate>,
}

/// One ticker run of a due schedule: the run date becomes `last_run`,
/// `next_run` moves to `advanced` (the cadence's next date), and when that
/// passes `end_date` the schedule is cancelled. Returns whether it was.
pub fn advance_schedule(s: &mut ScheduleRun, advanced: CalendarDate) -> (cancelled: bool)
    ensures
        final(s).last_run == Some(old(s).next_run),
        final(s).next_run == advanced,
        final(s).end_date == old(s).end_date,
        cancelled == match old(s).end_date {
            Some(end) => date_before(end, advanced),
            None => false,
        },
        final(s).state == if cancelled {
            ScheduleState::Cancelled
        } else {
            old(s).state
        },
{
    s.last_run = Some(s.next_run);
    s.next_run = advanced;
    let mut cancelled = false;
    if let Some(end) = s.end_date {
        if end.is_before(&advanced) {
            s.state = ScheduleState::Cancelled;
            cancelled = true;
        }
    }
    cancelled
}

/// Only active schedules run on a tick.
pub fn runs_on_tick(state: ScheduleState) -> (r: bool)
    ensures
        r == (state == ScheduleState::Active),
{
    state == ScheduleState::Active
}

/// `schedule:{id}:run:{date}`: the draft's idempotency key, so a run that
/// is retried for the same date never creates a second invoice.
pub fn schedule_run_key(schedule_id: &str, run_date: &CalendarDate) -> (s: String)
    requires
        valid_date(*run_date),
    ensures
        s@ == "schedule:"@ + schedule_id@ + ":run:"@ + date_display(
            run_date.year,
            run_date.month,
            run_date.day,
        ),
{
    let mut v: Vec<char> = Vec::new();
    push_str_chars(&mut v, "schedule:");
    push_str_chars(&mut v, schedule_id);
    push_str_chars(&mut v, ":run:");
    let d = run_date.to_text();
    push_str_chars(&mut v, d.as_str());
    string_from_chars(&v)
}


/// A template line as a draft line.
pub open spec fn template_as_draft_line(t: ScheduleLineInput, d: DraftLineInput) -> bool {
    &&& d.description@ == t.description@
    &&& d.quantity == t.quantity
    &&& d.unit_price == t.unit_price
    &&& d.tax_category@ == t.tax_category@
}

/// The draft a due schedule materialises: its customer, currency and
/// template lines, the default seller jurisdiction, the run key as
/// idempotency key, run by the scheduler on the bus.
pub fn schedule_draft_input(
    schedule_id: &str,
    customer_id: &str,
    currency: &str,
    template_lines: &Vec<ScheduleLineInput>,
    run_date: &CalendarDate,
) -> (d: DraftInvoiceInput)
    requires
        valid_date(*run_date),
    ensures
        d.customer_id@ == customer_id@,
        d.currency@ == currency@,
        d.seller_jurisdiction@ == DEFAULT_SELLER_JURISDICTION@,
        d.lines@.len() == template_lines@.len(),
        forall|i: int|
            0 <= i < template_lines@.len() ==> template_as_draft_line(
                template_lines@[i],
                #[trigger] d.lines@[i],
            ),
        d.idempotency_key matches Some(k) && k@ == "schedule:"@ + schedule_id@ + ":run:"@
            + date_display(run_date.year, run_date.month, run_date.day),
        d.actor matches Actor::Bus { source } && source@ == "inv.scheduler"@,
        d.channel == Channel::Bus,
        d.due_at is None,
        d.template_path is None,
        d.schedule_id matches Some(s) && s@ == schedule_id@,
{
    let mut lines: Vec<DraftLineInput> = Vec::new();
    let mut i: usize = 0;
    while i < template_lines.len()
        invariant
            i <= template_lines@.len(),
            lines@.len() == i,
            forall|j: int|
                0 <= j < i ==> template_as_draft_line(template_lines@[j], #[trigger] lines@[j]),
        decreases template_lines.len() - i,
    {
        let t = &template_lines[i];
        lines.push(
            DraftLineInput {
                description: t.description.clone(),
                quantity: t.quantity,
                unit_price: t.unit_price,
                tax_category: t.tax_category.clone(),
            },
        );
        i = i + 1;
    }
    DraftInvoiceInput {
        customer_id: customer_id.to_string(),
        seller_jurisdiction: DEFAULT_SELLER_JURISDICTION.to_string(),
        currency: currency.to_string(),
        lines,
        idempotency_key: Some(schedule_run_key(schedule_id, run_date)),
        actor: Actor::Bus { source: "inv.scheduler".to_string() },
        channel: Channel::Bus,
        due_at: None,
        template_path: None,
        schedule_id: Some(schedule_id.to_string()),
    }
}

/// The `schedule.cancelled` payload of a schedule whose end date passed.
pub fn end_date_cancelled_event(schedule_id: &str) -> (e: ScheduleCancelled)
    ensures
        e.schedule_id@ == schedule_id@,
        e.state@ == "cancelled"@,
        e.reason matches Some(r) && r@ == "end_date_reached"@,
{
    ScheduleCancelled {
        schedule_id: schedule_id.to_string(),
        state: "cancelled".to_string(),
        reason: Some("end_date_reached".to_string()),
    }
}


/// Payload of `schedule.paused` / `schedule.cancelled` after a state change.
#[derive(Debug, Clone, PartialEq, Eq)]
pub struct ScheduleStateEvent {
    /// Dotted topic.
    pub topic: String,
    /// Schedule id.
    pub schedule_id: String,
    /// New state (lower-case name).
    pub state: String,
    /// Actor audit string.
    pub actor: String,
    /// Channel.
    pub channel: String,
}

/// The event a pause or cancel publishes: `inv.billing.schedule.{tag}`
/// with the schedule's new state, actor and channel.
pub fn schedule_state_event(schedule_id: &str, tag: &str, state: ScheduleState, actor: &Actor, channel: Channel) -> (e:
    ScheduleStateEvent)
    ensures
        e.topic@ == "inv.billing.schedule."@ + tag@,
        e.schedule_id@ == schedule_id@,
        e.state@ == schedule_state_text(state),
        e.actor@ == audit_text(*actor),
        e.channel@ == history_channel_text(history_channel_of(channel)),
{
    let mut t: Vec<char> = Vec::new();
    push_str_chars(&mut t, "inv.billing.schedule.");
    push_str_chars(&mut t, tag);
    ScheduleStateEvent {
        topic: string_from_chars(&t),
        schedule_id: schedule_id.to_string(),
        state: schedule_state_str(state).to_string(),
        actor: actor.audit_string(),
        channel: history_channel_str(channel.history_channel()).to_string(),
    }
}


/// The `schedule.created` payload of a new schedule.
pub fn schedule_created_event(schedule_id: &str, input: &ScheduleCreateInput) -> (e: ScheduleCreated)
    ensures
        e.schedule_id@ == schedule_id@,
        e.customer_id@ == input.customer_id@,
        e.cadence@ == input.cadence@,
        e.currency@ == input.currency@,
        e.auto_issue == input.auto_issue,
        e.start_date == input.start_date,
        e.actor@ == audit_text(input.actor),
        e.channel@ == history_channel_text(history_channel_of(input.channel)),
{
    ScheduleCreated {
        schedule_id: schedule_id.to_string(),
        customer_id: input.customer_id.clone(),
        cadence: input.cadence.clone(),
        currency: input.currency.clone(),
        auto_issue: input.auto_issue,
        start_date: input.start_date,
        actor: input.actor.audit_string(),
        channel: history_channel_str(input.channel.history_channel()).to_string(),
    }
}

/// A new schedule's ticker state: active, first run on the start date,
/// never run yet.
pub fn new_schedule_run(input: &ScheduleCreateInput) -> (r: ScheduleRun)
    ensures
        r.state == ScheduleState::Active,
        r.next_run == input.start_date,
        r.last_run is None,
        r.end_date == input.end_date,
{
    ScheduleRun { state: ScheduleState::Active, next_run: input.start_date, last_run: None, end_date: input.end_date }
}


/// What one ticker run of a due schedule does.
#[derive(Debug, Clone, PartialEq, Eq)]
pub struct ScheduleRunPlan {
    /// The draft to materialise.
    pub draft: DraftInvoiceInput,
    /// Issue the draft right away (`auto_issue`).
    pub issue: bool,
    /// The `schedule.cancelled` event, when the run passed the end date.
    pub cancelled: Option<ScheduleCancelled>,
}

/// One ticker run of a due schedule: an inactive schedule is skipped and
/// left as it is; an active one materialises a draft for its run date
/// (issued at once under `auto_issue`), then moves its next run to
/// `advanced` (the cadence's next date) and is cancelled, with an event,
/// when that passes its end date.
pub fn plan_schedule_run(
    schedule_id: &str,
    customer_id: &str,
    currency: &str,
    template_lines: &Vec<ScheduleLineInput>,
    auto_issue: bool,
    run: &mut ScheduleRun,
    advanced: CalendarDate,
) -> (p: Option<ScheduleRunPlan>)
    requires
        valid_date(old(run).next_run),
    ensures
        old(run).state != ScheduleState::Active ==> (p is None && *final(run) == *old(run)),
        old(run).state == ScheduleState::Active ==> (p matches Some(plan) && {
            &&& plan.draft.idempotency_key matches Some(k) && k@ == "schedule:"@ + schedule_id@
                + ":run:"@ + date_display(
                old(run).next_run.year,
                old(run).next_run.month,
                old(run).next_run.day,
            )
            &&& plan.draft.customer_id@ == customer_id@
            &&& plan.draft.currency@ == currency@
            &&& plan.draft.seller_jurisdiction@ == DEFAULT_SELLER_JURISDICTION@
            &&& plan.draft.actor matches Actor::Bus { source } && source@ == "inv.scheduler"@
            &&& plan.draft.channel == Channel::Bus
            &&& plan.draft.due_at is None
            &&& plan.draft.template_path is None
            &&& plan.draft.schedule_id matches Some(s) && s@ == schedule_id@
            &&& plan.draft.lines@.len() == template_lines@.len()
            &&& forall|i: int|
                0 <= i < template_lines@.len() ==> template_as_draft_line(
                    template_lines@[i],
                    #[trigger] plan.draft.lines@[i],
                )
            &&& plan.issue == auto_issue
            &&& final(run).last_run == Some(old(run).next_run)
            &&& final(run).next_run == advanced
            &&& final(run).end_date == old(run).end_date
            &&& match old(run).end_date {
                Some(end) if date_before(end, advanced) => {
                    &&& final(run).state == ScheduleState::Cancelled
                    &&& plan.cancelled matches Some(e) && e.schedule_id@ == schedule_id@
                        && e.state@ == "cancelled"@ && (e.reason matches Some(why) && why@
                        == "end_date_reached"@)
                },
                _ => final(run).state == ScheduleState::Active && plan.cancelled is None,
            }
        }),
{
    if !runs_on_tick(run.state) {
        return None;
    }
    let draft = schedule_draft_input(schedule_id, customer_id, currency, template_lines, &run.next_run);
    let cancelled = if advance_schedule(run, advanced) {
        Some(end_date_cancelled_event(schedule_id))
    } else {
        None
    };
    Some(ScheduleRunPlan { draft, issue: auto_issue, cancelled })
}

} // verus!
