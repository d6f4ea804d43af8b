//! Reminders: scheduling checks, cancellation and dispatch by the ticker.
//! A reminder leaves `Scheduled` at most once: either it is cancelled or
//! the ticker marks it sent.

use vstd::prelude::*;
use crate::commands::ctx::{audit_text, instant_before, utc_display, Actor, Channel, UtcInstant};
use crate::commands::error::CoreError;
use crate::bus::events::{ReminderCancelled, ReminderScheduled, ReminderSent};
use crate::domain::{reminder_channel_str, reminder_channel_text, ReminderChannel, ReminderState};
use crate::text::{push_str_chars, string_from_chars};

verus! {

/// A reminder as the ticker and the cancel command see it.
#[derive(Debug, Clone, PartialEq, Eq)]
pub struct Reminder {
    /// Reminder id.
    pub id: String,
    /// Invoice it reminds about.
    pub invoice_id: String,
    /// When it is due.
    pub scheduled_at: UtcInstant,
    /// When it was dispatched.
    pub sent_at: Option<UtcInstant>,
    /// Delivery scheme.
    pub channel: ReminderChannel,
    /// State.
    pub state: ReminderState,
}

/// Input of the reminder-schedule command.
#[derive(Debug, Clone, PartialEq, Eq)]
pub struct ReminderScheduleInput {
    /// Invoice to remind about.
    pub invoice_id: String,
    /// When the reminder should fire; must be after now.
    pub scheduled_at: UtcInstant,
    /// Delivery scheme.
    pub channel_scheme: ReminderChannel,
    /// Who triggered.
    pub actor: Actor,
    /// Channel.
    pub channel: Channel,
}

/// A reminder must be scheduled strictly after `now`.
pub open spec fn reminder_schedule_outcome(scheduled_at: UtcInstant, now: UtcInstant, r: Result<(), CoreError>) -> bool {
    if !instant_before(now, scheduled_at) {
        r matches Err(CoreError::Validation(m)) && m@ == "scheduled_at must be in the future; got "@
            + utc_display(scheduled_at.secs, scheduled_at.nanos) + " (now: "@ + utc_display(
            now.secs,
            now.nanos,
        ) + ")"@
    } else {
        r is Ok
    }
}

impl ReminderScheduleInput {
    /// `scheduled_at` must lie strictly after `now`.
    pub fn validate(&self, now: UtcInstant) -> (r: Result<(), CoreError>)
        requires
            self.scheduled_at.displayable(),
            now.displayable(),
        ensures
            reminder_schedule_outcome(self.scheduled_at, now, r),
    {
        if !now.is_before(&self.scheduled_at) {
            let mut v: Vec<char> = Vec::new();
            push_str_chars(&mut v, "scheduled_at must be in the future; got ");
            let a = self.scheduled_at.to_text();
            push_str_chars(&mut v, a.as_str());
            push_str_chars(&mut v, " (now: ");
            let b = now.to_text();
            push_str_chars(&mut v, b.as_str());
            push_str_chars(&mut v, ")");
            return Err(CoreError::Validation(string_from_chars(&v)));
        }
        Ok(())
    }

    /// The reminder this input schedules: `Scheduled`, not yet sent.
    pub fn to_reminder(&self, id: String) -> (r: Reminder)
        ensures
            r.id@ == id@,
            r.invoice_id@ == self.invoice_id@,
            r.scheduled_at == self.scheduled_at,
            r.sent_at is None,
            r.channel == self.channel_scheme,
            r.state == ReminderState::Scheduled,
    {
        Reminder {
            id,
            invoice_id: self.invoice_id.clone(),
            scheduled_at: self.scheduled_at,
            sent_at: None,
            channel: self.channel_scheme,
            state: ReminderState::Scheduled,
        }
    }
}

/// State after a cancel: `Scheduled` becomes `Cancelled`, others stay.
pub open spec fn after_cancel(s: ReminderState) -> ReminderState {
    if s == ReminderState::Scheduled {
        ReminderState::Cancelled
    } else {
        s
    }
}

/// State after a tick reaches a due reminder: `Scheduled` becomes
/// `Sent`, others stay.
pub open spec fn after_dispatch(s: ReminderState) -> ReminderState {
    if s == ReminderState::Scheduled {
        ReminderState::Sent
    } else {
        s
    }
}

/// Cancel a reminder: only a `Scheduled` one changes (to `Cancelled`);
/// a sent or already-cancelled one is left as it is. Returns whether it
/// changed (and must be saved).
pub fn cancel_reminder(r: &mut Reminder) -> (changed: bool)
    ensures
        changed == (old(r).state == ReminderState::Scheduled),
        final(r).state == after_cancel(old(r).state),
        final(r).sent_at == old(r).sent_at,
        final(r).scheduled_at == old(r).scheduled_at,
        final(r).id == old(r).id,
        final(r).invoice_id == old(r).invoice_id,
        final(r).channel == old(r).channel,
{
    if r.state == ReminderState::Scheduled {
        r.state = ReminderState::Cancelled;
        true
    } else {
        false
    }
}

/// Dispatch a due reminder on a tick: a `Scheduled` one becomes `Sent`
/// at `now`; any other is skipped. Returns whether it was dispatched.
pub fn dispatch_reminder(r: &mut Reminder, now: UtcInstant) -> (sent: bool)
    ensures
        sent == (old(r).state == ReminderState::Scheduled),
        final(r).state == after_dispatch(old(r).state),
        final(r).sent_at == if sent {
            Some(now)
        } else {
            old(r).sent_at
        },
        final(r).scheduled_at == old(r).scheduled_at,
        final(r).id == old(r).id,
        final(r).invoice_id == old(r).invoice_id,
        final(r).channel == old(r).channel,
{
    if r.state == ReminderState::Scheduled {
        r.state = ReminderState::Sent;
        r.sent_at = Some(now);
        true
    } else {
        false
    }
}

/// A reminder leaves `Scheduled` once: a second tick sends nothing more,
/// a cancelled reminder is never sent, and a sent one cannot be
/// cancelled.
pub proof fn reminder_leaves_scheduled_once(s: ReminderState)
    ensures
        after_dispatch(after_dispatch(s)) == after_dispatch(s),
        after_dispatch(after_cancel(s)) == after_cancel(s),
        after_cancel(after_dispatch(s)) == after_dispatch(s),
        after_cancel(after_cancel(s)) == after_cancel(s),
{
}


/// The `reminder.sent` payload of a dispatched reminder: its id, invoice,
/// delivery scheme and the dispatch time.
pub fn reminder_sent_event(r: &Reminder, now: UtcInstant) -> (e: ReminderSent)
    ensures
        e.reminder_id@ == r.id@,
        e.invoice_id@ == r.invoice_id@,
        e.channel@ == reminder_channel_text(r.channel),
        e.sent_at == now,
{
    ReminderSent {
        reminder_id: r.id.clone(),
        invoice_id: r.invoice_id.clone(),
        channel: reminder_channel_str(r.channel).to_string(),
        sent_at: now,
    }
}


/// The `reminder.scheduled` payload of a new reminder.
pub fn reminder_scheduled_event(r: &Reminder, actor: &Actor) -> (e: ReminderScheduled)
    ensures
        e.reminder_id@ == r.id@,
        e.invoice_id@ == r.invoice_id@,
        e.due_at == r.scheduled_at,
        e.channel@ == reminder_channel_text(r.channel),
        e.actor@ == audit_text(*actor),
{
    ReminderScheduled {
        reminder_id: r.id.clone(),
        invoice_id: r.invoice_id.clone(),
        due_at: r.scheduled_at,
        channel: reminder_channel_str(r.channel).to_string(),
        actor: actor.audit_string(),
    }
}

/// The `reminder.cancelled` payload.
pub fn reminder_cancelled_event(r: &Reminder, actor: &Actor) -> (e: ReminderCancelled)
    ensures
        e.reminder_id@ == r.id@,
        e.invoice_id@ == r.invoice_id@,
        e.reason is None,
        e.actor@ == audit_text(*actor),
{
    ReminderCancelled {
        reminder_id: r.id.clone(),
        invoice_id: r.invoice_id.clone(),
        reason: None,
        actor: actor.audit_string(),
    }
}


/// A reminder is due on a tick at `now`: still scheduled, and its time
/// is not after `now`.
pub open spec fn reminder_due(r: Reminder, now: UtcInstant) -> bool {
    r.state == ReminderState::Scheduled && !instant_before(now, r.scheduled_at)
}

/// When a reminder is due, over the clock's (seconds, nanoseconds)
/// reading: only a scheduled reminder is; one scheduled for a later
/// second than `now`, or for the same second with more nanoseconds, is
/// not yet due; one scheduled for an earlier second, or for `now` itself,
/// is; and once due it stays due at every later reading.
pub proof fn reminder_due_law(r: Reminder, now: UtcInstant, later: UtcInstant)
    ensures
        reminder_due(r, now) ==> r.state == ReminderState::Scheduled,
        r.scheduled_at.secs > now.secs ==> !reminder_due(r, now),
        r.scheduled_at.secs == now.secs && r.scheduled_at.nanos > now.nanos ==> !reminder_due(
            r,
            now,
        ),
        r.state == ReminderState::Scheduled ==> {
            &&& r.scheduled_at.secs < now.secs ==> reminder_due(r, now)
            &&& r.scheduled_at.secs == now.secs && r.scheduled_at.nanos <= now.nanos
                ==> reminder_due(r, now)
            &&& r.scheduled_at == now ==> reminder_due(r, now)
        },
        reminder_due(r, now) && (now.secs < later.secs || (now.secs == later.secs && now.nanos
            <= later.nanos)) ==> reminder_due(r, later),
{
}

/// Positions among the first `n` reminders that are due at `now`, in order.
pub open spec fn due_positions(rs: Seq<Reminder>, now: UtcInstant, n: int) -> Seq<int>
    decreases n,
{
    if n <= 0 {
        Seq::empty()
    } else {
        let before = due_positions(rs, now, n - 1);
        if reminder_due(rs[n - 1], now) {
            before.push(n - 1)
        } else {
            before
        }
    }
}

/// `after` is `before` once a tick at `now` has reached it.
pub open spec fn ticked(before: Reminder, after: Reminder, now: UtcInstant) -> bool {
    &&& after.id@ == before.id@
    &&& after.invoice_id@ == before.invoice_id@
    &&& after.scheduled_at == before.scheduled_at
    &&& after.channel == before.channel
    &&& if reminder_due(before, now) {
        after.state == ReminderState::Sent && after.sent_at == Some(now)
    } else {
        after.state == before.state && after.sent_at == before.sent_at
    }
}

/// `e` is the `reminder.sent` payload of `r` dispatched at `now`.
pub open spec fn sent_event_of(e: ReminderSent, r: Reminder, now: UtcInstant) -> bool {
    e.reminder_id@ == r.id@ && e.invoice_id@ == r.invoice_id@ && e.channel@ == reminder_channel_text(
        r.channel,
    ) && e.sent_at == now
}

/// One reminders tick at `now`: every scheduled reminder whose time has
/// come is marked sent at `now` and yields one `reminder.sent` event, in
/// order; every other reminder is left as it is.
pub fn reminders_tick(reminders: &Vec<Reminder>, now: UtcInstant) -> (out: (Vec<Reminder>, Vec<ReminderSent>))
    ensures
        out.0@.len() == reminders@.len(),
        forall|i: int| 0 <= i < reminders@.len() ==> ticked(reminders@[i], #[trigger] out.0@[i], now),
        out.1@.len() == due_positions(reminders@, now, reminders@.len() as int).len(),
        forall|k: int|
            0 <= k < out.1@.len() ==> sent_event_of(
                #[trigger] out.1@[k],
                reminders@[due_positions(reminders@, now, reminders@.len() as int)[k]],
                now,
            ),
{
    let mut after: Vec<Reminder> = Vec::new();
    let mut events: Vec<ReminderSent> = Vec::new();
    let mut i: usize = 0;
    while i < reminders.len()
        invariant
            i <= reminders@.len(),
            after@.len() == i,
            forall|j: int| 0 <= j < i ==> ticked(reminders@[j], #[trigger] after@[j], now),
            events@.len() == due_positions(reminders@, now, i as int).len(),
            forall|k: int|
                0 <= k < events@.len() ==> sent_event_of(
                    #[trigger] events@[k],
                    reminders@[due_positions(reminders@, now, i as int)[k]],
                    now,
                ),
        decreases reminders.len() - i,
    {
        let r = &reminders[i];
        let mut copy = Reminder {
            id: r.id.clone(),
            invoice_id: r.invoice_id.clone(),
            scheduled_at: r.scheduled_at,
            sent_at: r.sent_at,
            channel: r.channel,
            state: r.state,
        };
        let ghost old_events = events@;
        let due = r.state == ReminderState::Scheduled && !now.is_before(&r.scheduled_at);
        if due {
            dispatch_reminder(&mut copy, now);
            let e = reminder_sent_event(r, now);
            events.push(e);
            proof {
                assert forall|k: int| 0 <= k < events@.len() implies sent_event_of(
                    #[trigger] events@[k],
                    reminders@[due_positions(reminders@, now, i + 1)[k]],
                    now,
                ) by {
                    if k < old_events.len() {
                        assert(events@[k] == old_events[k]);
                    }
                }
            }
        } else {
            assert(due_positions(reminders@, now, i + 1) == due_positions(reminders@, now, i as int));
        }
        after.push(copy);
        i = i + 1;
    }
    (after, events)
}

/// Ticking again at the same time sends nothing more: after a tick no
/// reminder is due at that time.
pub proof fn tick_leaves_nothing_due(before: Reminder, after: Reminder, now: UtcInstant)
    requires
        ticked(before, after, now),
    ensures
        !reminder_due(after, now),
{
}

} // verus!
