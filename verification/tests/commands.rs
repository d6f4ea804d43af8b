use inv::commands::credit::CreateCreditNoteInput;
use inv::commands::ctx::{Actor, Channel, Clock, SystemClock, UtcInstant};
use inv::commands::draft::{
    draft_history_row, drafted_event, is_supported_currency, DraftInvoiceInput, DraftLineInput,
};
use inv::commands::error::{CoreError, TransitionError};
use inv::commands::issue::{IssueCreditNoteInput, IssueInvoiceInput, VoidInvoiceInput};
use inv::commands::lifecycle::{credit_note_issue_row, transition_row};
use inv::commands::number::{
    count_to_u32, credit_note_number, invoice_number, issue_year_window, padded_int,
};
use inv::commands::overdue::{awaiting_payment_states, is_overdue, overdue_positions};
use inv::commands::pay::{payment_time, settles_invoice, MarkPaidInput};
use inv::commands::reminder::{cancel_reminder, dispatch_reminder, Reminder, ReminderScheduleInput};
use inv::commands::schedule::{
    advance_schedule, end_date_cancelled_event, runs_on_tick, schedule_draft_input,
    schedule_run_key, schedule_state_change, ScheduleCreateInput, ScheduleLineInput, ScheduleRun,
};
use inv::commands::send::{
    deliver_to_sink, file_delivered_to, file_path_from_uri, local_scheme, scheme_of,
    send_target_state, LocalScheme, SendInvoiceInput, SendSink, StdoutSink,
};
use inv::bus::outbox::invoice_row_to_events;
use inv::domain::{
    CalendarDate, CreditNoteState, HistoryChannel, InvoiceEvent, InvoiceState, Money,
    ReminderChannel, ReminderState, ScheduleState,
};

fn cli() -> Actor {
    Actor::Cli { name: "jad".into() }
}

fn m(mantissa: i128, scale: u32) -> Money {
    Money { mantissa, scale }
}

fn line(desc: &str, q: Money, p: Money) -> DraftLineInput {
    DraftLineInput { description: desc.into(), quantity: q, unit_price: p, tax_category: "standard".into() }
}

fn draft(currency: &str, lines: Vec<DraftLineInput>) -> DraftInvoiceInput {
    DraftInvoiceInput {
        customer_id: "customer_1".into(),
        seller_jurisdiction: "CA-QC".into(),
        currency: currency.into(),
        lines,
        idempotency_key: None,
        actor: cli(),
        channel: Channel::Cli,
        due_at: None,
        template_path: None,
        schedule_id: None,
    }
}

fn validation(msg: &str) -> Result<(), CoreError> {
    Err(CoreError::Validation(msg.into()))
}

#[test]
fn draft_validation_rejects_empty_lines_input() {
    assert_eq!(draft("CAD", vec![]).validate(), validation("draft_invoice requires at least one line"));
}

#[test]
fn draft_validation_rejects_unsupported_currency_input() {
    let d = draft("EUR", vec![line("x", m(1, 0), m(1, 0))]);
    assert_eq!(d.validate(), validation("currency EUR not supported at v1 (use USD, CAD, or DZD)"));
}

#[test]
fn draft_validation_rejects_zero_quantity_input() {
    let d = draft("CAD", vec![line("ok", m(1, 0), m(0, 0)), line("x", m(0, 0), m(1, 0))]);
    assert_eq!(d.validate(), validation("line 1: quantity must be > 0 (got 0)"));
}

#[test]
fn draft_validation_reports_first_failure() {
    let d = draft("USD", vec![line("  ", m(1, 0), m(1, 0))]);
    assert_eq!(d.validate(), validation("line 0: description must not be empty"));
    let d = draft("DZD", vec![line("a", m(1, 0), m(-150, 2))]);
    assert_eq!(d.validate(), validation("line 0: unit_price must be >= 0 (got -1.50)"));
    let d = draft("USD", vec![line("a", m(3, 0), m(1250, 2))]);
    assert_eq!(d.validate(), Ok(()));
    assert!(is_supported_currency("CAD"));
    assert!(!is_supported_currency("cad"));
}

#[test]
fn draft_row_and_event() {
    let now = UtcInstant { secs: 100, nanos: 0 };
    let row = draft_history_row("h".into(), "inv".into(), &cli(), Channel::Api, now);
    assert_eq!(row.from_state, None);
    assert_eq!(row.to_state, InvoiceState::Draft);
    assert_eq!(row.event, "draft");
    assert_eq!(row.actor.as_deref(), Some("jad"));
    assert_eq!(row.channel, HistoryChannel::Api);
    let events = invoice_row_to_events(&row);
    assert_eq!(events.len(), 1);
    let e = drafted_event("inv", "cust", "CAD", m(10000, 2), &cli(), Channel::Cli);
    assert_eq!(e.topic, "inv.billing.invoice.drafted");
    assert_eq!(e.payload.subtotal, "100.00");
    assert_eq!(e.payload.total, "100.00");
    assert_eq!(e.payload.channel, "cli");
}

#[test]
fn mark_paid_rejects_non_positive_amount_input() {
    let mut input = MarkPaidInput {
        invoice_id: "inv".into(),
        amount: m(0, 0),
        received_at: None,
        idempotency_key: None,
        bus_event_id: None,
        actor: cli(),
        channel: Channel::Cli,
    };
    assert_eq!(input.validate(), validation("payment amount must be > 0, got 0"));
    input.amount = m(-5, 1);
    assert_eq!(input.validate(), validation("payment amount must be > 0, got -0.5"));
    input.amount = m(1, 2);
    assert_eq!(input.validate(), Ok(()));
    assert!(settles_invoice(InvoiceState::Paid));
    assert!(!settles_invoice(InvoiceState::PartiallyPaid));
    let t = UtcInstant { secs: 1, nanos: 2 };
    let now = UtcInstant { secs: 3, nanos: 4 };
    assert_eq!(payment_time(Some(t), now), t);
    assert_eq!(payment_time(None, now), now);
}

#[test]
fn credit_note_rejects_non_positive_amount_input() {
    let c = CreateCreditNoteInput {
        invoice_id: "inv".into(),
        amount: m(-1, 0),
        reason: None,
        refund_ref: None,
        idempotency_key: None,
        actor: cli(),
        channel: Channel::Cli,
    };
    assert_eq!(c.validate(), validation("credit-note amount must be > 0, got -1"));
}

#[test]
fn issue_and_void_inputs_always_validate() {
    let i = IssueInvoiceInput { invoice_id: "i".into(), idempotency_key: None, actor: cli(), channel: Channel::Cli };
    assert_eq!(i.validate(), Ok(()));
    let v = VoidInvoiceInput { invoice_id: "i".into(), reason: None, idempotency_key: None, actor: cli(), channel: Channel::Cli };
    assert_eq!(v.validate(), Ok(()));
    let c = IssueCreditNoteInput { credit_note_id: "c".into(), idempotency_key: None, actor: cli(), channel: Channel::Cli };
    assert_eq!(c.validate(), Ok(()));
}

#[test]
fn document_numbers_are_zero_padded() {
    assert_eq!(invoice_number(2026, 0), "INV-2026-0001");
    assert_eq!(invoice_number(2026, 41), "INV-2026-0042");
    assert_eq!(invoice_number(2026, 12344), "INV-2026-12345");
    assert_eq!(credit_note_number(7, 9), "CN-0007-0010");
    assert_eq!(invoice_number(-5, 0), "INV--005-0001");
    assert_eq!(padded_int(-12345, 4).into_iter().collect::<String>(), "-12345");
    let (a, b) = issue_year_window(2026);
    assert_eq!(a, "2026-01-01T00:00:00Z");
    assert_eq!(b, "2027-01-01T00:00:00Z");
    assert_eq!(count_to_u32(-3), 0);
    assert_eq!(count_to_u32(17), 17);
}

#[test]
fn transition_rows_match_outbox_replay() {
    let now = UtcInstant { secs: 7, nanos: 0 };
    let row = transition_row(
        "h".into(),
        "inv".into(),
        InvoiceState::Draft,
        InvoiceState::Issued,
        &InvoiceEvent::Issue,
        &cli(),
        Channel::Cli,
        None,
        None,
        now,
    );
    assert_eq!(row.event, "issue");
    let topics: Vec<String> = invoice_row_to_events(&row).into_iter().map(|e| e.topic).collect();
    assert_eq!(
        topics,
        vec![
            "inv.billing.invoice.proposed",
            "inv.billing.invoice.transitioned",
            "inv.billing.invoice.entered",
            "inv.billing.invoice.issued"
        ]
    );
    let cn = credit_note_issue_row("h".into(), "cn".into(), CreditNoteState::Draft, CreditNoteState::Issued, &cli(), Channel::Ws, now);
    assert_eq!(cn.event, "issue");
    assert_eq!(cn.channel, HistoryChannel::Ws);
}

#[test]
fn send_scheme_and_paths() {
    assert_eq!(scheme_of("FILE:///tmp/x"), "file");
    assert_eq!(scheme_of("stdout"), "stdout");
    assert_eq!(scheme_of("Webhook://h"), "webhook");
    assert_eq!(scheme_of("nothing-here"), "nothing-here");
    assert_eq!(file_path_from_uri("file:///tmp/a.pdf"), Ok("/tmp/a.pdf".to_string()));
    assert_eq!(
        file_path_from_uri("file://"),
        Err(CoreError::Validation("file URI: empty path component".into()))
    );
    assert_eq!(
        file_path_from_uri("/tmp/a"),
        Err(CoreError::Validation("file URI: missing `file://` prefix: /tmp/a".into()))
    );
    assert_eq!(file_delivered_to("/tmp/a.pdf"), "file:///tmp/a.pdf");
}

#[test]
fn send_unsupported_scheme_returns_not_implemented_check() {
    assert_eq!(local_scheme("file:///x"), Ok(LocalScheme::File));
    assert_eq!(local_scheme("stdout"), Ok(LocalScheme::Stdout));
    assert_eq!(
        local_scheme("bus://topic"),
        Err(CoreError::NotImplemented(
            "send_invoice: bus:// dispatch must go through send_invoice_render + an adapter-owned transport".into()
        ))
    );
    assert_eq!(
        local_scheme("gopher://x"),
        Err(CoreError::Validation("send_invoice: unknown destination scheme `gopher`".into()))
    );
}

#[test]
fn send_target_follows_lifecycle() {
    assert_eq!(send_target_state(InvoiceState::Issued, Ok(InvoiceState::Sent)), Ok(InvoiceState::Sent));
    assert_eq!(send_target_state(InvoiceState::Sent, Ok(InvoiceState::Draft)), Ok(InvoiceState::Sent));
    assert_eq!(
        send_target_state(InvoiceState::Draft, Ok(InvoiceState::Sent)),
        Err(CoreError::FsmTransition(TransitionError::Illegal { state: InvoiceState::Draft, event: "send".into() }))
    );
    let refused = TransitionError::Illegal { state: InvoiceState::Viewed, event: "send".into() };
    assert_eq!(
        send_target_state(InvoiceState::Viewed, Err(refused.clone())),
        Err(CoreError::FsmTransition(refused))
    );
}

#[test]
fn send_stdout_writes_to_injected_sink_buffer() {
    let mut sink: Vec<u8> = Vec::new();
    assert_eq!(deliver_to_sink(Some(&mut sink), b"<html/>"), Ok("stdout".to_string()));
    assert_eq!(sink, b"<html/>".to_vec());
    assert_eq!(
        deliver_to_sink::<Vec<u8>>(None, b"x"),
        Err(CoreError::Validation("send_invoice: stdout destination requires a sink (none supplied)".into()))
    );
    let mut s = StdoutSink::new();
    assert!(s.write_all(b"").is_ok());
    let input = SendInvoiceInput {
        invoice_id: "i".into(),
        destination_uri: "   ".into(),
        idempotency_key: None,
        actor: cli(),
        channel: Channel::Cli,
    };
    assert_eq!(input.validate(), validation("destination_uri must not be empty"));
}

#[test]
fn overdue_selection() {
    let now = UtcInstant { secs: 100, nanos: 0 };
    let past = Some(UtcInstant { secs: 50, nanos: 0 });
    let future = Some(UtcInstant { secs: 150, nanos: 0 });
    assert!(is_overdue(InvoiceState::Sent, past, now));
    assert!(!is_overdue(InvoiceState::Paid, past, now));
    assert!(!is_overdue(InvoiceState::Issued, None, now));
    assert!(!is_overdue(InvoiceState::Issued, Some(now), now));
    let cands = vec![
        (InvoiceState::Issued, past),
        (InvoiceState::Viewed, future),
        (InvoiceState::PartiallyPaid, past),
        (InvoiceState::Sent, None),
        (InvoiceState::Viewed, past),
    ];
    assert!(!is_overdue(InvoiceState::PartiallyPaid, past, now));
    assert_eq!(overdue_positions(&cands, now), vec![0, 4]);
    assert_eq!(
        awaiting_payment_states(),
        vec![InvoiceState::Issued, InvoiceState::Sent, InvoiceState::Viewed]
    );
}

fn d(year: i32, month: u32, day: u32) -> CalendarDate {
    CalendarDate { year, month, day }
}

fn sched(lines: Vec<ScheduleLineInput>, start: CalendarDate, end: Option<CalendarDate>) -> ScheduleCreateInput {
    ScheduleCreateInput {
        customer_id: "c".into(),
        template_lines: lines,
        currency: "CAD".into(),
        cadence: "monthly".into(),
        start_date: start,
        end_date: end,
        auto_issue: false,
        actor: cli(),
        channel: Channel::Cli,
    }
}

fn sline(q: Money, p: Money) -> ScheduleLineInput {
    ScheduleLineInput { description: "Retainer".into(), quantity: q, unit_price: p, tax_category: "standard".into() }
}

#[test]
fn schedule_validation_rejects_empty_lines_input() {
    assert_eq!(
        sched(vec![], d(2026, 1, 1), None).validate(),
        validation("schedule must have at least one template line")
    );
}

#[test]
fn schedule_validation_rejects_end_before_start_input() {
    let s = sched(vec![sline(m(1, 0), m(1, 0))], d(2026, 2, 1), Some(d(2026, 1, 31)));
    assert_eq!(s.validate(), validation("end_date must be >= start_date"));
    let s = sched(vec![sline(m(1, 0), m(-1, 0))], d(2026, 2, 1), None);
    assert_eq!(s.validate(), validation("line 0: unit_price must be > 0"));
    let s = sched(vec![sline(m(1, 0), m(0, 2))], d(2026, 2, 1), None);
    assert_eq!(s.validate(), validation("line 0: unit_price must be > 0"));
    let s = sched(vec![sline(m(1, 0), m(1, 0))], d(2026, 2, 1), Some(d(2026, 2, 1)));
    assert_eq!(s.validate(), Ok(()));
}

#[test]
fn schedule_pause_then_cancel_states() {
    assert_eq!(schedule_state_change(ScheduleState::Active, ScheduleState::Paused, "s1"), Ok(ScheduleState::Paused));
    assert_eq!(schedule_state_change(ScheduleState::Paused, ScheduleState::Cancelled, "s1"), Ok(ScheduleState::Cancelled));
    assert_eq!(schedule_state_change(ScheduleState::Cancelled, ScheduleState::Cancelled, "s1"), Ok(ScheduleState::Cancelled));
    assert_eq!(
        schedule_state_change(ScheduleState::Cancelled, ScheduleState::Paused, "s1"),
        Err(CoreError::Validation("schedule s1 is cancelled (terminal); cannot transition to Paused".into()))
    );
}

#[test]
fn schedule_tick_advances_and_cancels_past_end() {
    let mut run = ScheduleRun { state: ScheduleState::Active, next_run: d(2026, 1, 1), last_run: None, end_date: Some(d(2026, 1, 31)) };
    assert!(runs_on_tick(run.state));
    assert!(!advance_schedule(&mut run, d(2026, 1, 15)));
    assert_eq!(run.last_run, Some(d(2026, 1, 1)));
    assert_eq!(run.state, ScheduleState::Active);
    assert!(advance_schedule(&mut run, d(2026, 2, 15)));
    assert_eq!(run.state, ScheduleState::Cancelled);
    assert!(!runs_on_tick(run.state));
    assert_eq!(schedule_run_key("sched_1", &d(2026, 3, 1)), "schedule:sched_1:run:2026-03-01");
    let e = end_date_cancelled_event("sched_1");
    assert_eq!(e.reason.as_deref(), Some("end_date_reached"));
    let input = schedule_draft_input("sched_1", "c", "CAD", &vec![sline(m(1, 0), m(5, 0))], &d(2026, 3, 1));
    assert_eq!(input.idempotency_key.as_deref(), Some("schedule:sched_1:run:2026-03-01"));
    assert_eq!(input.actor, Actor::Bus { source: "inv.scheduler".into() });
    assert_eq!(input.lines.len(), 1);
    assert_eq!(input.schedule_id.as_deref(), Some("sched_1"));
}

#[test]
fn reminder_schedule_rejects_past_datetime_input() {
    let input = ReminderScheduleInput {
        invoice_id: "inv".into(),
        scheduled_at: UtcInstant { secs: 0, nanos: 0 },
        channel_scheme: ReminderChannel::Stdout,
        actor: cli(),
        channel: Channel::Cli,
    };
    let now = UtcInstant { secs: 86_400, nanos: 0 };
    assert_eq!(
        input.validate(now),
        validation("scheduled_at must be in the future; got 1970-01-01 00:00:00 UTC (now: 1970-01-02 00:00:00 UTC)")
    );
    assert_eq!(input.validate(UtcInstant { secs: -1, nanos: 0 }), Ok(()));
}

#[test]
fn reminder_leaves_scheduled_once_in_practice() {
    let input = ReminderScheduleInput {
        invoice_id: "inv".into(),
        scheduled_at: UtcInstant { secs: 10, nanos: 0 },
        channel_scheme: ReminderChannel::Webhook,
        actor: cli(),
        channel: Channel::Cli,
    };
    let mut r: Reminder = input.to_reminder("rem_1".into());
    assert_eq!(r.state, ReminderState::Scheduled);
    let now = UtcInstant { secs: 20, nanos: 0 };
    assert!(dispatch_reminder(&mut r, now));
    assert_eq!(r.sent_at, Some(now));
    assert!(!dispatch_reminder(&mut r, UtcInstant { secs: 30, nanos: 0 }));
    assert_eq!(r.sent_at, Some(now));
    assert!(!cancel_reminder(&mut r));
    assert_eq!(r.state, ReminderState::Sent);
    let mut r2 = input.to_reminder("rem_2".into());
    assert!(cancel_reminder(&mut r2));
    assert!(!dispatch_reminder(&mut r2, now));
    assert_eq!(r2.state, ReminderState::Cancelled);
}

#[test]
fn actor_audit_strings_and_channels() {
    assert_eq!(cli().audit_string(), "jad");
    assert_eq!(Actor::Bus { source: "fin".into() }.audit_string(), "fin.bus.consumer");
    assert_eq!(Channel::Mcp.history_channel(), HistoryChannel::Mcp);
    let t = SystemClock.now();
    assert!(t.secs > 0);
    assert!(t.nanos < 1_000_000_000);
}

use inv::commands::draft::find_by_idempotency_key;
use inv::commands::events::{
    credit_note_draft_row, credit_note_drafted_event, credit_note_issued_event, issued_event,
    payment_event, sent_event, voided_event,
};
use inv::commands::reminder::reminder_sent_event;
use inv::commands::schedule::schedule_state_event;

#[test]
fn idempotency_lookup_finds_first_match() {
    let keys = vec![None, Some("a".to_string()), Some("b".to_string()), Some("a".to_string())];
    assert_eq!(find_by_idempotency_key(&keys, "a"), Some(1));
    assert_eq!(find_by_idempotency_key(&keys, "b"), Some(2));
    assert_eq!(find_by_idempotency_key(&keys, "c"), None);
}

#[test]
fn command_event_payloads() {
    let e = issued_event(
        "inv",
        &Some("INV-2026-0001".into()),
        "cust",
        "CAD",
        m(10000, 2),
        m(1500, 2),
        m(11500, 2),
        true,
        &cli(),
        Channel::Api,
    );
    assert_eq!(e.total, "115.00");
    assert_eq!(e.tax_total, "15.00");
    assert_eq!(e.number.as_deref(), Some("INV-2026-0001"));
    assert_eq!(e.channel, "api");
    let s = sent_event("inv", &None, "file:///x", &cli(), Channel::Cli);
    assert_eq!(s.destination, "file:///x");
    let (topic, body) = payment_event("inv", m(5, 0), m(5, 0), m(10, 0), "USD", &cli(), Channel::Bus, &Some("evt".into()), false);
    assert_eq!(topic, "inv.billing.invoice.partially_paid");
    assert_eq!(body.amount_paid, "5");
    assert_eq!(body.channel, "bus");
    let (topic, _) = payment_event("inv", m(5, 0), m(10, 0), m(10, 0), "USD", &cli(), Channel::Bus, &None, true);
    assert_eq!(topic, "inv.billing.invoice.paid");
    let v = voided_event("inv", &Some("dup".into()), &cli(), Channel::Ws);
    assert_eq!(v.reason.as_deref(), Some("dup"));
    assert_eq!(v.channel, "ws");
    let now = UtcInstant { secs: 3, nanos: 0 };
    let row = credit_note_draft_row("h".into(), "cn".into(), &Some("ref-1".into()), &cli(), Channel::Cli, now);
    assert_eq!(row.bus_event_id.as_deref(), Some("ref-1"));
    assert_eq!(row.event, "draft");
    let d = credit_note_drafted_event("cn", "inv", m(250, 1), "CAD", &None, &cli(), Channel::Cli);
    assert_eq!(d.amount, "25.0");
    let i = credit_note_issued_event("cn", &Some("CN-2026-0001".into()), "inv", m(1, 0), "CAD", &cli(), Channel::Mcp);
    assert_eq!(i.channel, "mcp");
}

#[test]
fn tick_and_state_change_payloads() {
    let r = Reminder {
        id: "rem".into(),
        invoice_id: "inv".into(),
        scheduled_at: UtcInstant { secs: 1, nanos: 0 },
        sent_at: None,
        channel: ReminderChannel::Link,
        state: ReminderState::Scheduled,
    };
    let e = reminder_sent_event(&r, UtcInstant { secs: 2, nanos: 0 });
    assert_eq!(e.channel, "link");
    let s = schedule_state_event("sched", "paused", ScheduleState::Paused, &cli(), Channel::Cli);
    assert_eq!(s.topic, "inv.billing.schedule.paused");
    assert_eq!(s.state, "paused");
}

use inv::domain::sum_amounts;

#[test]
fn line_amounts_and_totals() {
    let a = m(10, 0).checked_mul(&m(12500, 2)).unwrap();
    assert_eq!(a, m(125000, 2));
    let b = m(1, 0).checked_mul(&m(200, 0)).unwrap();
    let total = sum_amounts(&[a, b]).unwrap();
    assert_eq!(total.to_text(), "1450.00");
    assert_eq!(sum_amounts(&[]), Some(m(0, 0)));
    let big = m(79228162514264337593543950335, 0);
    assert_eq!(sum_amounts(&[big, big]), None);
    assert_eq!(big.checked_mul(&m(2, 0)), None);
    assert_eq!(m(15, 1).checked_add(&m(25, 2)), Some(m(175, 2)));
}

use inv::commands::emitted::{event_topics, EmittedEvent};

#[test]
fn emitted_event_topics_in_order() {
    let t = UtcInstant { secs: 1, nanos: 0 };
    let events = vec![
        EmittedEvent::new("a.b", serde_json::Value::from(1), t),
        EmittedEvent::new("c.d", serde_json::Value::Null, t),
    ];
    assert_eq!(events[0].payload, serde_json::Value::from(1));
    assert_eq!(event_topics(&events), vec!["a.b".to_string(), "c.d".to_string()]);
}

use inv::commands::overdue::overdue_event;
use inv::commands::reminder::{reminder_cancelled_event, reminder_scheduled_event};
use inv::commands::schedule::{new_schedule_run, schedule_created_event};

#[test]
fn remaining_command_payloads() {
    let e = overdue_event("inv", "cust", &None, None, m(1000, 2), m(0, 0), "USD", InvoiceState::PartiallyPaid);
    assert_eq!(e.state, "partially_paid");
    assert_eq!(e.total, "10.00");
    let r = Reminder {
        id: "rem".into(),
        invoice_id: "inv".into(),
        scheduled_at: UtcInstant { secs: 9, nanos: 0 },
        sent_at: None,
        channel: ReminderChannel::File,
        state: ReminderState::Scheduled,
    };
    let s = reminder_scheduled_event(&r, &cli());
    assert_eq!(s.channel, "file");
    assert_eq!(s.due_at, UtcInstant { secs: 9, nanos: 0 });
    let c = reminder_cancelled_event(&r, &cli());
    assert_eq!(c.actor, "jad");
    let input = sched(vec![sline(m(1, 0), m(1, 0))], d(2026, 1, 1), None);
    let created = schedule_created_event("sched", &input);
    assert_eq!(created.cadence, "monthly");
    assert_eq!(created.start_date, d(2026, 1, 1));
    let run = new_schedule_run(&input);
    assert_eq!(run.next_run, d(2026, 1, 1));
    assert_eq!(run.state, ScheduleState::Active);
}

use inv::commands::reminder::reminders_tick;
use inv::commands::schedule::plan_schedule_run;
use inv::commands::send::{plan_send, SendPlan};

#[test]
fn sink_receives_exactly_the_bytes() {
    let mut v: Vec<u8> = vec![9];
    assert_eq!(deliver_to_sink(Some(&mut v), b"pdf"), Ok("stdout".to_string()));
    assert_eq!(v, b"\x09pdf".to_vec());
}

#[test]
fn send_plan_follows_command_order() {
    let mut input = SendInvoiceInput {
        invoice_id: "i".into(),
        destination_uri: "stdout".into(),
        idempotency_key: None,
        actor: cli(),
        channel: Channel::Cli,
    };
    assert_eq!(
        plan_send(&input, None, InvoiceState::Issued, Ok(InvoiceState::Sent)),
        Ok(SendPlan::Deliver { scheme: LocalScheme::Stdout, to_state: InvoiceState::Sent })
    );
    assert_eq!(
        plan_send(&input, None, InvoiceState::Sent, Ok(InvoiceState::Draft)),
        Ok(SendPlan::Deliver { scheme: LocalScheme::Stdout, to_state: InvoiceState::Sent })
    );
    assert_eq!(
        plan_send(&input, None, InvoiceState::Paid, Ok(InvoiceState::Sent)),
        Err(CoreError::FsmTransition(TransitionError::Illegal { state: InvoiceState::Paid, event: "send".into() }))
    );
    input.idempotency_key = Some("k".into());
    assert_eq!(
        plan_send(&input, Some("file:///tmp/a".into()), InvoiceState::Sent, Ok(InvoiceState::Sent)),
        Ok(SendPlan::Replay { delivered_to: "file:///tmp/a".into() })
    );
    input.destination_uri = "bus://t".into();
    assert!(matches!(
        plan_send(&input, Some("x".into()), InvoiceState::Issued, Ok(InvoiceState::Sent)),
        Err(CoreError::NotImplemented(_))
    ));
    input.destination_uri = " ".into();
    assert_eq!(
        plan_send(&input, None, InvoiceState::Issued, Ok(InvoiceState::Sent)),
        Err(CoreError::Validation("destination_uri must not be empty".into()))
    );
}

#[test]
fn reminders_tick_dispatches_due_reminders_in_order() {
    let mk = |id: &str, at: i64, state: ReminderState| Reminder {
        id: id.into(),
        invoice_id: "inv".into(),
        scheduled_at: UtcInstant { secs: at, nanos: 0 },
        sent_at: None,
        channel: ReminderChannel::Stdout,
        state,
    };
    let rs = vec![
        mk("a", 5, ReminderState::Scheduled),
        mk("b", 50, ReminderState::Scheduled),
        mk("c", 5, ReminderState::Cancelled),
        mk("d", 10, ReminderState::Scheduled),
    ];
    let now = UtcInstant { secs: 10, nanos: 0 };
    let (after, events) = reminders_tick(&rs, now);
    let ids: Vec<String> = events.iter().map(|e| e.reminder_id.clone()).collect();
    assert_eq!(ids, vec!["a".to_string(), "d".to_string()]);
    assert_eq!(after[0].state, ReminderState::Sent);
    assert_eq!(after[0].sent_at, Some(now));
    assert_eq!(after[1].state, ReminderState::Scheduled);
    assert_eq!(after[2].state, ReminderState::Cancelled);
    let (_, again) = reminders_tick(&after, now);
    assert!(again.is_empty());
}

#[test]
fn schedule_run_plan() {
    let lines = vec![sline(m(1, 0), m(100, 0))];
    let mut run = ScheduleRun { state: ScheduleState::Paused, next_run: d(2026, 1, 1), last_run: None, end_date: None };
    assert!(plan_schedule_run("s", "c", "CAD", &lines, true, &mut run, d(2026, 2, 1)).is_none());
    assert_eq!(run.next_run, d(2026, 1, 1));
    let mut run = ScheduleRun { state: ScheduleState::Active, next_run: d(2026, 1, 1), last_run: None, end_date: Some(d(2026, 1, 20)) };
    let p = plan_schedule_run("s", "c", "CAD", &lines, true, &mut run, d(2026, 2, 1)).unwrap();
    assert!(p.issue);
    assert_eq!(p.draft.idempotency_key.as_deref(), Some("schedule:s:run:2026-01-01"));
    assert_eq!(p.draft.schedule_id.as_deref(), Some("s"));
    assert_eq!(p.draft.actor, Actor::Bus { source: "inv.scheduler".into() });
    assert_eq!(p.draft.channel, Channel::Bus);
    assert_eq!(p.draft.seller_jurisdiction, "CA-QC");
    assert!(p.draft.due_at.is_none() && p.draft.template_path.is_none());
    assert!(p.cancelled.is_some());
    assert_eq!(run.state, ScheduleState::Cancelled);
    assert_eq!(run.last_run, Some(d(2026, 1, 1)));
}

use inv::bus::outbox::{LifecycleStage, OutboxPayload};
use inv::commands::publish::{credit_note_publish_list, invoice_publish_list, DomainBody, PublishBody};

#[test]
fn void_publishes_triplet_then_domain_event() {
    let now = UtcInstant { secs: 9, nanos: 0 };
    let row = transition_row(
        "h".into(),
        "inv".into(),
        InvoiceState::Issued,
        InvoiceState::Voided,
        &InvoiceEvent::Void,
        &cli(),
        Channel::Cli,
        None,
        Some("dup".into()),
        now,
    );
    let body = voided_event("inv", &Some("dup".into()), &cli(), Channel::Cli);
    let out = invoice_publish_list(&row, InvoiceState::Issued, InvoiceEvent::Void, "inv.billing.invoice.voided", DomainBody::Voided(body.clone()));
    let topics: Vec<&str> = out.iter().map(|e| e.topic.as_str()).collect();
    assert_eq!(
        topics,
        vec![
            "inv.billing.invoice.proposed",
            "inv.billing.invoice.transitioned",
            "inv.billing.invoice.entered",
            "inv.billing.invoice.voided"
        ]
    );
    let replayed: Vec<String> = invoice_row_to_events(&row).into_iter().map(|e| e.topic).collect();
    assert_eq!(replayed, topics);
    match &out[0].body {
        PublishBody::Lifecycle(OutboxPayload::InvoiceLifecycle { stage, from, to, event, occurred_at, .. }) => {
            assert_eq!(*stage, LifecycleStage::Proposed);
            assert_eq!(*from, InvoiceState::Issued);
            assert_eq!(*to, InvoiceState::Voided);
            assert_eq!(*event, InvoiceEvent::Void);
            assert_eq!(*occurred_at, now);
        }
        other => panic!("unexpected body {other:?}"),
    }
    assert!(matches!(&out[2].body, PublishBody::Lifecycle(OutboxPayload::InvoiceLifecycle { stage: LifecycleStage::Entered, .. })));
    assert_eq!(out[3].body, PublishBody::Domain(DomainBody::Voided(body)));
}

#[test]
fn credit_note_issue_publishes_triplet_then_issued() {
    let now = UtcInstant { secs: 11, nanos: 0 };
    let row = credit_note_issue_row("h".into(), "cn".into(), CreditNoteState::Draft, CreditNoteState::Issued, &cli(), Channel::Ws, now);
    let issued = credit_note_issued_event("cn", &Some("CN-2026-0001".into()), "inv", m(1, 0), "CAD", &cli(), Channel::Ws);
    let out = credit_note_publish_list(&row, CreditNoteState::Draft, issued.clone());
    let topics: Vec<&str> = out.iter().map(|e| e.topic.as_str()).collect();
    assert_eq!(
        topics,
        vec![
            "inv.billing.creditnote.proposed",
            "inv.billing.creditnote.transitioned",
            "inv.billing.creditnote.entered",
            "inv.billing.creditnote.issued"
        ]
    );
    assert!(matches!(&out[1].body, PublishBody::Lifecycle(OutboxPayload::CreditNoteLifecycle { stage: LifecycleStage::Transitioned, .. })));
    assert_eq!(out[3].body, PublishBody::Domain(DomainBody::CreditNoteIssued(issued)));
}

#[test]
fn decimal_text_places_the_point_by_scale() {
    assert_eq!(Money { mantissa: 12500, scale: 2 }.to_text(), "125.00");
    assert_eq!(Money { mantissa: -5, scale: 2 }.to_text(), "-0.05");
    assert_eq!(Money { mantissa: 7, scale: 0 }.to_text(), "7");
    assert_eq!(Money { mantissa: 0, scale: 0 }.to_text(), "0");
    assert_eq!(Money { mantissa: 0, scale: 3 }.to_text(), "0.000");
    assert_eq!(Money { mantissa: 100, scale: 2 }.to_text(), "1.00");
    assert_eq!(Money { mantissa: -123456, scale: 3 }.to_text(), "-123.456");
}

#[test]
fn date_text_pads_and_signs_the_year() {
    assert_eq!(CalendarDate { year: 2026, month: 3, day: 1 }.to_text(), "2026-03-01");
    assert_eq!(CalendarDate { year: 12, month: 11, day: 30 }.to_text(), "0012-11-30");
    assert_eq!(CalendarDate { year: 12345, month: 6, day: 7 }.to_text(), "+12345-06-07");
    assert_eq!(CalendarDate { year: -1, month: 1, day: 1 }.to_text(), "-0001-01-01");
}

#[test]
fn instant_text_covers_chrono_range() {
    assert_eq!(UtcInstant { secs: -8_334_601_228_800, nanos: 0 }.to_text(), "-262143-01-01 00:00:00 UTC");
    assert_eq!(UtcInstant { secs: 8_210_266_876_799, nanos: 0 }.to_text(), "+262142-12-31 23:59:59 UTC");
}
