use inv::bus::consumer::{
    charge_created_input, parse_invoice_ref, payment_received_input, payment_refunded_input,
    ChargeCreatedPayload, ChargeLine, Consumer, DispatchError, InboundRoute,
    PaymentReceivedPayload, PaymentRefundedPayload,
};
use inv::bus::events::{
    TOPIC_CREDITNOTE_DRAFTED, TOPIC_CREDITNOTE_ENTERED, TOPIC_CREDITNOTE_ISSUED,
    TOPIC_CREDITNOTE_PROPOSED, TOPIC_CREDITNOTE_TRANSITIONED, TOPIC_INVOICE_DRAFTED,
    TOPIC_INVOICE_ENTERED, TOPIC_INVOICE_ISSUED, TOPIC_INVOICE_OVERDUE, TOPIC_INVOICE_PAID,
    TOPIC_INVOICE_PARTIALLY_PAID, TOPIC_INVOICE_PROPOSED, TOPIC_INVOICE_SENT,
    TOPIC_INVOICE_TRANSITIONED, TOPIC_INVOICE_VIEWED, TOPIC_INVOICE_VOIDED,
    TOPIC_REMINDER_CANCELLED, TOPIC_REMINDER_SCHEDULED, TOPIC_REMINDER_SENT,
    TOPIC_SCHEDULE_CANCELLED, TOPIC_SCHEDULE_CREATED, TOPIC_SCHEDULE_PAUSED,
};
use inv::bus::outbox::{
    credit_note_row_to_events, invoice_domain_topic, invoice_row_to_events,
    reconstruct_invoice_event, CreditNoteHistoryRow, InvoiceHistoryRow, LifecycleStage,
    OutboxPayload, OutboxStats,
};
use inv::bus::publisher::LoggingPublisher;
use inv::bus::topic_map::{remap_topic, TopicMap};
use inv::commands::ctx::{Actor, Channel, UtcInstant};
use inv::commands::error::CoreError;
use inv::domain::{CreditNoteState, HistoryChannel, InvoiceEvent, InvoiceState, Money};

fn pair(a: &str, b: &str) -> (String, String) {
    (a.to_string(), b.to_string())
}

#[test]
fn topic_constants_match_design_4_2() {
    assert_eq!(TOPIC_INVOICE_DRAFTED, "inv.billing.invoice.drafted");
    assert_eq!(TOPIC_INVOICE_ISSUED, "inv.billing.invoice.issued");
    assert_eq!(TOPIC_INVOICE_SENT, "inv.billing.invoice.sent");
    assert_eq!(TOPIC_INVOICE_VIEWED, "inv.billing.invoice.viewed");
    assert_eq!(TOPIC_INVOICE_PAID, "inv.billing.invoice.paid");
    assert_eq!(
        TOPIC_INVOICE_PARTIALLY_PAID,
        "inv.billing.invoice.partially_paid"
    );
    assert_eq!(TOPIC_INVOICE_OVERDUE, "inv.billing.invoice.overdue");
    assert_eq!(TOPIC_INVOICE_VOIDED, "inv.billing.invoice.voided");
    assert_eq!(TOPIC_CREDITNOTE_DRAFTED, "inv.billing.creditnote.drafted");
    assert_eq!(TOPIC_CREDITNOTE_ISSUED, "inv.billing.creditnote.issued");
    assert_eq!(TOPIC_REMINDER_SCHEDULED, "inv.billing.reminder.scheduled");
    assert_eq!(TOPIC_REMINDER_SENT, "inv.billing.reminder.sent");
    assert_eq!(TOPIC_REMINDER_CANCELLED, "inv.billing.reminder.cancelled");
    assert_eq!(TOPIC_SCHEDULE_CREATED, "inv.billing.schedule.created");
    assert_eq!(TOPIC_SCHEDULE_PAUSED, "inv.billing.schedule.paused");
    assert_eq!(TOPIC_SCHEDULE_CANCELLED, "inv.billing.schedule.cancelled");
}

#[test]
fn empty_map_passes_topic_through() {
    let map = TopicMap::new();
    assert_eq!(remap_topic(&map, "fin.billing.charge.created"), "fin.billing.charge.created");
}

#[test]
fn configured_entry_remaps() {
    let map = TopicMap::from_pairs(vec![pair(
        "fin.finance.charge.created",
        "fin.billing.charge.created",
    )]);
    assert_eq!(
        remap_topic(&map, "fin.finance.charge.created"),
        "fin.billing.charge.created"
    );
}

#[test]
fn unmapped_topic_passes_through() {
    let map = TopicMap::from_pairs(vec![pair(
        "fin.finance.charge.created",
        "fin.billing.charge.created",
    )]);
    assert_eq!(remap_topic(&map, "other.topic"), "other.topic");
}

#[test]
fn topic_remap_returns_canonical_when_configured() {
    let map = TopicMap::from_pairs(vec![pair(
        "fin.finance.charge.created",
        "fin.billing.charge.created",
    )]);
    assert_eq!(
        remap_topic(&map, "fin.finance.charge.created"),
        "fin.billing.charge.created"
    );
}

#[test]
fn topic_remap_passes_through_unmapped() {
    let map = TopicMap::from_pairs(vec![pair(
        "fin.finance.charge.created",
        "fin.billing.charge.created",
    )]);
    assert_eq!(
        remap_topic(&map, "fin.billing.payment.received"),
        "fin.billing.payment.received"
    );
}

#[test]
fn topic_map_insert_overwrites_and_counts() {
    let mut map = TopicMap::new();
    assert!(map.is_empty());
    map.insert("a".into(), "x".into());
    map.insert("b".into(), "y".into());
    map.insert("a".into(), "z".into());
    assert_eq!(map.len(), 2);
    assert_eq!(map.get("a"), Some("z"));
    assert_eq!(map.get("c"), None);
    let dup = TopicMap::from_pairs(vec![pair("k", "1"), pair("k", "2")]);
    assert_eq!(dup.len(), 1);
    assert_eq!(dup.get("k"), Some("2"));
}

#[test]
fn topic_map_len_tracks_new_topics_only() {
    let mut map = TopicMap::from_pairs(vec![pair("a", "1"), pair("b", "2"), pair("a", "3")]);
    assert_eq!(map.len(), 2);
    assert_eq!(map.get("a"), Some("3"));
    assert_eq!(map.get("b"), Some("2"));
    assert_eq!(map.get("other.topic"), None);
    map.insert("b".into(), "4".into());
    assert_eq!(map.len(), 2);
    assert_eq!(map.get("b"), Some("4"));
    assert_eq!(map.get("a"), Some("3"));
    map.insert("c".into(), "5".into());
    assert_eq!(map.len(), 3);
    assert_eq!(map.get("c"), Some("5"));
}

fn invoice_row(event: &str, from: Option<InvoiceState>, to: InvoiceState) -> InvoiceHistoryRow {
    InvoiceHistoryRow {
        id: "h1".into(),
        invoice_id: "inv1".into(),
        from_state: from,
        to_state: to,
        event: event.into(),
        actor: Some("jad".into()),
        channel: HistoryChannel::Cli,
        bus_event_id: None,
        reason: None,
        occurred_at: UtcInstant { secs: 1, nanos: 0 },
    }
}

#[test]
fn mapper_initial_draft_emits_domain_only() {
    let row = invoice_row("draft", None, InvoiceState::Draft);
    let events = invoice_row_to_events(&row);
    assert_eq!(events.len(), 1);
    assert_eq!(events[0].topic, TOPIC_INVOICE_DRAFTED);
}

#[test]
fn mapper_issue_transition_emits_triplet_plus_domain() {
    let row = invoice_row("issue", Some(InvoiceState::Draft), InvoiceState::Issued);
    let events = invoice_row_to_events(&row);
    assert_eq!(events.len(), 4);
    assert_eq!(events[0].topic, TOPIC_INVOICE_PROPOSED);
    assert_eq!(events[1].topic, TOPIC_INVOICE_TRANSITIONED);
    assert_eq!(events[2].topic, TOPIC_INVOICE_ENTERED);
    assert_eq!(events[3].topic, TOPIC_INVOICE_ISSUED);
}

#[test]
fn mapper_pay_splits_paid_vs_partially_paid() {
    let row_paid = invoice_row("pay", Some(InvoiceState::Sent), InvoiceState::Paid);
    let row_partial = invoice_row("pay", Some(InvoiceState::Sent), InvoiceState::PartiallyPaid);
    let ev_paid = invoice_row_to_events(&row_paid);
    let ev_partial = invoice_row_to_events(&row_partial);
    assert_eq!(ev_paid.last().unwrap().topic, TOPIC_INVOICE_PAID);
    assert_eq!(ev_partial.last().unwrap().topic, TOPIC_INVOICE_PARTIALLY_PAID);
}

#[test]
fn mapper_self_edge_skips_triplet() {
    let row = invoice_row("send", Some(InvoiceState::Sent), InvoiceState::Sent);
    let events = invoice_row_to_events(&row);
    assert_eq!(events.len(), 1);
    assert_eq!(events[0].topic, TOPIC_INVOICE_SENT);
}

#[test]
fn mapper_unknown_tag_emits_nothing() {
    let row = invoice_row("mystery", Some(InvoiceState::Draft), InvoiceState::Issued);
    assert!(invoice_row_to_events(&row).is_empty());
}

#[test]
fn mapper_lifecycle_bodies_carry_the_move() {
    let row = invoice_row("void", Some(InvoiceState::Issued), InvoiceState::Voided);
    let events = invoice_row_to_events(&row);
    match &events[1].payload {
        OutboxPayload::InvoiceLifecycle { stage, from, to, event, actor, .. } => {
            assert_eq!(*stage, LifecycleStage::Transitioned);
            assert_eq!(*from, InvoiceState::Issued);
            assert_eq!(*to, InvoiceState::Voided);
            assert_eq!(*event, InvoiceEvent::Void);
            assert_eq!(actor.as_deref(), Some("jad"));
        }
        other => panic!("unexpected {other:?}"),
    }
    match &events[3].payload {
        OutboxPayload::InvoiceAudit { event, to_state, .. } => {
            assert_eq!(event, "void");
            assert_eq!(*to_state, InvoiceState::Voided);
        }
        other => panic!("unexpected {other:?}"),
    }
}

#[test]
fn reconstruct_pay_uses_classifying_amounts() {
    let one = Money { mantissa: 1, scale: 0 };
    let two = Money { mantissa: 2, scale: 0 };
    assert_eq!(
        reconstruct_invoice_event("pay", InvoiceState::Paid),
        Some(InvoiceEvent::Pay { amount_paid: one, total: one })
    );
    assert_eq!(
        reconstruct_invoice_event("pay", InvoiceState::PartiallyPaid),
        Some(InvoiceEvent::Pay { amount_paid: one, total: two })
    );
    assert_eq!(reconstruct_invoice_event("pay", InvoiceState::Sent), None);
    assert_eq!(reconstruct_invoice_event("draft", InvoiceState::Draft), None);
    assert_eq!(invoice_domain_topic("view", InvoiceState::Viewed), Some(TOPIC_INVOICE_VIEWED));
    assert_eq!(invoice_domain_topic("view", InvoiceState::Sent), None);
}

#[test]
fn credit_note_rows_replay() {
    let mut row = CreditNoteHistoryRow {
        id: "h".into(),
        credit_note_id: "cn1".into(),
        from_state: None,
        to_state: CreditNoteState::Draft,
        event: "draft".into(),
        actor: None,
        channel: HistoryChannel::Api,
        bus_event_id: None,
        occurred_at: UtcInstant { secs: 5, nanos: 0 },
    };
    let ev = credit_note_row_to_events(&row);
    assert_eq!(ev.len(), 1);
    assert_eq!(ev[0].topic, TOPIC_CREDITNOTE_DRAFTED);
    row.from_state = Some(CreditNoteState::Draft);
    row.to_state = CreditNoteState::Issued;
    row.event = "issue".into();
    let topics: Vec<String> = credit_note_row_to_events(&row).into_iter().map(|e| e.topic).collect();
    assert_eq!(
        topics,
        vec![
            TOPIC_CREDITNOTE_PROPOSED,
            TOPIC_CREDITNOTE_TRANSITIONED,
            TOPIC_CREDITNOTE_ENTERED,
            TOPIC_CREDITNOTE_ISSUED
        ]
    );
}

#[test]
fn outbox_stats_count() {
    let mut s = OutboxStats::new();
    s.record_event();
    s.record_event();
    s.record_row();
    assert_eq!(s, OutboxStats { rows_processed: 1, events_published: 2 });
}

#[test]
fn logging_publisher_constructs() {
    assert_eq!(LoggingPublisher::new(), LoggingPublisher);
}

#[test]
fn consumer_routes_canonical_topics() {
    let c = Consumer::new();
    assert_eq!(
        c.route("fin.billing.payment.received"),
        Ok(("fin.billing.payment.received".to_string(), InboundRoute::PaymentReceived))
    );
    assert_eq!(
        c.route("nope.topic"),
        Err(DispatchError::UnknownTopic("nope.topic".into()))
    );
}

#[test]
fn consumer_route_applies_remap() {
    let map = TopicMap::from_pairs(vec![pair("finance.charges.created", "fin.billing.charge.created")]);
    let c = Consumer::with_remap(map);
    assert_eq!(
        c.route("finance.charges.created"),
        Ok(("fin.billing.charge.created".to_string(), InboundRoute::ChargeCreated))
    );
    assert_eq!(
        c.route("fin.billing.payment.refunded").unwrap().1,
        InboundRoute::PaymentRefunded
    );
}

#[test]
fn invoice_ref_accepts_uri_form() {
    assert_eq!(parse_invoice_ref("inv://invoice/invoice_01abc"), "invoice_01abc");
    assert_eq!(parse_invoice_ref("invoice_01abc"), "invoice_01abc");
}

#[test]
fn charge_created_builds_draft_input() {
    let p = ChargeCreatedPayload {
        customer_id: "customer_1".into(),
        currency: "CAD".into(),
        seller_jurisdiction: None,
        lines: vec![ChargeLine {
            description: "Work".into(),
            quantity: Money { mantissa: 2, scale: 0 },
            unit_price: Money { mantissa: 5000, scale: 2 },
            tax_category: None,
        }],
        due_date: None,
        idempotency_key: None,
    };
    let d = charge_created_input("evt-1", &p);
    assert_eq!(d.idempotency_key.as_deref(), Some("evt-1"));
    assert_eq!(d.seller_jurisdiction, "CA-QC");
    assert_eq!(d.lines[0].tax_category, "standard");
    assert_eq!(d.actor, Actor::Bus { source: "fin".into() });
    assert_eq!(d.channel, Channel::Bus);
    assert_eq!(d.schedule_id, None);
}

#[test]
fn payment_received_requires_invoice_ref() {
    let mut p = PaymentReceivedPayload {
        invoice_ref: None,
        amount: Money { mantissa: 100, scale: 0 },
        received_at: UtcInstant { secs: 9, nanos: 0 },
        idempotency_key: Some("k".into()),
    };
    match payment_received_input("fin.billing.payment.received", "evt", &p) {
        Err(DispatchError::InvalidPayload { message, .. }) => {
            assert_eq!(message, "payment.received without invoice_ref is not routable at v1")
        }
        other => panic!("unexpected {other:?}"),
    }
    p.invoice_ref = Some("inv://invoice/invoice_7".into());
    let m = payment_received_input("t", "evt", &p).unwrap();
    assert_eq!(m.invoice_id, "invoice_7");
    assert_eq!(m.idempotency_key.as_deref(), Some("k"));
    assert_eq!(m.bus_event_id.as_deref(), Some("evt"));
    assert_eq!(m.received_at, Some(UtcInstant { secs: 9, nanos: 0 }));
}

#[test]
fn payment_refunded_builds_credit_note_input() {
    let p = PaymentRefundedPayload {
        invoice_ref: "invoice_3".into(),
        amount: Money { mantissa: 10, scale: 0 },
        reason: Some("dup".into()),
        refund_id: None,
    };
    let c = payment_refunded_input("evt-9", &p);
    assert_eq!(c.refund_ref.as_deref(), Some("evt-9"));
    assert_eq!(c.idempotency_key.as_deref(), Some("evt-9"));
    assert_eq!(c.reason.as_deref(), Some("dup"));
}

#[test]
fn dispatch_error_messages() {
    assert_eq!(
        DispatchError::UnknownTopic("x".into()).message(),
        "no consumer for topic `x`"
    );
    let e = DispatchError::Command {
        command: "mark_paid".into(),
        source: CoreError::NotFound("invoice i".into()),
    };
    assert_eq!(e.message(), "command `mark_paid` failed: not found: invoice i");
}
