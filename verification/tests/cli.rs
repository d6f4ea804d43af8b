use inv::cli::config::{
    config_path_from_env, default_backend, default_dsn, default_tax_tables, BusConfig, Config,
    ConfigError, StorageConfig, TaxConfig,
};
use inv::cli::parse::{
    parse_channel, parse_decimal, parse_invoice_state, parse_line, parse_schedule_state,
    parse_secs,
};
use inv::domain::{InvoiceState, Money, ReminderChannel, ScheduleState};

#[test]
fn parse_line_simple() {
    let spec = parse_line("Consulting:10:125.00").unwrap();
    assert_eq!(spec.description, "Consulting");
    assert_eq!(spec.quantity, Money { mantissa: 10, scale: 0 });
    assert_eq!(spec.unit_price, Money { mantissa: 12500, scale: 2 });
}

#[test]
fn parse_line_description_with_colon() {
    let spec = parse_line("Apt 1:second floor:2:50").unwrap();
    assert_eq!(spec.description, "Apt 1:second floor");
    assert_eq!(spec.quantity, Money { mantissa: 2, scale: 0 });
    assert_eq!(spec.unit_price, Money { mantissa: 50, scale: 0 });
}

#[test]
fn parse_line_rejects_missing_fields() {
    assert!(parse_line("just-desc").is_err());
    assert!(parse_line("desc:10").is_err());
}

#[test]
fn parse_line_error_messages() {
    assert_eq!(
        parse_line("desc:10").unwrap_err(),
        "invalid --line `desc:10` (expected `<desc>:<qty>:<price>`)"
    );
    assert_eq!(parse_line(" :1:2").unwrap_err(), "--line ` :1:2`: description must not be empty");
    assert!(parse_line("a:1:x").unwrap_err().starts_with("invalid line unit_price `x`: "));
    assert!(parse_line("a:y:1").unwrap_err().starts_with("invalid line quantity `y`: "));
    assert_eq!(parse_decimal("amount", "-3.250").unwrap(), Money { mantissa: -3250, scale: 3 });
}

#[test]
fn parse_enumerations() {
    assert_eq!(parse_invoice_state("paid"), Ok(InvoiceState::Paid));
    assert_eq!(parse_invoice_state("nope"), Err("unknown invoice state `nope`".to_string()));
    assert_eq!(parse_schedule_state("paused"), Ok(ScheduleState::Paused));
    assert_eq!(
        parse_schedule_state("x"),
        Err("invalid --state `x` (want active | paused | cancelled)".to_string())
    );
    assert_eq!(parse_channel("webhook"), Ok(ReminderChannel::Webhook));
    assert_eq!(parse_channel("fax"), Err("unknown reminder channel `fax`".to_string()));
    assert_eq!(parse_secs("tick", "30"), Ok(30));
    assert_eq!(parse_secs("tick", "-1"), Err("parsing --tick as u64 seconds: -1".to_string()));
}

#[test]
fn config_defaults() {
    assert_eq!(default_backend(), "sqlite");
    assert_eq!(default_dsn(), "sqlite::memory:");
    assert_eq!(default_tax_tables(), "tax-tables/default.toml");
    let c = Config::default();
    assert_eq!(c.storage, StorageConfig { backend: "sqlite".into(), dsn: "sqlite::memory:".into() });
    assert_eq!(c.tax, TaxConfig { tax_tables: "tax-tables/default.toml".into() });
    assert_eq!(c.bus, BusConfig::default());
}

#[test]
fn config_path_lookup() {
    assert_eq!(
        config_path_from_env(&Some("/x/".into()), &Some("/home/u".into())),
        Some("/x/inv/config.toml".to_string())
    );
    assert_eq!(
        config_path_from_env(&Some(String::new()), &Some("/home/u".into())),
        Some("/home/u/.config/inv/config.toml".to_string())
    );
    assert_eq!(config_path_from_env(&None, &Some(String::new())), None);
}

#[test]
fn config_error_messages() {
    let e = ConfigError::Parse { path: "a.toml".into(), message: "bad".into() };
    assert_eq!(e.message(), "parsing config TOML a.toml: bad");
    let e = ConfigError::Io { path: "b".into(), message: "gone".into() };
    assert_eq!(e.message(), "reading config file b: gone");
}

use inv::cli::args::{
    build_draft_input, build_issue_input, build_pay_input, cli_actor, parse_datetime,
    tax_table_path, DraftArgs,
};
use inv::commands::ctx::{Actor, Channel, UtcInstant};

fn tester() -> Actor {
    Actor::Cli { name: "tester".to_string() }
}

#[test]
fn draft_input_maps_clap_args() {
    let args = DraftArgs {
        customer: Some("customer_01k2sd4d3rer7vd29crpz4nczt".into()),
        currency: Some("CAD".into()),
        seller_jurisdiction: Some("CA-QC".into()),
        lines: vec!["Consulting:10:125.00".into(), "Travel:1:200".into()],
        due: None,
        idempotency_key: Some("key-1".into()),
        template_path: None,
    };
    let input = build_draft_input(&args, tester()).expect("input");
    assert_eq!(input.currency, "CAD");
    assert_eq!(input.seller_jurisdiction, "CA-QC");
    assert_eq!(input.lines.len(), 2);
    assert_eq!(input.lines[0].description, "Consulting");
    assert_eq!(input.lines[0].quantity, Money { mantissa: 10, scale: 0 });
    assert_eq!(input.lines[0].unit_price, Money { mantissa: 12500, scale: 2 });
    assert_eq!(input.lines[1].description, "Travel");
    assert_eq!(input.lines[1].unit_price, Money { mantissa: 200, scale: 0 });
    assert_eq!(input.idempotency_key.as_deref(), Some("key-1"));
    assert!(matches!(input.channel, Channel::Cli));
    assert_eq!(input.schedule_id, None);
}

#[test]
fn issue_input_maps_clap_args() {
    let id_s = "invoice_01k2sd4d3rer7vd29crpz4nczt".to_string();
    let input = build_issue_input(&Some(id_s.clone()), tester()).expect("input");
    assert_eq!(input.invoice_id, id_s);
    assert!(matches!(input.channel, Channel::Cli));
    assert_eq!(build_issue_input(&None, tester()).unwrap_err(), "invoice id required");
}

#[test]
fn pay_input_maps_clap_args() {
    let id_s = "invoice_01k2sd4d3rer7vd29crpz4nczt".to_string();
    let input = build_pay_input(
        &Some(id_s.clone()),
        &Some("100.00".into()),
        &Some("pay-1".into()),
        &None,
        tester(),
    )
    .expect("input");
    assert_eq!(input.invoice_id, id_s);
    assert_eq!(input.amount, Money { mantissa: 10000, scale: 2 });
    assert_eq!(input.idempotency_key.as_deref(), Some("pay-1"));
}

#[test]
fn draft_args_errors_in_order() {
    let mut a = DraftArgs::default();
    assert_eq!(build_draft_input(&a, tester()).unwrap_err(), "--customer required");
    a.customer = Some("c".into());
    assert_eq!(build_draft_input(&a, tester()).unwrap_err(), "--currency required");
    a.currency = Some("USD".into());
    assert_eq!(build_draft_input(&a, tester()).unwrap_err(), "at least one --line is required");
    a.lines = vec!["x:1:1".into()];
    a.due = Some("tomorrow".into());
    assert!(build_draft_input(&a, tester())
        .unwrap_err()
        .starts_with("invalid --due `tomorrow` (expected RFC 3339): "));
    a.due = Some("2026-01-02T03:04:05Z".into());
    let d = build_draft_input(&a, tester()).unwrap();
    assert_eq!(d.seller_jurisdiction, "CA-QC");
    assert_eq!(d.due_at, Some(UtcInstant { secs: 1_767_323_045, nanos: 0 }));
    assert_eq!(d.lines[0].tax_category, "standard");
}

#[test]
fn datetime_and_actor_and_paths() {
    assert_eq!(
        parse_datetime("--at", "1970-01-01T00:00:10+00:00"),
        Ok(UtcInstant { secs: 10, nanos: 0 })
    );
    assert_eq!(cli_actor(None), Actor::Cli { name: "cli".into() });
    assert_eq!(cli_actor(Some("ann".into())), Actor::Cli { name: "ann".into() });
    assert_eq!(tax_table_path(&Some("t/x.toml".into()), &Some("/env.toml".into()), &Some("/cfg".into())), "/cfg/t/x.toml");
    assert_eq!(tax_table_path(&Some("/abs.toml".into()), &None, &Some("/cfg".into())), "/abs.toml");
    assert_eq!(tax_table_path(&Some("t/x.toml".into()), &None, &None), "t/x.toml");
    assert_eq!(tax_table_path(&None, &Some("/env.toml".into()), &Some("/cfg".into())), "/env.toml");
    assert_eq!(tax_table_path(&None, &Some(String::new()), &None), "tax-tables/default.toml");
}

use inv::cli::args::{build_schedule_create_input, ScheduleArgs};
use inv::cli::parse::parse_date;
use inv::domain::CalendarDate;

#[test]
fn parse_date_accepts_iso_dates() {
    assert_eq!(parse_date("--start", "2026-02-28"), Ok(CalendarDate { year: 2026, month: 2, day: 28 }));
    assert!(parse_date("--start", "2026-02-30")
        .unwrap_err()
        .starts_with("invalid --start `2026-02-30` (expected YYYY-MM-DD): "));
}

#[test]
fn schedule_create_maps_args() {
    let mut a = ScheduleArgs::default();
    assert_eq!(build_schedule_create_input(&a, tester()).unwrap_err(), "--customer required");
    a.customer = Some("c".into());
    a.currency = Some("CAD".into());
    assert_eq!(build_schedule_create_input(&a, tester()).unwrap_err(), "--cadence required");
    a.cadence = Some("monthly".into());
    assert_eq!(build_schedule_create_input(&a, tester()).unwrap_err(), "--start required");
    a.start = Some("2026-02-01".into());
    a.end = Some("nope".into());
    assert!(build_schedule_create_input(&a, tester()).unwrap_err().starts_with("invalid --end `nope`"));
    a.end = None;
    assert_eq!(build_schedule_create_input(&a, tester()).unwrap_err(), "at least one --line is required");
    a.lines = vec!["Retainer:1:1000.00".into()];
    a.auto_issue = true;
    let s = build_schedule_create_input(&a, tester()).unwrap();
    assert_eq!(s.start_date, CalendarDate { year: 2026, month: 2, day: 1 });
    assert_eq!(s.template_lines[0].unit_price, Money { mantissa: 100000, scale: 2 });
    assert!(s.auto_issue);
    assert_eq!(s.validate(), Ok(()));
}
