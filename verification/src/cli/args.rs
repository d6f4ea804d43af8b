//! From command-line values to command inputs.

use vstd::prelude::*;
use crate::cli::parse::{decimal_outcome, lines_outcome, parse_decimal, parse_line_args, texts, LineSpec};
use crate::commands::ctx::{Actor, Channel, UtcInstant};
use crate::commands::draft::{DraftInvoiceInput, DraftLineInput};
use crate::commands::issue::IssueInvoiceInput;
use crate::commands::pay::MarkPaidInput;
use crate::cli::config::{default_tax_tables, join_path, opt_text, path_join};
use crate::cli::parse::{line_is_ok, line_outcome, naive_date_from_str, parse_date};
use crate::commands::schedule::{ScheduleCreateInput, ScheduleLineInput};
use crate::domain::CalendarDate;
use crate::text::{chars_of, has_prefix, push_str_chars, string_from_chars, strip_prefix};

verus! {

/// What `chrono::DateTime::parse_from_rfc3339` yields for a text,
/// converted to UTC: `(seconds, nanoseconds)` since the epoch, or the
/// parse error's display text.
pub uninterp spec fn rfc3339_from_str(s: Seq<char>) -> Result<(i64, u32), Seq<char>>;

/// `chrono::DateTime::parse_from_rfc3339(s)` in UTC, taken apart into
/// seconds and nanoseconds; the error as its display text.
#[verifier::external_body]
fn rfc3339_parse(s: &str) -> (r: Result<UtcInstant, String>)
    ensures
        match rfc3339_from_str(s@) {
            Ok((secs, nanos)) => r == Ok::<UtcInstant, String>(UtcInstant { secs, nanos }),
            Err(e) => r matches Err(t) && t@ == e,
        },
{
    match chrono::DateTime::parse_from_rfc3339(s) {
        Ok(d) => Ok(UtcInstant { secs: d.timestamp(), nanos: d.timestamp_subsec_nanos() }),
        Err(e) => Err(e.to_string()),
    }
}

/// Parse an RFC 3339 timestamp, naming `label` in the error.
pub fn parse_datetime(label: &str, raw: &str) -> (r: Result<UtcInstant, String>)
    ensures
        match rfc3339_from_str(raw@) {
            Ok((secs, nanos)) => r == Ok::<UtcInstant, String>(UtcInstant { secs, nanos }),
            Err(e) => r matches Err(t) && t@ == "invalid "@ + label@ + " `"@ + raw@
                + "` (expected RFC 3339): "@ + e,
        },
{
    match rfc3339_parse(raw) {
        Ok(t) => Ok(t),
        Err(e) => {
            let mut v: Vec<char> = Vec::new();
            push_str_chars(&mut v, "invalid ");
            push_str_chars(&mut v, label);
            push_str_chars(&mut v, " `");
            push_str_chars(&mut v, raw);
            push_str_chars(&mut v, "` (expected RFC 3339): ");
            push_str_chars(&mut v, e.as_str());
            Err(string_from_chars(&v))
        },
    }
}

/// The values given to `inv invoice draft`.
#[derive(Debug, Clone, Default, PartialEq, Eq)]
pub struct DraftArgs {
    /// `--customer`
    pub customer: Option<String>,
    /// `--currency`
    pub currency: Option<String>,
    /// `--seller-jurisdiction` (default `CA-QC`)
    pub seller_jurisdiction: Option<String>,
    /// Every `--line`, in order.
    pub lines: Vec<String>,
    /// `--due` (RFC 3339)
    pub due: Option<String>,
    /// `--idempotency-key`
    pub idempotency_key: Option<String>,
    /// `--template-path`
    pub template_path: Option<String>,
}

/// A draft line seen as the `--line` value it came from.
pub open spec fn as_line_spec(l: DraftLineInput) -> LineSpec {
    LineSpec { description: l.description, quantity: l.quantity, unit_price: l.unit_price }
}

/// What building a draft from the values answers: the customer and the
/// currency are required (in that order); then every `--line` must parse
/// (at least one); then `--due`, when given, must be RFC 3339. The built
/// input carries the values, `CA-QC` as default jurisdiction, category
/// `standard` on every line, the actor and the CLI channel.
pub open spec fn draft_args_outcome(a: DraftArgs, actor: Actor, r: Result<DraftInvoiceInput, String>) -> bool {
    let raws = texts(a.lines@);
    if a.customer is None {
        r matches Err(m) && m@ == "--customer required"@
    } else if a.currency is None {
        r matches Err(m) && m@ == "--currency required"@
    } else {
        match r {
            Ok(d) => {
                &&& d.customer_id@ == a.customer->0@
                &&& d.currency@ == a.currency->0@
                &&& d.seller_jurisdiction@ == match a.seller_jurisdiction {
                    Some(s) => s@,
                    None => "CA-QC"@,
                }
                &&& raws.len() > 0
                &&& d.lines@.len() == raws.len()
                &&& forall|i: int|
                    0 <= i < raws.len() ==> line_outcome(raws[i], Ok(as_line_spec(#[trigger] d.lines@[i])))
                        && d.lines@[i].tax_category@ == "standard"@
                &&& match a.due {
                    None => d.due_at is None,
                    Some(t) => rfc3339_from_str(t@) matches Ok((secs, nanos)) && d.due_at == Some(
                        UtcInstant { secs, nanos },
                    ),
                }
                &&& same_opt(d.idempotency_key, a.idempotency_key)
                &&& same_opt(d.template_path, a.template_path)
                &&& d.schedule_id is None
                &&& d.actor == actor
                &&& d.channel == Channel::Cli
            },
            Err(m) => lines_outcome(raws, Err(m)) || {
                &&& raws.len() > 0
                &&& forall|i: int| 0 <= i < raws.len() ==> #[trigger] line_is_ok(raws[i])
                &&& a.due matches Some(t) && rfc3339_from_str(t@) matches Err(e) && m@
                    == "invalid "@ + "--due"@ + " `"@ + t@ + "` (expected RFC 3339): "@ + e
            },
        }
    }
}

/// Two optional strings with the same text.
pub open spec fn same_opt(a: Option<String>, b: Option<String>) -> bool {
    match (a, b) {
        (Some(x), Some(y)) => x@ == y@,
        (None, None) => true,
        _ => false,
    }
}

fn clone_opt(o: &Option<String>) -> (r: Option<String>)
    ensures
        same_opt(r, *o),
{
    match o {
        Some(s) => Some(s.clone()),
        None => None,
    }
}

/// Build the draft input of `inv invoice draft`.
pub fn build_draft_input(a: &DraftArgs, actor: Actor) -> (r: Result<DraftInvoiceInput, String>)
    ensures
        draft_args_outcome(*a, actor, r),
{
    let customer = match &a.customer {
        Some(c) => c.clone(),
        None => {
            return Err("--customer required".to_string());
        },
    };
    let currency = match &a.currency {
        Some(c) => c.clone(),
        None => {
            return Err("--currency required".to_string());
        },
    };
    let seller = match &a.seller_jurisdiction {
        Some(s) => s.clone(),
        None => "CA-QC".to_string(),
    };
    let line_args = a.lines.as_slice();
    let specs = match parse_line_args(line_args) {
        Ok(v) => v,
        Err(m) => {
            return Err(m);
        },
    };
    let ghost raws = texts(a.lines@);
    let mut lines: Vec<DraftLineInput> = Vec::new();
    let mut i: usize = 0;
    while i < specs.len()
        invariant
            i <= specs@.len(),
            specs@.len() == raws.len(),
            lines@.len() == i,
            forall|j: int| 0 <= j < raws.len() ==> line_outcome(#[trigger] raws[j], Ok(specs@[j])),
            forall|j: int|
                0 <= j < i ==> line_outcome(raws[j], Ok(as_line_spec(#[trigger] lines@[j])))
                    && lines@[j].tax_category@ == "standard"@,
        decreases specs.len() - i,
    {
        let l = &specs[i];
        let dl = DraftLineInput {
            description: l.description.clone(),
            quantity: l.quantity,
            unit_price: l.unit_price,
            tax_category: "standard".to_string(),
        };
        assert(line_outcome(raws[i as int], Ok(specs@[i as int])));
        lines.push(dl);
        i = i + 1;
    }
    let due_at = match &a.due {
        None => None,
        Some(t) => match parse_datetime("--due", t.as_str()) {
            Ok(v) => Some(v),
            Err(m) => {
                proof {
                    assert forall|j: int| 0 <= j < raws.len() implies #[trigger] line_is_ok(raws[j]) by {
                        assert(line_outcome(raws[j], Ok(specs@[j])));
                    }
                }
                return Err(m);
            },
        },
    };
    Ok(
        DraftInvoiceInput {
            customer_id: customer,
            seller_jurisdiction: seller,
            currency,
            lines,
            idempotency_key: clone_opt(&a.idempotency_key),
            actor,
            channel: Channel::Cli,
            due_at,
            template_path: clone_opt(&a.template_path),
            schedule_id: None,
        },
    )
}

/// Build the input of `inv invoice issue <id>`.
pub fn build_issue_input(id: &Option<String>, actor: Actor) -> (r: Result<IssueInvoiceInput, String>)
    ensures
        match id {
            None => r matches Err(m) && m@ == "invoice id required"@,
            Some(s) => r matches Ok(i) && i.invoice_id@ == s@ && i.idempotency_key is None && i.actor
                == actor && i.channel == Channel::Cli,
        },
{
    match id {
        None => Err("invoice id required".to_string()),
        Some(s) => Ok(
            IssueInvoiceInput {
                invoice_id: s.clone(),
                idempotency_key: None,
                actor,
                channel: Channel::Cli,
            },
        ),
    }
}

/// Build the input of `inv invoice pay <id> --amount ...`.
pub fn build_pay_input(
    id: &Option<String>,
    amount: &Option<String>,
    idempotency_key: &Option<String>,
    bus_event_id: &Option<String>,
    actor: Actor,
) -> (r: Result<MarkPaidInput, String>)
    ensures
        id is None ==> (r matches Err(m) && m@ == "invoice id required"@),
        id is Some && amount is None ==> (r matches Err(m) && m@ == "--amount required"@),
        id is Some && amount is Some ==> match r {
            Ok(p) => {
                &&& p.invoice_id@ == id->0@
                &&& decimal_outcome("--amount"@, amount->0@, Ok(p.amount))
                &&& p.received_at is None
                &&& same_opt(p.idempotency_key, *idempotency_key)
                &&& same_opt(p.bus_event_id, *bus_event_id)
                &&& p.actor == actor
                &&& p.channel == Channel::Cli
            },
            Err(m) => decimal_outcome("--amount"@, amount->0@, Err(m)),
        },
{
    let invoice_id = match id {
        Some(s) => s.clone(),
        None => {
            return Err("invoice id required".to_string());
        },
    };
    let raw = match amount {
        Some(s) => s,
        None => {
            return Err("--amount required".to_string());
        },
    };
    let amount = match parse_decimal("--amount", raw.as_str()) {
        Ok(m) => m,
        Err(e) => {
            return Err(e);
        },
    };
    Ok(
        MarkPaidInput {
            invoice_id,
            amount,
            received_at: None,
            idempotency_key: clone_opt(idempotency_key),
            bus_event_id: clone_opt(bus_event_id),
            actor,
            channel: Channel::Cli,
        },
    )
}

/// The CLI's actor: the `USER` name, or `cli` when unset.
pub fn cli_actor(user: Option<String>) -> (a: Actor)
    ensures
        a matches Actor::Cli { name } && name@ == match user {
            Some(u) => u@,
            None => "cli"@,
        },
{
    match user {
        Some(u) => Actor::Cli { name: u },
        None => Actor::Cli { name: "cli".to_string() },
    }
}

/// A relative path is read under the config file's directory, when that
/// is known; an absolute one (starting with `/`) as given.
pub open spec fn under_config_dir(path: Seq<char>, config_dir: Option<Seq<char>>) -> Seq<char> {
    if has_prefix(path, "/"@) {
        path
    } else {
        match config_dir {
            Some(d) if d.len() > 0 => path_join(d, path),
            _ => path,
        }
    }
}

/// Where the tax table is read from, in order of precedence: a value set
/// explicitly in the config file (resolved under its directory); else a
/// non-empty `INV_TAX_TABLES`; else the workspace-relative default.
pub open spec fn tax_table_path_spec(configured: Option<Seq<char>>, env: Option<Seq<char>>, config_dir: Option<Seq<char>>) -> Seq<char> {
    match configured {
        Some(c) => under_config_dir(c, config_dir),
        None => match env {
            Some(e) if e.len() > 0 => e,
            _ => "tax-tables/default.toml"@,
        },
    }
}

fn resolve_under(path: &str, config_dir: &Option<String>) -> (s: String)
    ensures
        s@ == under_config_dir(path@, opt_text(*config_dir)),
{
    if strip_prefix(path, "/").is_some() {
        return path.to_string();
    }
    if let Some(d) = config_dir {
        if chars_of(d.as_str()).len() > 0 {
            return join_path(d.as_str(), path);
        }
    }
    path.to_string()
}

/// Resolve the tax-table path. `configured` is the config file's
/// `tax.tax_tables` when the file sets it, `env` the value of
/// `INV_TAX_TABLES`.
pub fn tax_table_path(configured: &Option<String>, env: &Option<String>, config_dir: &Option<String>) -> (s: String)
    ensures
        s@ == tax_table_path_spec(opt_text(*configured), opt_text(*env), opt_text(*config_dir)),
{
    if let Some(c) = configured {
        return resolve_under(c.as_str(), config_dir);
    }
    if let Some(e) = env {
        if chars_of(e.as_str()).len() > 0 {
            return e.clone();
        }
    }
    default_tax_tables()
}


/// The values given to `inv schedule create`.
#[derive(Debug, Clone, Default, PartialEq, Eq)]
pub struct ScheduleArgs {
    /// `--customer`
    pub customer: Option<String>,
    /// `--currency`
    pub currency: Option<String>,
    /// `--cadence`
    pub cadence: Option<String>,
    /// `--start` (YYYY-MM-DD)
    pub start: Option<String>,
    /// `--end` (YYYY-MM-DD)
    pub end: Option<String>,
    /// `--auto-issue`
    pub auto_issue: bool,
    /// Every `--line`, in order.
    pub lines: Vec<String>,
}

/// A parsed `--start`/`--end` text as a date.
pub open spec fn date_of(t: (i32, u32, u32)) -> CalendarDate {
    CalendarDate { year: t.0, month: t.1, day: t.2 }
}

/// The message of a bad date value.
pub open spec fn bad_date_message(label: Seq<char>, raw: Seq<char>, e: Seq<char>) -> Seq<char> {
    "invalid "@ + label + " `"@ + raw + "` (expected YYYY-MM-DD): "@ + e
}

/// What building a schedule from the values answers: customer, currency,
/// cadence and start are required, in that order; the start, then the
/// end, must be dates; then every `--line` must parse (at least one).
/// The built input carries the values, category `standard` on every
/// template line, the actor and the CLI channel.
pub open spec fn schedule_args_outcome(a: ScheduleArgs, actor: Actor, r: Result<ScheduleCreateInput, String>) -> bool {
    let raws = texts(a.lines@);
    if a.customer is None {
        r matches Err(m) && m@ == "--customer required"@
    } else if a.currency is None {
        r matches Err(m) && m@ == "--currency required"@
    } else if a.cadence is None {
        r matches Err(m) && m@ == "--cadence required"@
    } else if a.start is None {
        r matches Err(m) && m@ == "--start required"@
    } else {
        match naive_date_from_str(a.start->0@) {
            Err(e) => r matches Err(m) && m@ == bad_date_message("--start"@, a.start->0@, e),
            Ok(sd) => match a.end {
                Some(t) if naive_date_from_str(t@) is Err => r matches Err(m) && m@
                    == bad_date_message("--end"@, t@, naive_date_from_str(t@)->Err_0),
                _ => match r {
                    Ok(d) => {
                        &&& d.customer_id@ == a.customer->0@
                        &&& d.currency@ == a.currency->0@
                        &&& d.cadence@ == a.cadence->0@
                        &&& d.start_date == date_of(sd)
                        &&& d.end_date == match a.end {
                            Some(t) => Some(date_of(naive_date_from_str(t@)->Ok_0)),
                            None => None,
                        }
                        &&& d.auto_issue == a.auto_issue
                        &&& raws.len() > 0
                        &&& d.template_lines@.len() == raws.len()
                        &&& forall|i: int|
                            0 <= i < raws.len() ==> line_outcome(
                                raws[i],
                                Ok(as_template_spec(#[trigger] d.template_lines@[i])),
                            ) && d.template_lines@[i].tax_category@ == "standard"@
                        &&& d.actor == actor
                        &&& d.channel == Channel::Cli
                    },
                    Err(m) => lines_outcome(raws, Err(m)),
                },
            },
        }
    }
}

/// A template line seen as the `--line` value it came from.
pub open spec fn as_template_spec(l: ScheduleLineInput) -> LineSpec {
    LineSpec { description: l.description, quantity: l.quantity, unit_price: l.unit_price }
}

/// Build the input of `inv schedule create`.
pub fn build_schedule_create_input(a: &ScheduleArgs, actor: Actor) -> (r: Result<ScheduleCreateInput, String>)
    ensures
        schedule_args_outcome(*a, actor, r),
{
    let customer = match &a.customer {
        Some(c) => c.clone(),
        None => {
            return Err("--customer required".to_string());
        },
    };
    let currency = match &a.currency {
        Some(c) => c.clone(),
        None => {
            return Err("--currency required".to_string());
        },
    };
    let cadence = match &a.cadence {
        Some(c) => c.clone(),
        None => {
            return Err("--cadence required".to_string());
        },
    };
    let start_raw = match &a.start {
        Some(s) => s,
        None => {
            return Err("--start required".to_string());
        },
    };
    let start_date = match parse_date("--start", start_raw.as_str()) {
        Ok(d) => d,
        Err(m) => {
            return Err(m);
        },
    };
    let end_date = match &a.end {
        None => None,
        Some(t) => match parse_date("--end", t.as_str()) {
            Ok(d) => Some(d),
            Err(m) => {
                return Err(m);
            },
        },
    };
    let line_args = a.lines.as_slice();
    let specs = match parse_line_args(line_args) {
        Ok(v) => v,
        Err(m) => {
            return Err(m);
        },
    };
    let ghost raws = texts(a.lines@);
    let mut lines: Vec<ScheduleLineInput> = Vec::new();
    let mut i: usize = 0;
    while i < specs.len()
        invariant
            i <= specs@.len(),
            specs@.len() == raws.len(),
            lines@.len() == i,
            forall|j: int| 0 <= j < raws.len() ==> line_outcome(#[trigger] raws[j], Ok(specs@[j])),
            forall|j: int|
                0 <= j < i ==> line_outcome(raws[j], Ok(as_template_spec(#[trigger] lines@[j])))
                    && lines@[j].tax_category@ == "standard"@,
        decreases specs.len() - i,
    {
        let l = &specs[i];
        let tl = ScheduleLineInput {
            description: l.description.clone(),
            quantity: l.quantity,
            unit_price: l.unit_price,
            tax_category: "standard".to_string(),
        };
        assert(line_outcome(raws[i as int], Ok(specs@[i as int])));
        lines.push(tl);
        i = i + 1;
    }
    Ok(
        ScheduleCreateInput {
            customer_id: customer,
            template_lines: lines,
            currency,
            cadence,
            start_date,
            end_date,
            auto_issue: a.auto_issue,
            actor,
            channel: Channel::Cli,
        },
    )
}

} // verus!
