//! Drafting an invoice: input validation, and the audit row and event a
//! new draft records.

use vstd::prelude::*;
use crate::bus::events::TOPIC_INVOICE_DRAFTED;
use crate::bus::outbox::InvoiceHistoryRow;
use crate::commands::ctx::{audit_text, history_channel_of, Actor, Channel, UtcInstant};
use crate::commands::error::CoreError;
use crate::domain::{decimal_display, history_channel_text, history_channel_str, InvoiceState, Money};
use crate::text::{
    append_chars, decimal_chars, is_blank, push_str_chars, str_eq, string_from_chars, trim_spec,
    u64_to_decimal,
};

verus! {

/// One line of a draft.
#[derive(Debug, Clone, PartialEq, Eq)]
pub struct DraftLineInput {
    /// Free-form description (must not be blank).
    pub description: String,
    /// Quantity (must be > 0).
    pub quantity: Money,
    /// Unit price (must be >= 0).
    pub unit_price: Money,
    /// Tax category name (`standard` by default).
    pub tax_category: String,
}

/// Input of the draft command.
#[derive(Debug, Clone, PartialEq, Eq)]
pub struct DraftInvoiceInput {
    /// Bill-to customer id.
    pub customer_id: String,
    /// Seller jurisdiction name.
    pub seller_jurisdiction: String,
    /// ISO 4217 currency code.
    pub currency: String,
    /// Lines (at least one).
    pub lines: Vec<DraftLineInput>,
    /// Caller-supplied dedupe key.
    pub idempotency_key: Option<String>,
    /// Who triggered.
    pub actor: Actor,
    /// Channel the request arrived on.
    pub channel: Channel,
    /// Optional due date.
    pub due_at: Option<UtcInstant>,
    /// Optional template override path.
    pub template_path: Option<String>,
    /// The recurring schedule this draft materialises, if any.
    pub schedule_id: Option<String>,
}

/// The currencies supported at v1.
pub open spec fn supported_currency(code: Seq<char>) -> bool {
    code == "USD"@ || code == "CAD"@ || code == "DZD"@
}

/// Every amount on the lines is representable as a decimal.
pub open spec fn lines_wf(lines: Seq<DraftLineInput>) -> bool {
    forall|i: int| 0 <= i < lines.len() ==> #[trigger] lines[i].quantity.wf() && lines[i].unit_price.wf()
}

/// `"line {i}: "`
pub open spec fn line_prefix(i: nat) -> Seq<char> {
    "line "@ + decimal_chars(i) + ": "@
}

/// Why line `i` is rejected, if it is.
pub open spec fn draft_line_error(i: nat, l: DraftLineInput) -> Option<Seq<char>> {
    if trim_spec(l.description@).len() == 0 {
        Some(line_prefix(i) + "description must not be empty"@)
    } else if l.quantity.mantissa <= 0 {
        Some(
            line_prefix(i) + "quantity must be > 0 (got "@ + decimal_display(
                l.quantity.mantissa,
                l.quantity.scale,
            ) + ")"@,
        )
    } else if l.unit_price.mantissa < 0 {
        Some(
            line_prefix(i) + "unit_price must be >= 0 (got "@ + decimal_display(
                l.unit_price.mantissa,
                l.unit_price.scale,
            ) + ")"@,
        )
    } else {
        None
    }
}

/// The first rejected line at index `k` or later, with its message.
pub open spec fn draft_lines_error_from(lines: Seq<DraftLineInput>, k: int) -> Option<Seq<char>>
    decreases lines.len() - k,
{
    if k < 0 || k >= lines.len() {
        None
    } else {
        match draft_line_error(k as nat, lines[k]) {
            Some(m) => Some(m),
            None => draft_lines_error_from(lines, k + 1),
        }
    }
}

/// The validation message for a draft input, or `None` when it is valid.
pub open spec fn draft_validation_error(input: DraftInvoiceInput) -> Option<Seq<char>> {
    if input.lines@.len() == 0 {
        Some("draft_invoice requires at least one line"@)
    } else if !supported_currency(input.currency@) {
        Some("currency "@ + input.currency@ + " not supported at v1 (use USD, CAD, or DZD)"@)
    } else {
        draft_lines_error_from(input.lines@, 0)
    }
}

/// The outcome `validate` promises for a validation message.
pub open spec fn validation_outcome(e: Option<Seq<char>>, r: Result<(), CoreError>) -> bool {
    match e {
        None => r is Ok,
        Some(m) => r matches Err(CoreError::Validation(s)) && s@ == m,
    }
}

fn line_error(i: usize, l: &DraftLineInput) -> (r: Option<String>)
    requires
        l.quantity.wf(),
        l.unit_price.wf(),
    ensures
        match draft_line_error(i as nat, *l) {
            None => r is None,
            Some(m) => r is Some && r->0@ == m,
        },
{
    let mut v: Vec<char> = Vec::new();
    push_str_chars(&mut v, "line ");
    let n = u64_to_decimal(i as u64);
    append_chars(&mut v, &n);
    push_str_chars(&mut v, ": ");
    if is_blank(l.description.as_str()) {
        push_str_chars(&mut v, "description must not be empty");
        Some(string_from_chars(&v))
    } else if !l.quantity.is_positive() {
        push_str_chars(&mut v, "quantity must be > 0 (got ");
        let t = l.quantity.to_text();
        push_str_chars(&mut v, t.as_str());
        push_str_chars(&mut v, ")");
        Some(string_from_chars(&v))
    } else if l.unit_price.is_negative() {
        push_str_chars(&mut v, "unit_price must be >= 0 (got ");
        let t = l.unit_price.to_text();
        push_str_chars(&mut v, t.as_str());
        push_str_chars(&mut v, ")");
        Some(string_from_chars(&v))
    } else {
        None
    }
}

/// The currency code is one of USD, CAD, DZD.
pub fn is_supported_currency(code: &str) -> (r: bool)
    ensures
        r == supported_currency(code@),
{
    str_eq(code, "USD") || str_eq(code, "CAD") || str_eq(code, "DZD")
}

impl DraftInvoiceInput {
    /// Validation, run before anything else: at least one line, a
    /// supported currency, and every line with a non-blank description,
    /// a positive quantity and a non-negative unit price. The first
    /// failure is reported.
    pub fn validate(&self) -> (r: Result<(), CoreError>)
        requires
            lines_wf(self.lines@),
        ensures
            validation_outcome(draft_validation_error(*self), r),
    {
        if self.lines.len() == 0 {
            return Err(CoreError::Validation("draft_invoice requires at least one line".to_string()));
        }
        if !is_supported_currency(self.currency.as_str()) {
            let mut v: Vec<char> = Vec::new();
            push_str_chars(&mut v, "currency ");
            push_str_chars(&mut v, self.currency.as_str());
            push_str_chars(&mut v, " not supported at v1 (use USD, CAD, or DZD)");
            return Err(CoreError::Validation(string_from_chars(&v)));
        }
        let mut i: usize = 0;
        while i < self.lines.len()
            invariant
                i <= self.lines@.len(),
                self.lines@.len() > 0,
                supported_currency(self.currency@),
                lines_wf(self.lines@),
                draft_lines_error_from(self.lines@, 0) == draft_lines_error_from(
                    self.lines@,
                    i as int,
                ),
            decreases self.lines.len() - i,
        {
            let l = &self.lines[i];
            assert(l.quantity.wf() && l.unit_price.wf());
            let le = line_error(i, l);
            assert(draft_lines_error_from(self.lines@, i as int) == match draft_line_error(
                i as nat,
                self.lines@[i as int],
            ) {
                Some(m) => Some(m),
                None => draft_lines_error_from(self.lines@, i + 1),
            });
            match le {
                Some(m) => {
                    return Err(CoreError::Validation(m));
                },
                None => {},
            }
            i = i + 1;
        }
        Ok(())
    }
}

/// The audit row that records a new draft.
pub open spec fn draft_history_row_spec(
    row: InvoiceHistoryRow,
    history_id: Seq<char>,
    invoice_id: Seq<char>,
    actor: Actor,
    channel: Channel,
    now: UtcInstant,
) -> bool {
    &&& row.id@ == history_id
    &&& row.invoice_id@ == invoice_id
    &&& row.from_state is None
    &&& row.to_state == InvoiceState::Draft
    &&& row.event@ == "draft"@
    &&& row.actor matches Some(a) && a@ == audit_text(actor)
    &&& row.channel == history_channel_of(channel)
    &&& row.bus_event_id is None
    &&& row.reason is None
    &&& row.occurred_at == now
}

/// The audit row a new draft records: no previous state, `Draft`, tag
/// `draft`, the actor's audit string and the channel.
pub fn draft_history_row(
    history_id: String,
    invoice_id: String,
    actor: &Actor,
    channel: Channel,
    now: UtcInstant,
) -> (row: InvoiceHistoryRow)
    ensures
        draft_history_row_spec(row, history_id@, invoice_id@, *actor, channel, now),
{
    InvoiceHistoryRow {
        id: history_id,
        invoice_id,
        from_state: None,
        to_state: InvoiceState::Draft,
        event: "draft".to_string(),
        actor: Some(actor.audit_string()),
        channel: channel.history_channel(),
        bus_event_id: None,
        reason: None,
        occurred_at: now,
    }
}

/// Topic and body of the `drafted` event: invoice id, customer, currency,
/// subtotal and total (equal at draft time), actor and channel.
#[derive(Debug, Clone, PartialEq, Eq)]
pub struct DraftedEvent {
    /// Always `inv.billing.invoice.drafted`.
    pub topic: String,
    /// Payload.
    pub payload: crate::bus::events::InvoiceDrafted,
}

/// Build the `drafted` event of a new draft.
pub fn drafted_event(
    invoice_id: &str,
    customer_id: &str,
    currency: &str,
    subtotal: Money,
    actor: &Actor,
    channel: Channel,
) -> (e: DraftedEvent)
    requires
        subtotal.wf(),
    ensures
        e.topic@ == TOPIC_INVOICE_DRAFTED@,
        e.payload.invoice_id@ == invoice_id@,
        e.payload.customer_id@ == customer_id@,
        e.payload.currency@ == currency@,
        e.payload.subtotal@ == decimal_display(subtotal.mantissa, subtotal.scale),
        e.payload.total@ == decimal_display(subtotal.mantissa, subtotal.scale),
        e.payload.actor@ == audit_text(*actor),
        e.payload.channel@ == history_channel_text(history_channel_of(channel)),
{
    DraftedEvent {
        topic: TOPIC_INVOICE_DRAFTED.to_string(),
        payload: crate::bus::events::InvoiceDrafted {
            invoice_id: invoice_id.to_string(),
            customer_id: customer_id.to_string(),
            currency: currency.to_string(),
            subtotal: subtotal.to_text(),
            total: subtotal.to_text(),
            actor: actor.audit_string(),
            channel: history_channel_str(channel.history_channel()).to_string(),
        },
    }
}


/// `keys[i]` holds exactly `key`.
pub open spec fn key_matches(k: Option<String>, key: Seq<char>) -> bool {
    match k {
        Some(s) => s@ == key,
        None => false,
    }
}

/// The first stored invoice whose idempotency key is `key`: the position
/// in `keys` (one entry per invoice, in listing order), if any.
pub fn find_by_idempotency_key(keys: &[Option<String>], key: &str) -> (r: Option<usize>)
    ensures
        match r {
            Some(i) => i < keys@.len() && key_matches(keys@[i as int], key@) && forall|j: int|
                0 <= j < i ==> !key_matches(#[trigger] keys@[j], key@),
            None => forall|j: int| 0 <= j < keys@.len() ==> !key_matches(#[trigger] keys@[j], key@),
        },
{
    let mut i: usize = 0;
    while i < keys.len()
        invariant
            i <= keys@.len(),
            forall|j: int| 0 <= j < i ==> !key_matches(#[trigger] keys@[j], key@),
        decreases keys.len() - i,
    {
        let hit = match &keys[i] {
            Some(k) => str_eq(k.as_str(), key),
            None => false,
        };
        if hit {
            return Some(i);
        }
        i = i + 1;
    }
    None
}

} // verus!
