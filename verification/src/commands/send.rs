//! Sending an invoice: destination checks, the target state, and local
//! delivery to a sink.
//!
//! `file://` and `stdout` are delivered here; `bus://`, `webhook://` and
//! `link://` are recognised but must go through the render-only path and
//! an adapter-owned transport.

use vstd::prelude::*;
use crate::commands::error::{CoreError, TransitionError};
use crate::domain::InvoiceState;
use crate::text::{
    ascii_lower, chars_of, is_blank, push_str_chars, split_first, split_head, str_eq,
    string_from_chars, strip_prefix, strip_prefix_spec, to_ascii_lower, trim_spec,
};

verus! {

/// Where rendered bytes go for the `stdout` scheme.
pub trait SendSink {
    /// Every byte the sink has accepted so far, in order.
    spec fn written(&self) -> Seq<u8>;

    /// The message of the sink's last failed write.
    spec fn last_error(&self) -> Seq<char>;

    /// The sink's writes cannot fail (an in-memory buffer).
    spec fn infallible(&self) -> bool;

    /// Write all of `bytes`; `Err` carries the I/O error's message. On
    /// success the sink has accepted exactly `bytes` after what it held;
    /// on failure the message is the sink's last error. An infallible
    /// sink always succeeds.
    fn write_all(&mut self, bytes: &[u8]) -> (r: Result<(), String>)
        ensures
            r is Ok ==> final(self).written() == old(self).written() + bytes@,
            r matches Err(e) ==> e@ == final(self).last_error(),
            old(self).infallible() ==> r is Ok,
    ;
}

/// `std::io::stdout().write_all(bytes)`; the error, if any, as text.
/// Whether the write succeeds depends on the process's stdout, so
/// nothing is stated of the result.
#[verifier::external_body]
fn stdout_write_all(bytes: &[u8]) -> Result<(), String> {
    match std::io::Write::write_all(&mut std::io::stdout(), bytes) {
        Ok(()) => Ok(()),
        Err(e) => Err(e.to_string()),
    }
}

/// The default sink: the process's standard output. It keeps a ghost
/// record of what it has written and of its last failure.
#[derive(Clone, Copy)]
pub struct StdoutSink {
    log: Ghost<Seq<u8>>,
    failure: Ghost<Seq<char>>,
}

impl StdoutSink {
    /// A sink that has written nothing yet.
    pub fn new() -> (s: Self)
        ensures
            s.written() == Seq::<u8>::empty(),
    {
        StdoutSink { log: Ghost(Seq::empty()), failure: Ghost(Seq::empty()) }
    }
}

impl Default for StdoutSink {
    fn default() -> (s: Self)
        ensures
            s.written() == Seq::<u8>::empty(),
    {
        StdoutSink::new()
    }
}

impl SendSink for StdoutSink {
    closed spec fn written(&self) -> Seq<u8> {
        self.log@
    }

    closed spec fn last_error(&self) -> Seq<char> {
        self.failure@
    }

    /// Writing to the process's stdout can fail.
    open spec fn infallible(&self) -> bool {
        false
    }

    fn write_all(&mut self, bytes: &[u8]) -> (r: Result<(), String>) {
        let r = stdout_write_all(bytes);
        match &r {
            Ok(()) => {
                self.log = Ghost(self.log@ + bytes@);
            },
            Err(e) => {
                self.failure = Ghost(e@);
            },
        }
        r
    }
}

impl SendSink for Vec<u8> {
    open spec fn written(&self) -> Seq<u8> {
        self@
    }

    /// A buffer never fails, so it has no error message.
    open spec fn last_error(&self) -> Seq<char> {
        Seq::empty()
    }

    open spec fn infallible(&self) -> bool {
        true
    }

    /// Append every byte, in order; never fails.
    fn write_all(&mut self, bytes: &[u8]) -> (r: Result<(), String>)
        ensures
            r is Ok,
            final(self)@ == old(self)@ + bytes@,
    {
        let mut i: usize = 0;
        while i < bytes.len()
            invariant
                i <= bytes@.len(),
                self@ == old(self)@ + bytes@.subrange(0, i as int),
            decreases bytes.len() - i,
        {
            self.push(bytes[i]);
            assert(self@ =~= old(self)@ + bytes@.subrange(0, i + 1));
            i = i + 1;
        }
        assert(bytes@.subrange(0, bytes@.len() as int) =~= bytes@);
        Ok(())
    }
}

/// Input of the send command.
#[derive(Debug, Clone, PartialEq, Eq)]
pub struct SendInvoiceInput {
    /// Invoice to send.
    pub invoice_id: String,
    /// Destination URI (`file://<path>` or `stdout`).
    pub destination_uri: String,
    /// Caller-supplied dedupe key.
    pub idempotency_key: Option<String>,
    /// Who triggered.
    pub actor: crate::commands::ctx::Actor,
    /// Channel.
    pub channel: crate::commands::ctx::Channel,
}

/// Input of the render-only send (adapter-owned transports).
#[derive(Debug, Clone, PartialEq, Eq)]
pub struct SendInvoiceRenderInput {
    /// Invoice to send.
    pub invoice_id: String,
    /// Destination URI, recorded verbatim.
    pub destination_uri: String,
    /// Caller-supplied dedupe key.
    pub idempotency_key: Option<String>,
    /// Who triggered.
    pub actor: crate::commands::ctx::Actor,
    /// Channel.
    pub channel: crate::commands::ctx::Channel,
}

/// A blank destination is rejected.
pub open spec fn destination_outcome(uri: Seq<char>, r: Result<(), CoreError>) -> bool {
    if trim_spec(uri).len() == 0 {
        r matches Err(CoreError::Validation(m)) && m@ == "destination_uri must not be empty"@
    } else {
        r is Ok
    }
}

fn check_destination(uri: &str) -> (r: Result<(), CoreError>)
    ensures
        destination_outcome(uri@, r),
{
    if is_blank(uri) {
        Err(CoreError::Validation("destination_uri must not be empty".to_string()))
    } else {
        Ok(())
    }
}

impl SendInvoiceInput {
    /// The destination must not be blank.
    pub fn validate(&self) -> (r: Result<(), CoreError>)
        ensures
            destination_outcome(self.destination_uri@, r),
    {
        check_destination(self.destination_uri.as_str())
    }
}

impl SendInvoiceRenderInput {
    /// The destination must not be blank.
    pub fn validate(&self) -> (r: Result<(), CoreError>)
        ensures
            destination_outcome(self.destination_uri@, r),
    {
        check_destination(self.destination_uri.as_str())
    }
}

/// Scheme of a destination: the text before the first `://` (all of it
/// when there is none), ASCII lower-cased; the bare word `stdout` is its
/// own scheme.
pub open spec fn scheme_spec(uri: Seq<char>) -> Seq<char> {
    let head = split_head(uri, "://"@);
    if head == uri && uri == "stdout"@ {
        "stdout"@
    } else {
        ascii_lower(head)
    }
}

/// The destination's scheme (`file`, `stdout`, `webhook`, ...).
pub fn scheme_of(uri: &str) -> (s: String)
    ensures
        s@ == scheme_spec(uri@),
{
    let u = chars_of(uri);
    let sep = chars_of("://");
    let head = split_first(&u, &sep);
    let hs = string_from_chars(&head);
    if str_eq(hs.as_str(), uri) && str_eq(uri, "stdout") {
        return "stdout".to_string();
    }
    let low = to_ascii_lower(&head);
    string_from_chars(&low)
}

/// The path of a `file://` destination; an error without the prefix or
/// with nothing after it.
pub open spec fn file_path_outcome(uri: Seq<char>, r: Result<String, CoreError>) -> bool {
    match strip_prefix_spec(uri, "file://"@) {
        None => r matches Err(CoreError::Validation(m)) && m@ == "file URI: missing `file://` prefix: "@
            + uri,
        Some(rest) => if rest.len() == 0 {
            r matches Err(CoreError::Validation(m)) && m@ == "file URI: empty path component"@
        } else {
            r matches Ok(p) && p@ == rest
        },
    }
}

/// The filesystem path named by a `file://` URI.
pub fn file_path_from_uri(uri: &str) -> (r: Result<String, CoreError>)
    ensures
        file_path_outcome(uri@, r),
{
    match strip_prefix(uri, "file://") {
        None => {
            let mut v: Vec<char> = Vec::new();
            push_str_chars(&mut v, "file URI: missing `file://` prefix: ");
            push_str_chars(&mut v, uri);
            Err(CoreError::Validation(string_from_chars(&v)))
        },
        Some(rest) => {
            if chars_of(rest.as_str()).len() == 0 {
                Err(CoreError::Validation("file URI: empty path component".to_string()))
            } else {
                Ok(rest)
            }
        },
    }
}

/// A destination scheme delivered by the command itself.
#[derive(Debug, Clone, Copy, PartialEq, Eq, Structural)]
pub enum LocalScheme {
    /// Write to a file.
    File,
    /// Write to the sink.
    Stdout,
}

/// What the scheme check answers for a scheme.
pub open spec fn local_scheme_outcome(scheme: Seq<char>, r: Result<LocalScheme, CoreError>) -> bool {
    if scheme == "file"@ {
        r == Ok::<LocalScheme, CoreError>(LocalScheme::File)
    } else if scheme == "stdout"@ {
        r == Ok::<LocalScheme, CoreError>(LocalScheme::Stdout)
    } else if scheme == "bus"@ || scheme == "webhook"@ || scheme == "link"@ {
        r matches Err(CoreError::NotImplemented(m)) && m@ == "send_invoice: "@ + scheme
            + ":// dispatch must go through send_invoice_render + an adapter-owned transport"@
    } else {
        r matches Err(CoreError::Validation(m)) && m@ == "send_invoice: unknown destination scheme `"@
            + scheme + "`"@
    }
}

/// Check a destination's scheme before anything is mutated: `file` and
/// `stdout` are delivered locally, `bus`/`webhook`/`link` are not
/// implemented here, anything else is invalid.
pub fn local_scheme(uri: &str) -> (r: Result<LocalScheme, CoreError>)
    ensures
        local_scheme_outcome(scheme_spec(uri@), r),
{
    let scheme = scheme_of(uri);
    let s = scheme.as_str();
    if str_eq(s, "file") {
        Ok(LocalScheme::File)
    } else if str_eq(s, "stdout") {
        Ok(LocalScheme::Stdout)
    } else if str_eq(s, "bus") || str_eq(s, "webhook") || str_eq(s, "link") {
        let mut v: Vec<char> = Vec::new();
        push_str_chars(&mut v, "send_invoice: ");
        push_str_chars(&mut v, s);
        push_str_chars(&mut v, ":// dispatch must go through send_invoice_render + an adapter-owned transport");
        Err(CoreError::NotImplemented(string_from_chars(&v)))
    } else {
        let mut v: Vec<char> = Vec::new();
        push_str_chars(&mut v, "send_invoice: unknown destination scheme `");
        push_str_chars(&mut v, s);
        push_str_chars(&mut v, "`");
        Err(CoreError::Validation(string_from_chars(&v)))
    }
}

/// The state an invoice in `from` enters when sent: `Issued` and
/// `Viewed` go where the lifecycle's `Send` transition says
/// (`lifecycle_send`, the table's answer for `(from, Send)`), `Sent`
/// stays `Sent` (a resend), any other state refuses `send`.
pub fn send_target_state(
    from: InvoiceState,
    lifecycle_send: Result<InvoiceState, TransitionError>,
) -> (r: Result<InvoiceState, CoreError>)
    ensures
        (from == InvoiceState::Issued || from == InvoiceState::Viewed) ==> match lifecycle_send {
            Ok(s) => r == Ok::<InvoiceState, CoreError>(s),
            Err(e) => r == Err::<InvoiceState, CoreError>(CoreError::FsmTransition(e)),
        },
        from == InvoiceState::Sent ==> r == Ok::<InvoiceState, CoreError>(InvoiceState::Sent),
        !(from == InvoiceState::Issued || from == InvoiceState::Viewed || from == InvoiceState::Sent)
            ==> (r matches Err(CoreError::FsmTransition(TransitionError::Illegal { state, event }))
            && state == from && event@ == "send"@),
{
    match from {
        InvoiceState::Issued | InvoiceState::Viewed => match lifecycle_send {
            Ok(s) => Ok(s),
            Err(e) => Err(CoreError::FsmTransition(e)),
        },
        InvoiceState::Sent => Ok(InvoiceState::Sent),
        _ => Err(
            CoreError::FsmTransition(
                TransitionError::Illegal { state: from, event: "send".to_string() },
            ),
        ),
    }
}

/// `file://{path}`: how a file delivery is recorded.
pub fn file_delivered_to(path: &str) -> (s: String)
    ensures
        s@ == "file://"@ + path@,
{
    let mut v: Vec<char> = Vec::new();
    push_str_chars(&mut v, "file://");
    push_str_chars(&mut v, path);
    string_from_chars(&v)
}

/// Deliver to the sink: without one the send is refused; a failed write
/// is reported with its message; success is recorded as `stdout`. A sink
/// whose writes cannot fail always takes the bytes.
pub fn deliver_to_sink<S: SendSink>(sink: Option<&mut S>, bytes: &[u8]) -> (r: Result<String, CoreError>)
    ensures
        sink is None ==> (r matches Err(CoreError::Validation(m)) && m@
            == "send_invoice: stdout destination requires a sink (none supplied)"@),
        sink is Some ==> (r matches Ok(s) && s@ == "stdout"@) || r matches Err(
            CoreError::Validation(_),
        ),
        sink matches Some(k) ==> (r is Ok ==> final(k).written() == k.written() + bytes@),
        sink matches Some(k) ==> (r matches Err(CoreError::Validation(m)) ==> m@
            == "writing to stdout sink: "@ + final(k).last_error()),
        sink matches Some(k) ==> (k.infallible() ==> r is Ok),
{
    match sink {
        None => Err(
            CoreError::Validation(
                "send_invoice: stdout destination requires a sink (none supplied)".to_string(),
            ),
        ),
        Some(s) => match s.write_all(bytes) {
            Ok(()) => Ok("stdout".to_string()),
            Err(e) => {
                let mut v: Vec<char> = Vec::new();
                push_str_chars(&mut v, "writing to stdout sink: ");
                push_str_chars(&mut v, e.as_str());
                Err(CoreError::Validation(string_from_chars(&v)))
            },
        },
    }
}


/// What a send does once its checks pass.
#[derive(Debug, Clone, PartialEq, Eq)]
pub enum SendPlan {
    /// The same idempotency key already sent this invoice: answer with
    /// the earlier delivery; nothing is written, moved or published.
    Replay {
        /// Where the earlier send delivered.
        delivered_to: String,
    },
    /// Deliver locally and move the invoice.
    Deliver {
        /// `file` or `stdout`.
        scheme: LocalScheme,
        /// State the invoice enters (`Sent`).
        to_state: InvoiceState,
    },
}

/// What `plan_send` answers (see there).
pub open spec fn send_plan_outcome(
    input: SendInvoiceInput,
    prior_delivery: Option<String>,
    from: InvoiceState,
    lifecycle_send: Result<InvoiceState, TransitionError>,
    r: Result<SendPlan, CoreError>,
) -> bool {
    let uri = input.destination_uri@;
    let sc = scheme_spec(uri);
    if trim_spec(uri).len() == 0 {
        r matches Err(CoreError::Validation(m)) && m@ == "destination_uri must not be empty"@
    } else if !(sc == "file"@ || sc == "stdout"@) {
        r is Err && local_scheme_outcome(
            sc,
            match r {
                Ok(_) => Ok(LocalScheme::File),
                Err(e) => Err(e),
            },
        )
    } else if input.idempotency_key is Some && prior_delivery is Some {
        r matches Ok(SendPlan::Replay { delivered_to }) && delivered_to@ == prior_delivery->0@
    } else if from == InvoiceState::Issued || from == InvoiceState::Viewed {
        match lifecycle_send {
            Ok(st) => r matches Ok(SendPlan::Deliver { scheme, to_state }) && to_state == st && (
            scheme == LocalScheme::File <==> sc == "file"@),
            Err(e) => r == Err::<SendPlan, CoreError>(CoreError::FsmTransition(e)),
        }
    } else if from == InvoiceState::Sent {
        r matches Ok(SendPlan::Deliver { scheme, to_state }) && to_state == InvoiceState::Sent && (
        scheme == LocalScheme::File <==> sc == "file"@)
    } else {
        r matches Err(CoreError::FsmTransition(TransitionError::Illegal { state, event })) && state
            == from && event@ == "send"@
    }
}

/// Decide a send, in the command's order: the destination must not be
/// blank; its scheme must be delivered locally; a prior delivery under
/// the same idempotency key (`prior_delivery`, looked up only when a key
/// is given) is replayed; otherwise the invoice in `from` moves where
/// `send_target_state` says (`lifecycle_send` is the lifecycle table's
/// answer for `(from, Send)`).
pub fn plan_send(
    input: &SendInvoiceInput,
    prior_delivery: Option<String>,
    from: InvoiceState,
    lifecycle_send: Result<InvoiceState, TransitionError>,
) -> (r: Result<SendPlan, CoreError>)
    ensures
        send_plan_outcome(*input, prior_delivery, from, lifecycle_send, r),
{
    match input.validate() {
        Ok(()) => {},
        Err(e) => {
            return Err(e);
        },
    }
    let scheme = match local_scheme(input.destination_uri.as_str()) {
        Ok(sc) => sc,
        Err(e) => {
            return Err(e);
        },
    };
    if input.idempotency_key.is_some() {
        if let Some(d) = prior_delivery {
            return Ok(SendPlan::Replay { delivered_to: d });
        }
    }
    match send_target_state(from, lifecycle_send) {
        Ok(to_state) => Ok(SendPlan::Deliver { scheme, to_state }),
        Err(e) => Err(e),
    }
}

} // verus!
