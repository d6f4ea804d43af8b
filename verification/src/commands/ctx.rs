//! Who triggered a command and on which channel.

use vstd::prelude::*;
use crate::domain::HistoryChannel;
use crate::text::concat_str;

verus! {

/// Who (or what) triggered a command.
#[derive(Debug, Clone, PartialEq, Eq)]
pub enum Actor {
    /// CLI user.
    Cli {
        /// Username / display string.
        name: String,
    },
    /// HTTP API user.
    Api {
        /// Display string for the principal.
        name: String,
    },
    /// WebSocket session.
    Ws {
        /// Display string for the principal.
        name: String,
    },
    /// MCP agent.
    Mcp {
        /// Display string for the agent.
        name: String,
    },
    /// Inbound bus event consumer.
    Bus {
        /// Upstream service id (e.g. `"fin"`).
        source: String,
    },
}

/// The audit string recorded for an actor.
pub open spec fn audit_text(a: Actor) -> Seq<char> {
    match a {
        Actor::Cli { name } => name@,
        Actor::Api { name } => name@,
        Actor::Ws { name } => name@,
        Actor::Mcp { name } => name@,
        Actor::Bus { source } => source@ + ".bus.consumer"@,
    }
}

impl Actor {
    /// Render the actor as the audit string stored on history rows.
    pub fn audit_string(&self) -> (s: String)
        ensures
            s@ == audit_text(*self),
    {
        match self {
            Actor::Cli { name } => name.clone(),
            Actor::Api { name } => name.clone(),
            Actor::Ws { name } => name.clone(),
            Actor::Mcp { name } => name.clone(),
            Actor::Bus { source } => concat_str(source.as_str(), ".bus.consumer"),
        }
    }
}

/// Channel a command came in on.
#[derive(Debug, Clone, Copy, PartialEq, Eq, Hash, Structural)]
pub enum Channel {
    /// CLI adapter.
    Cli,
    /// HTTP API adapter.
    Api,
    /// WebSocket adapter.
    Ws,
    /// MCP adapter.
    Mcp,
    /// Bus consumer.
    Bus,
}

/// The audit channel a command channel maps to (one-for-one).
pub open spec fn history_channel_of(c: Channel) -> HistoryChannel {
    match c {
        Channel::Cli => HistoryChannel::Cli,
        Channel::Api => HistoryChannel::Api,
        Channel::Ws => HistoryChannel::Ws,
        Channel::Mcp => HistoryChannel::Mcp,
        Channel::Bus => HistoryChannel::Bus,
    }
}

impl Channel {
    /// The audit channel this command channel maps to.
    pub fn history_channel(self) -> (h: HistoryChannel)
        ensures
            h == history_channel_of(self),
    {
        match self {
            Channel::Cli => HistoryChannel::Cli,
            Channel::Api => HistoryChannel::Api,
            Channel::Ws => HistoryChannel::Ws,
            Channel::Mcp => HistoryChannel::Mcp,
            Channel::Bus => HistoryChannel::Bus,
        }
    }
}

/// `std::time::SystemTime::now().duration_since(UNIX_EPOCH)`: whole
/// seconds and sub-second nanoseconds since the Unix epoch, or `None`
/// when the system clock reads before the epoch. The reading itself is
/// not stated; the nanoseconds are below one billion, as
/// `Duration::subsec_nanos` documents.
#[verifier::external_body]
fn system_now() -> (r: Option<(u64, u32)>)
    ensures
        r matches Some((_, n)) ==> n < 1_000_000_000,
{
    match std::time::SystemTime::now().duration_since(std::time::UNIX_EPOCH) {
        Ok(d) => Some((d.as_secs(), d.subsec_nanos())),
        Err(_) => None,
    }
}

/// A UTC instant: whole seconds since the Unix epoch plus nanoseconds.
#[derive(Debug, Clone, Copy, PartialEq, Eq, Structural)]
pub struct UtcInstant {
    /// Whole seconds since 1970-01-01T00:00:00Z.
    pub secs: i64,
    /// Nanoseconds past `secs`.
    pub nanos: u32,
}

/// `a` is strictly earlier than `b`.
pub open spec fn instant_before(a: UtcInstant, b: UtcInstant) -> bool {
    a.secs < b.secs || (a.secs == b.secs && a.nanos < b.nanos)
}

/// Instants are ordered by second, then nanosecond: an earlier second is
/// always before and a later one never is, whatever the nanoseconds; no
/// instant is before itself, the order is transitive, and of two
/// different instants one is before the other.
pub proof fn instant_order_law(a: UtcInstant, b: UtcInstant, c: UtcInstant)
    ensures
        a.secs < b.secs ==> instant_before(a, b),
        a.secs > b.secs ==> !instant_before(a, b),
        a.secs == b.secs ==> (instant_before(a, b) <==> a.nanos < b.nanos),
        !instant_before(a, a),
        instant_before(a, b) ==> !instant_before(b, a),
        instant_before(a, b) && instant_before(b, c) ==> instant_before(a, c),
        a != b ==> instant_before(a, b) || instant_before(b, a),
{
}

impl UtcInstant {
    /// `self` is strictly earlier than `other`.
    pub fn is_before(&self, other: &UtcInstant) -> (r: bool)
        ensures
            r == instant_before(*self, *other),
    {
        self.secs < other.secs || (self.secs == other.secs && self.nanos < other.nanos)
    }
}

/// Display text of a UTC instant as `chrono::DateTime<Utc>` renders it
/// (`2026-01-01 00:00:00 UTC`).
pub uninterp spec fn utc_display(secs: i64, nanos: u32) -> Seq<char>;

/// Earliest second chrono represents: `-262143-01-01T00:00:00Z`.
pub const MIN_DISPLAY_SECS: i64 = -8_334_601_228_800i64;

/// Latest second chrono represents: `+262142-12-31T23:59:59Z`.
pub const MAX_DISPLAY_SECS: i64 = 8_210_266_876_799i64;

/// `chrono::DateTime::from_timestamp(secs, nanos)` rendered with
/// `to_string()`. Within chrono's range (its first to its last
/// representable second) and with a valid nanosecond it yields `Some`;
/// the text itself is left to the named result.
#[verifier::external_body]
fn utc_text(secs: i64, nanos: u32) -> (r: Option<String>)
    requires
        MIN_DISPLAY_SECS <= secs <= MAX_DISPLAY_SECS,
        nanos < 1_000_000_000,
    ensures
        r is Some,
        r.unwrap()@ == utc_display(secs, nanos),
{
    chrono::DateTime::from_timestamp(secs, nanos).map(|d| d.to_string())
}

impl UtcInstant {
    /// Within the range chrono represents, with a valid nanosecond.
    pub open spec fn displayable(self) -> bool {
        MIN_DISPLAY_SECS <= self.secs <= MAX_DISPLAY_SECS && self.nanos < 1_000_000_000
    }

    /// Display text of the instant.
    pub fn to_text(&self) -> (s: String)
        requires
            self.displayable(),
        ensures
            s@ == utc_display(self.secs, self.nanos),
    {
        match utc_text(self.secs, self.nanos) {
            Some(s) => s,
            None => String::new(),
        }
    }
}

/// Source of the current time, so tests can freeze it.
pub trait Clock {
    /// Current wall-clock time.
    fn now(&self) -> UtcInstant;
}

/// Default `Clock`: the system clock.
#[derive(Debug, Default, Clone, Copy)]
pub struct SystemClock;

impl Clock for SystemClock {
    /// The system clock's reading; a reading before the epoch counts as
    /// the epoch, one past `i64::MAX` seconds as `i64::MAX`.
    fn now(&self) -> (t: UtcInstant)
        ensures
            t.secs >= 0,
            t.nanos < 1_000_000_000,
    {
        match system_now() {
            Some((s, n)) => {
                let secs: i64 = if s <= 0x7fff_ffff_ffff_ffffu64 {
                    s as i64
                } else {
                    0x7fff_ffff_ffff_ffffi64
                };
                UtcInstant { secs, nanos: n }
            },
            None => UtcInstant { secs: 0, nanos: 0 },
        }
    }
}

} // verus!
