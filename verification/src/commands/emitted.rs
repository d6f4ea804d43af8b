//! The envelope a command returns for each event it publishes.

use vstd::prelude::*;
use crate::commands::ctx::UtcInstant;

verus! {

/// A JSON value of `serde_json`, carried through unread.
#[verifier::external_type_specification]
#[verifier::external_body]
pub struct ExJsonValue(serde_json::Value);

/// One event a command emits: dotted topic, JSON payload, and the
/// command clock's time at emission.
#[derive(Debug)]
pub struct EmittedEvent {
    /// Dotted topic name.
    pub topic: String,
    /// Event payload.
    pub payload: serde_json::Value,
    /// Wall-clock at emit time.
    pub emitted_at: UtcInstant,
}

impl EmittedEvent {
    /// Construct.
    pub fn new(topic: &str, payload: serde_json::Value, emitted_at: UtcInstant) -> (e: Self)
        ensures
            e.topic@ == topic@,
            e.payload == payload,
            e.emitted_at == emitted_at,
    {
        EmittedEvent { topic: topic.to_string(), payload, emitted_at }
    }
}

/// The topics of a list of emitted events, in order (what the CLI
/// prints for `emitted_events`).
pub fn event_topics(events: &[EmittedEvent]) -> (v: Vec<String>)
    ensures
        v@.len() == events@.len(),
        forall|i: int| 0 <= i < events@.len() ==> #[trigger] v@[i]@ == events@[i].topic@,
{
    let mut v: Vec<String> = Vec::new();
    let mut i: usize = 0;
    while i < events.len()
        invariant
            i <= events@.len(),
            v@.len() == i,
            forall|j: int| 0 <= j < i ==> #[trigger] v@[j]@ == events@[j].topic@,
        decreases events.len() - i,
    {
        v.push(events[i].topic.clone());
        i = i + 1;
    }
    v
}

} // verus!
