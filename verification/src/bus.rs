//! Bus surface: topic constants and payloads, topic remap, the inbound
//! consumer's routing and the outbox row-to-event mapping.

pub mod events;
pub mod topic_map;
pub mod outbox;
pub mod consumer;
pub mod publisher;
