//! HTTP-adapter logic: bearer-token check, problem-detail error mapping,
//! signed shareable links, webhook signatures and request shapes.

pub mod auth;
mod crypto;
pub mod error;
pub mod handlers;
pub mod signed_link;
pub mod state;
pub mod webhook;
