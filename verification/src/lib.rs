//! Verified core of the `inv` invoicing service: bus topic handling,
//! signed links, webhook signatures, error mapping and the pure decision
//! logic behind the invoice commands.

pub mod api;
pub mod bus;
pub mod cli;
pub mod commands;
pub mod domain;
pub mod text;
