//! CLI-side logic: configuration defaults and lookup, and argument
//! parsing.

pub mod args;
pub mod config;
pub mod parse;
