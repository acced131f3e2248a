//! Decision logic of the account settings panels.

pub mod account;
pub mod content;
