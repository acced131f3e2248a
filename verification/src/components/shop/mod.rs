//! Decision logic of the shop checkout.

pub mod checkout_popup;
