//! Decision logic of the wallet: transaction display, history paging and
//! the transfer modal.

pub mod transaction_history;
pub mod transfer_amount;
pub mod transaction_item;
pub mod transfer_modal;
