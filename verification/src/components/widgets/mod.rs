//! Decision logic of shared widgets.

pub mod main_menu;
