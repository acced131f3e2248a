//! Decision logic behind the form and page components.

pub mod registration_gate;
pub mod validation;
pub mod registration_form;
pub mod view_post;
pub mod toast;
pub mod wallet;
pub mod shop;
pub mod settings;
pub mod widgets;
