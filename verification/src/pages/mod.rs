//! Decision logic of the application's pages.

pub mod admin;
pub mod forgot_password;
pub mod invite;
pub mod new_post;
pub mod settings;
pub mod view_post;
pub mod view_profile;
