//! Client-side logic of the Peer web front end: form validation, API
//! response models, and the decision rules behind each page.

pub mod components;
pub mod models;
pub mod text;
pub mod pages;
