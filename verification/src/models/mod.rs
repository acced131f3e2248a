//! Data models mirroring the Peer GraphQL schema.

pub mod common;
pub mod settings;
pub mod shop;
pub mod user;
pub mod post;
pub mod advertisement;
