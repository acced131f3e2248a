//! Decision logic of the post view: reactions, comments, media and
//! timestamps.

pub mod comments;
pub mod post_actions;
pub mod post_content;
pub mod post_media;
