//! Verified core of a self-hosted blog comment section: text handling, HTML
//! rendering of the public thread, anti-spam decisions, the comment submission
//! protocol and the moderation helpers.

pub mod antispam;
pub mod api;
pub mod lang;
pub mod model;
pub mod numbers;
pub mod render;
pub mod replies;
pub mod text;
pub mod utils;
