//! The logic behind the HTTP surface: the public render helper, comment
//! submission and likes, and the moderation, dashboard and settings views.

pub mod admin;
pub mod dashboard;
pub mod public;
pub mod settings;
pub mod submission;
