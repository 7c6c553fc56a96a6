//! Saved links ("Fänge") of a user.
pub mod handlers;
pub mod models;
