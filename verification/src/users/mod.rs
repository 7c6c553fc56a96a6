//! Users and their API keys.
pub mod models;
