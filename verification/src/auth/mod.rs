//! Authentication: registering, logging in and checking API keys.
pub mod extractors;
pub mod handlers;
pub mod password;
