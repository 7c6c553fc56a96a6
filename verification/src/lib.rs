//! Bookmark service library: saved links ("Fänge"), users and API keys, and
//! backlinks from link aggregators.
pub mod backlinks;
pub mod auth;
pub mod clock;
pub mod db;
pub mod links;
pub mod reply;
pub mod settings;
pub mod text;
pub mod users;
