//! Service settings.
use vstd::prelude::*;

verus! {

/// The service's settings, read from `faenger.toml`.
#[derive(Debug)]
pub struct FaengerConfig {
    /// Whether new users may register.
    pub allow_signups: bool,
}

} // verus!
