//! The shared application-state container.

use vstd::prelude::*;
use crate::config::Config;

verus! {

/// Shared application state: exclusively owns the one configuration value
/// produced at startup and exposes it, read-only, to later subsystems.
pub struct AppState {
    pub config: Config,
}

impl AppState {
    /// Wrap the validated configuration; the state holds it unchanged.
    pub fn new(config: Config) -> (s: AppState)
        ensures
            s.config == config,
    {
        AppState { config }
    }
}

} // verus!
