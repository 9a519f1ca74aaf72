//! The shared application state: the configuration document of record and
//! the presence of the optional external control tool, decided once at
//! startup.

use vstd::prelude::*;

use crate::config::Config;

verus! {

/// Authoritative state of the application. `cli_present` records whether
/// the external control tool resolved at startup; it never changes for
/// the process lifetime. `config` is the in-memory document of record,
/// mutated only through the partial-merge update path.
pub struct AppState {
    pub cli_present: bool,
    pub config: Config,
}

impl AppState {
    /// Assemble the state from the document loaded at startup and the
    /// outcome of tool resolution.
    pub fn new(config: Config, cli_present: bool) -> (s: AppState)
        ensures
            s.config == config,
            s.cli_present == cli_present,
    {
        AppState { cli_present, config }
    }
}

} // verus!
