//! The operation surface consumed by the GUI layer: health check, tool
//! query pass-through, configuration snapshot and partial update. The
//! surrounding application performs the awaiting and the durable save;
//! every decision is made here.

use vstd::prelude::*;
use vstd::string::*;

use crate::config::{spec_merge, merge_config, Config, PartialConfig};
use crate::state::AppState;

verus! {

/// The fixed failure message of every tool-dependent operation while the
/// external control tool is absent.
pub open spec fn tool_missing_msg() -> Seq<char> {
    "framework_tool not found"@
}

/// The failure message of a configuration update whose durable save
/// failed, carrying the cause's description.
pub open spec fn persist_error_msg(cause: Seq<char>) -> Seq<char> {
    "config save error: "@ + cause
}

/// The reply of a tool-dependent operation: the tool's own outcome when
/// the tool is present, the fixed missing-tool error when it is not.
pub open spec fn tool_reply(
    cli_present: bool,
    outcome: Option<Result<String, String>>,
    r: Result<String, String>,
) -> bool {
    &&& (!cli_present ==> (r matches Err(m) && m@ == tool_missing_msg()))
    &&& (cli_present ==> r == outcome->Some_0)
}

/// Request facade over the shared application state.
pub struct Api {
    pub state: AppState,
}

impl Api {
    /// Wrap an assembled state.
    pub fn new(state: AppState) -> (api: Api)
        ensures
            api.state == state,
    {
        Api { state }
    }

    /// Whether the external control tool is available. Never fails.
    pub fn health(&self) -> (r: bool)
        ensures
            r == self.state.cli_present,
    {
        self.state.cli_present
    }

    /// Power query: pass the tool's outcome through verbatim, or fail
    /// fast when the tool is absent. `outcome` is the awaited result of
    /// the tool's power query, present exactly when the tool is.
    pub fn get_power(&self, outcome: Option<Result<String, String>>) -> (r: Result<String, String>)
        requires
            (outcome is Some) == self.state.cli_present,
        ensures
            tool_reply(self.state.cli_present, outcome, r),
    {
        match outcome {
            Some(res) => res,
            None => Err("framework_tool not found".to_owned()),
        }
    }

    /// Thermal query: same pass-through discipline as the power query.
    pub fn get_thermal(&self, outcome: Option<Result<String, String>>) -> (r: Result<
        String,
        String,
    >)
        requires
            (outcome is Some) == self.state.cli_present,
        ensures
            tool_reply(self.state.cli_present, outcome, r),
    {
        match outcome {
            Some(res) => res,
            None => Err("framework_tool not found".to_owned()),
        }
    }

    /// Versions query: same pass-through discipline as the power query.
    pub fn get_versions(&self, outcome: Option<Result<String, String>>) -> (r: Result<
        String,
        String,
    >)
        requires
            (outcome is Some) == self.state.cli_present,
        ensures
            tool_reply(self.state.cli_present, outcome, r),
    {
        match outcome {
            Some(res) => res,
            None => Err("framework_tool not found".to_owned()),
        }
    }

    /// A full snapshot of the current document. Never fails; the caller
    /// owns the copy outright.
    pub fn get_config(&self) -> (r: Config)
        ensures
            r@ == self.state.config@,
    {
        self.state.config.duplicate()
    }

    /// First step of a configuration update: merge the sparse request
    /// into a copy of the current document. The shared state is not
    /// touched; the caller must persist the returned document before
    /// committing it.
    pub fn set_config_merge(&self, req: &PartialConfig) -> (merged: Config)
        ensures
            merged@ == spec_merge(self.state.config@, req@),
    {
        merge_config(&self.state.config, req)
    }

    /// Second step of a configuration update, after the durable save was
    /// attempted: adopt the merged document exactly when the save
    /// succeeded, and report a persistence failure otherwise, leaving the
    /// state untouched. The in-memory and durable documents therefore
    /// never diverge after a reported success.
    pub fn set_config_commit(&mut self, merged: Config, save_result: Result<(), String>) -> (r:
        Result<(), String>)
        ensures
            final(self).state.cli_present == old(self).state.cli_present,
            save_result is Ok ==> {
                &&& final(self).state.config@ == merged@
                &&& r is Ok
            },
            save_result matches Err(e) ==> {
                &&& *final(self) == *old(self)
                &&& (r matches Err(m) && m@ == persist_error_msg(e@))
            },
    {
        match save_result {
            Ok(()) => {
                self.state.config = merged;
                Ok(())
            },
            Err(e) => Err("config save error: ".to_owned().concat(e.as_str())),
        }
    }
}

} // verus!
