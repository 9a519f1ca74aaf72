//! Backend state and control core for a laptop fan/power/thermal utility.
//!
//! The crate holds the verified logic of the application: the configuration
//! document and its partial-merge update semantics, the shared application
//! state with its optional hardware-tool capability, the request facade the
//! GUI layer calls into, and the hardware-inventory heuristics (CPU brand
//! selection and dedicated-GPU classification). All I/O — durable storage,
//! the external control tool, OS inventory queries — stays outside, behind
//! plain-value boundaries.

pub mod config;
pub mod inventory;
pub mod routes;
pub mod state;
pub mod text;
