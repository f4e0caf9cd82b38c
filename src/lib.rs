//! An in-process request/response correlation runtime for plugins.
//!
//! Calls made through a plugin proxy are registered under a fresh call id in
//! a correlation table before they are sent to the host; outcomes that the
//! host produces are routed back to exactly the waiter registered under
//! their id, or broadcast to every waiter when the fatal sentinel id is used.
//! The blocking conduits and background units that carry calls and outcomes
//! are supplied by the embedding program; this crate decides what they do.

pub use crate::error::{PluginError, PluginResult};
pub use crate::plugin::{PluginCallResult, PluginData};

pub mod call_id;
pub mod error;
pub mod laws;
pub mod loader;
pub mod plugin;
pub mod proxy;
pub mod runtime;
pub mod source;
pub mod table;
