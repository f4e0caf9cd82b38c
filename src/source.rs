//! Where plugins come from: a collaborator that lists plugin identifiers
//! and opens them.

use vstd::prelude::*;
use crate::error::PluginResult;
use crate::plugin::PluginData;

verus! {

/// A source of plugins: it lists the identifiers it offers and opens each
/// into a plugin identity, failing with `InvalidPlugin` on a malformed or
/// missing entry.
pub trait PluginSource {
    type PluginType: PluginData;

    fn plugins(&self) -> Vec<String>;

    fn open<P: Into<String>>(&mut self, plugin: P) -> PluginResult<Self::PluginType>;
}

} // verus!
