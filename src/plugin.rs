//! What a plugin kind commits to: its identity, its call payload and the
//! pair of result types that its calls produce.

use vstd::prelude::*;

verus! {

/// The identity of an opened plugin, tied to one call-payload type and one
/// result pair.
pub trait PluginData: Clone + Send {
    /// The payload of a call to this kind of plugin.
    type PluginCall: Send;
    /// The success and failure types of a call to this kind of plugin.
    type PluginCallResult: PluginCallResult;

    /// The plugin's name.
    fn name(&self) -> String;
}

/// A pair of result types: what a successful call yields, and what a failed
/// one yields.
pub trait PluginCallResult: Clone {
    type Ok: Send + Clone;
    type Err: Send + Clone;
}

} // verus!
