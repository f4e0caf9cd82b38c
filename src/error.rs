//! The error taxonomy of the runtime.

use vstd::prelude::*;
use vstd::string::StringExecFns;

verus! {

/// What went wrong while loading or calling a plugin.
#[derive(Debug, Clone, PartialEq, Eq)]
pub enum PluginError {
    /// The admission (bootstrap) call of a plugin failed, at the business
    /// or at the transport level.
    FailedToLoad(String),
    /// The plugin source could not open an identifier.
    InvalidPlugin(String),
    /// A transport failure: a disconnected queue, a poisoned lock, a handle
    /// accessor used twice, or admission attempted before the runtime runs.
    RuntimeError(String),
}

/// The result of an operation of the runtime.
pub type PluginResult<T> = Result<T, PluginError>;

/// The text that introduces each kind of error in its message.
pub open spec fn error_prefix(e: PluginError) -> Seq<char> {
    match e {
        PluginError::FailedToLoad(_) => "Failed to load plugin: "@,
        PluginError::InvalidPlugin(_) => "Invalid plugin: "@,
        PluginError::RuntimeError(_) => "Error occured while using plugin: "@,
    }
}

/// The detail that an error carries.
pub open spec fn error_detail(e: PluginError) -> Seq<char> {
    match e {
        PluginError::FailedToLoad(d) => d@,
        PluginError::InvalidPlugin(d) => d@,
        PluginError::RuntimeError(d) => d@,
    }
}

/// `e` is a `FailedToLoad` error with detail `d`.
pub open spec fn failed_to_load(e: PluginError, d: Seq<char>) -> bool {
    e is FailedToLoad && error_detail(e) == d
}

/// `e` is a `RuntimeError` with detail `d`.
pub open spec fn runtime_error(e: PluginError, d: Seq<char>) -> bool {
    e is RuntimeError && error_detail(e) == d
}

impl PluginError {
    /// The detail that this error carries.
    pub fn detail(&self) -> (r: &String)
        ensures
            r@ == error_detail(*self),
    {
        match self {
            PluginError::FailedToLoad(d) => d,
            PluginError::InvalidPlugin(d) => d,
            PluginError::RuntimeError(d) => d,
        }
    }

    /// The human-readable message of this error: the kind's prefix, the
    /// detail, and a line break.
    pub fn message(&self) -> (r: String)
        ensures
            r@ == error_prefix(*self) + error_detail(*self) + "\n"@,
    {
        let mut s = String::new();
        match self {
            PluginError::FailedToLoad(_) => s.append("Failed to load plugin: "),
            PluginError::InvalidPlugin(_) => s.append("Invalid plugin: "),
            PluginError::RuntimeError(_) => s.append("Error occured while using plugin: "),
        }
        s.append(self.detail().as_str());
        s.append("\n");
        proof {
            assert(Seq::<char>::empty() + error_prefix(*self) =~= error_prefix(*self));
        }
        s
    }
}

} // verus!
