//! The values that travel between proxies, the host's event loop and the
//! dispatch loop, and the decisions of the dispatch loop and of the
//! runtime's lifecycle.

use vstd::prelude::*;
use crate::call_id::{is_sentinel, PluginOpCallId, SENTINEL_CALL_ID};
use crate::error::{error_detail, failed_to_load, runtime_error, PluginError, PluginResult};
use crate::plugin::{PluginCallResult, PluginData};
use crate::table::{lists_exactly, CorrelationTable};

verus! {

/// The business-level outcome handed to the waiter of one call.
pub enum RuntimeResult<P: PluginCallResult> {
    Success(P::Ok),
    Failure(P::Err),
}

impl<P: PluginCallResult> RuntimeResult<P> {
    /// The outcome as a `Result`: success stays success, failure stays
    /// failure, with the same value.
    pub fn into_result(self) -> (r: Result<P::Ok, P::Err>)
        ensures
            match self {
                RuntimeResult::Success(o) => r == Ok::<P::Ok, P::Err>(o),
                RuntimeResult::Failure(e) => r == Err::<P::Ok, P::Err>(e),
            },
    {
        match self {
            RuntimeResult::Success(o) => Ok(o),
            RuntimeResult::Failure(e) => Err(e),
        }
    }

    /// The outcome that carries `result`.
    pub fn from_result(result: Result<P::Ok, P::Err>) -> (r: Self)
        ensures
            match result {
                Ok(o) => r == RuntimeResult::<P>::Success(o),
                Err(e) => r == RuntimeResult::<P>::Failure(e),
            },
    {
        match result {
            Ok(o) => RuntimeResult::Success(o),
            Err(e) => RuntimeResult::Failure(e),
        }
    }
}

/// A call envelope: the plugin it targets, its id, and its payload.
pub struct PluginOpCall<P: PluginData> {
    pub plugin_data: P,
    pub call_id: PluginOpCallId,
    pub call: P::PluginCall,
}

/// An outcome produced by the host for one call id.
pub struct PluginOpCallResult<P: PluginCallResult> {
    pub call_id: PluginOpCallId,
    pub result: Result<P::Ok, P::Err>,
}

impl<P: PluginCallResult> PluginOpCallResult<P> {
    /// The successful outcome `value` of call `id`.
    pub fn resolved(id: PluginOpCallId, value: P::Ok) -> (r: Self)
        ensures
            r.call_id == id,
            r.result == Ok::<P::Ok, P::Err>(value),
    {
        PluginOpCallResult { call_id: id, result: Ok(value) }
    }

    /// The failed outcome `value` of call `id`.
    pub fn rejected(id: PluginOpCallId, value: P::Err) -> (r: Self)
        ensures
            r.call_id == id,
            r.result == Err::<P::Ok, P::Err>(value),
    {
        PluginOpCallResult { call_id: id, result: Err(value) }
    }
}

/// What the dispatch loop does with one outcome.
pub enum Route<W, P: PluginCallResult> {
    /// Forward the outcome to the one waiter of its call.
    Deliver(W, RuntimeResult<P>),
    /// Fatal: send a copy of the failure to each of these waiters, then stop.
    Broadcast(Vec<(PluginOpCallId, W)>, Result<P::Ok, P::Err>),
    /// No call is pending under this id: the outcome is dropped.
    Unmatched(PluginOpCallId),
}

impl<W, P: PluginCallResult> Route<W, P> {
    /// Whether the dispatch loop stops after acting on this route.
    pub fn ends_loop(&self) -> (r: bool)
        ensures
            r == (self is Broadcast),
    {
        match self {
            Route::Broadcast(_, _) => true,
            _ => false,
        }
    }
}

/// `r` and `after` are what routing `outcome` against the pending calls
/// `before` gives: the sentinel id empties the table into a broadcast of the
/// outcome's result to every pending call; any other pending id is taken
/// out of the table and its waiter gets the outcome; an id that is not
/// pending leaves the table as it is and the outcome is dropped.
pub open spec fn routed<W, P: PluginCallResult>(
    before: Map<PluginOpCallId, W>,
    outcome: PluginOpCallResult<P>,
    r: Route<W, P>,
    after: Map<PluginOpCallId, W>,
) -> bool {
    if outcome.call_id == SENTINEL_CALL_ID {
        after == Map::<PluginOpCallId, W>::empty() && match r {
            Route::Broadcast(waiters, result) => lists_exactly(waiters@, before)
                && result == outcome.result,
            _ => false,
        }
    } else if before.contains_key(outcome.call_id) {
        after == before.remove(outcome.call_id) && match r {
            Route::Deliver(w, res) => w == before[outcome.call_id]
                && res.into_result_spec() == outcome.result,
            _ => false,
        }
    } else {
        after == before && r == Route::<W, P>::Unmatched(outcome.call_id)
    }
}

/// Routes one outcome against the table of pending calls (see `routed`).
pub fn route<W, P: PluginCallResult>(
    table: &mut CorrelationTable<W>,
    outcome: PluginOpCallResult<P>,
) -> (r: Route<W, P>)
    ensures
        routed(old(table)@, outcome, r, final(table)@),
{
    let PluginOpCallResult { call_id, result } = outcome;
    if is_sentinel(call_id) {
        let waiters = table.drain();
        Route::Broadcast(waiters, result)
    } else {
        match table.take(call_id) {
            Some(w) => Route::Deliver(w, RuntimeResult::from_result(result)),
            None => Route::Unmatched(call_id),
        }
    }
}

impl<P: PluginCallResult> RuntimeResult<P> {
    /// The outcome as a `Result`, in specifications.
    pub open spec fn into_result_spec(self) -> Result<P::Ok, P::Err> {
        match self {
            RuntimeResult::Success(o) => Ok(o),
            RuntimeResult::Failure(e) => Err(e),
        }
    }
}

/// Where a runtime stands in its lifecycle: configured, or running (its
/// queues and table materialised and its two loops handed out).
pub struct RuntimeState {
    running: bool,
}

impl RuntimeState {
    /// Whether the runtime has been run.
    pub closed spec fn started(&self) -> bool {
        self.running
    }

    /// A runtime that has not been run yet.
    pub fn new() -> (r: Self)
        ensures
            !r.started(),
    {
        RuntimeState { running: false }
    }

    /// Whether the runtime has been run.
    pub fn is_running(&self) -> (r: bool)
        ensures
            r == self.started(),
    {
        self.running
    }

    /// Marks the runtime as run. A runtime runs at most once: a second run
    /// is refused with a `RuntimeError` and changes nothing.
    pub fn start(&mut self) -> (r: PluginResult<()>)
        ensures
            final(self).started(),
            !old(self).started() ==> r is Ok,
            old(self).started() ==> match r {
                Err(e) => runtime_error(e, "runtime already running"@),
                Ok(_) => false,
            },
    {
        if self.running {
            return Err(PluginError::RuntimeError("runtime already running".to_string()));
        }
        self.running = true;
        Ok(())
    }

    /// Whether a plugin may be admitted now: only once the runtime runs;
    /// before that, a `RuntimeError` asks to run it first.
    pub fn check_admission(&self) -> (r: PluginResult<()>)
        ensures
            self.started() ==> r is Ok,
            !self.started() ==> match r {
                Err(e) => runtime_error(e, "run runtime first"@),
                Ok(_) => false,
            },
    {
        if !self.running {
            return Err(PluginError::RuntimeError("run runtime first".to_string()));
        }
        Ok(())
    }
}

/// Whether a plugin is admitted, from the outcome of its bootstrap call:
/// a business success admits it; a business failure with detail `d`, or a
/// transport error with detail `d`, refuses it with `FailedToLoad(d)`.
pub fn bootstrap_verdict<O>(outcome: PluginResult<Result<O, String>>) -> (r: PluginResult<()>)
    ensures
        match outcome {
            Ok(Ok(_)) => r is Ok,
            Ok(Err(d)) => match r {
                Err(e) => failed_to_load(e, d@),
                Ok(_) => false,
            },
            Err(t) => match r {
                Err(e) => failed_to_load(e, error_detail(t)),
                Ok(_) => false,
            },
        },
{
    match outcome {
        Ok(Ok(_)) => Ok(()),
        Ok(Err(d)) => Err(PluginError::FailedToLoad(d)),
        Err(t) => Err(PluginError::FailedToLoad(t.detail().clone())),
    }
}

} // verus!
