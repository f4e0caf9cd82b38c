//! The decisions of a plugin proxy's `execute`: how a call is opened in the
//! correlation table before it is sent, and what the caller gets from the
//! reply conduit.

use vstd::prelude::*;
use crate::call_id::{new_call_id, PluginOpCallId, RANDOM_UUID_BITS, RANDOM_UUID_MASK, SENTINEL_CALL_ID};
use vstd::pervasive::cloned;
use crate::error::{runtime_error, PluginError, PluginResult};
use crate::plugin::{PluginCallResult, PluginData};
use crate::runtime::{PluginOpCall, RuntimeResult};
use crate::table::CorrelationTable;

verus! {

/// Opens call `id`: registers `waiter` under `id` and builds the envelope
/// that carries a copy of `identity` and `call` to the host. The envelope is
/// built only once the call is registered, so no outcome can reach an
/// unregistered id. A closed table, or a pending `id`, is refused with a
/// `RuntimeError` and the table is unchanged.
pub fn open_call<P: PluginData, W>(
    identity: &P,
    id: PluginOpCallId,
    table: &mut CorrelationTable<W>,
    waiter: W,
    call: P::PluginCall,
) -> (r: PluginResult<PluginOpCall<P>>)
    ensures
        final(table).is_closed() == old(table).is_closed(),
        old(table).is_closed() ==> final(table)@ == old(table)@ && match r {
            Err(e) => runtime_error(e, "runtime shut down"@),
            Ok(_) => false,
        },
        !old(table).is_closed() && old(table)@.contains_key(id) ==> final(table)@ == old(table)@
            && match r {
            Err(e) => runtime_error(e, "call id already registered"@),
            Ok(_) => false,
        },
        !old(table).is_closed() && !old(table)@.contains_key(id) ==> final(table)@ == old(
            table,
        )@.insert(id, waiter) && match r {
            Ok(envelope) => envelope.call_id == id && envelope.call == call && cloned(
                *identity,
                envelope.plugin_data,
            ),
            Err(_) => false,
        },
{
    match table.register(id, waiter) {
        Err(e) => Err(e),
        Ok(()) => Ok(PluginOpCall { plugin_data: identity.clone(), call_id: id, call }),
    }
}

/// Begins a call under a freshly minted random id, which is never the
/// sentinel. On an open table it succeeds unless the drawn id is already
/// pending: on success the call is registered under that id and the
/// envelope carries it; on failure the table is unchanged, and the failure
/// says whether the table was closed or the drawn id collided.
pub fn begin_call<P: PluginData, W>(
    identity: &P,
    table: &mut CorrelationTable<W>,
    waiter: W,
    call: P::PluginCall,
) -> (r: PluginResult<PluginOpCall<P>>)
    ensures
        final(table).is_closed() == old(table).is_closed(),
        match r {
            Ok(envelope) => !old(table).is_closed()
                && envelope.call_id & RANDOM_UUID_MASK == RANDOM_UUID_BITS
                && envelope.call_id != SENTINEL_CALL_ID
                && !old(table)@.contains_key(envelope.call_id)
                && final(table)@ == old(table)@.insert(envelope.call_id, waiter)
                && envelope.call == call
                && cloned(*identity, envelope.plugin_data),
            Err(e) => final(table)@ == old(table)@ && if old(table).is_closed() {
                runtime_error(e, "runtime shut down"@)
            } else {
                runtime_error(e, "call id already registered"@) && exists|k: PluginOpCallId|
                    k & RANDOM_UUID_MASK == RANDOM_UUID_BITS && #[trigger] old(
                        table,
                    )@.contains_key(k)
            },
        },
{
    let id = new_call_id();
    open_call(identity, id, table, waiter, call)
}

/// What `execute` returns once its reply conduit has answered: the
/// delivered business outcome, or a `RuntimeError` carrying `detail` when
/// the conduit failed without a delivery.
pub fn finish_call<P: PluginCallResult>(reply: Result<RuntimeResult<P>, String>) -> (r: PluginResult<
    Result<P::Ok, P::Err>,
>)
    ensures
        match reply {
            Ok(res) => r == Ok::<Result<P::Ok, P::Err>, PluginError>(res.into_result_spec()),
            Err(detail) => match r {
                Err(e) => runtime_error(e, detail@),
                Ok(_) => false,
            },
        },
{
    match reply {
        Ok(res) => Ok(res.into_result()),
        Err(detail) => Err(PluginError::RuntimeError(detail)),
    }
}

} // verus!
