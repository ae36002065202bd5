//! The daemon side: answering a request.
use vstd::prelude::*;

use crate::ipc::protocol::IpcResponse;

verus! {

/// The response to request `id` whose handling gave `result`: the value on
/// success, the error's message on failure.
pub fn respond(id: u64, result: Result<serde_json::Value, String>) -> (r: IpcResponse)
    ensures
        r.id == id,
        result matches Ok(v) ==> r.ok == Some(v) && r.error is None,
        result matches Err(e) ==> r.ok is None && r.error == Some(e),
{
    match result {
        Ok(v) => IpcResponse::success(id, v),
        Err(e) => IpcResponse::failure(id, e),
    }
}

} // verus!
