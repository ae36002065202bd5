//! The client side: numbering requests and reading responses.
use vstd::prelude::*;

use crate::ipc::protocol::IpcResponse;
use crate::text::{push_str, string_from_chars};

verus! {

/// The next request number from `counter`, which moves on by one (wrapping
/// as an atomic counter does).
pub fn rand_id(counter: &mut u64) -> (r: u64)
    ensures
        r == *old(counter),
        *final(counter) == (if *old(counter) == u64::MAX {
            0
        } else {
            *old(counter) + 1
        }),
{
    let r = *counter;
    *counter = counter.wrapping_add(1);
    r
}

/// What a response gives the caller: its error as `Daemon error: <error>`,
/// else its result (`None` for none, which reads as JSON `null`).
pub fn reply_value(response: IpcResponse) -> (r: Result<Option<serde_json::Value>, String>)
    ensures
        response.error matches Some(e) ==> (r matches Err(m) && m@ == "Daemon error: "@ + e@),
        response.error is None ==> r == Ok::<Option<serde_json::Value>, String>(response.ok),
{
    match response.error {
        Some(e) => {
            let mut v: Vec<char> = Vec::new();
            push_str(&mut v, "Daemon error: ");
            push_str(&mut v, e.as_str());
            Err(string_from_chars(v.as_slice()))
        },
        None => Ok(response.ok),
    }
}

} // verus!
