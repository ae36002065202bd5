//! The status bar: connection, mode, memory, traffic and connections, and
//! the status message while there is one.
use vstd::prelude::*;

use crate::state::store::AppState;
use crate::text::{dec, push_chars, push_str, string_from_chars, u64_to_dec};
use crate::ui::format::{f64_of, fixed1, plain, scaled1};

verus! {

/// A byte count as the status bar prints it: `x.yGB` from 1 GiB, `x.yMB`
/// from 1 MiB, `x.yKB` from 1 KiB, else `nB`.
pub open spec fn format_bytes_spec(bytes: u64) -> Seq<char> {
    if bytes >= 1073741824 {
        fixed1(f64_of(bytes as nat), 30) + "GB"@
    } else if bytes >= 1048576 {
        fixed1(f64_of(bytes as nat), 20) + "MB"@
    } else if bytes >= 1024 {
        fixed1(f64_of(bytes as nat), 10) + "KB"@
    } else {
        dec(bytes as nat) + "B"@
    }
}

/// A byte count, human-readable (see `format_bytes_spec`).
pub fn format_bytes(bytes: u64) -> (r: String)
    ensures
        r@ == format_bytes_spec(bytes),
{
    let v = if bytes >= 1073741824 {
        scaled1(bytes, 30, "GB")
    } else if bytes >= 1048576 {
        scaled1(bytes, 20, "MB")
    } else if bytes >= 1024 {
        scaled1(bytes, 10, "KB")
    } else {
        plain(bytes, "B")
    };
    string_from_chars(v.as_slice())
}

/// The right-hand status text.
pub open spec fn status_text_spec(state: AppState) -> Seq<char> {
    (if state.api_connected {
        "Connected"@
    } else {
        "Disconnected"@
    }) + " | Mode: "@ + state.clash_mode@ + " | Mem: "@ + dec(
        (state.memory_used_bytes / 1024 / 1024) as nat,
    ) + "MB | ↑ "@ + format_bytes_spec(state.upload_speed) + " ↓ "@ + format_bytes_spec(
        state.download_speed,
    ) + " | Conns: "@ + dec(state.active_conn_count as nat) + " "@
}

/// The status text: connection, mode, memory in MiB, speeds, connections.
pub fn status_text(state: &AppState) -> (r: String)
    ensures
        r@ == status_text_spec(*state),
{
    let mut v: Vec<char> = Vec::new();
    if state.api_connected {
        push_str(&mut v, "Connected");
    } else {
        push_str(&mut v, "Disconnected");
    }
    push_str(&mut v, " | Mode: ");
    push_str(&mut v, state.clash_mode.as_str());
    push_str(&mut v, " | Mem: ");
    let mem = u64_to_dec(state.memory_used_bytes / 1024 / 1024);
    push_chars(&mut v, mem.as_slice());
    push_str(&mut v, "MB | ↑ ");
    let up = format_bytes(state.upload_speed);
    push_str(&mut v, up.as_str());
    push_str(&mut v, " ↓ ");
    let down = format_bytes(state.download_speed);
    push_str(&mut v, down.as_str());
    push_str(&mut v, " | Conns: ");
    let conns = u64_to_dec(state.active_conn_count as u64);
    push_chars(&mut v, conns.as_slice());
    push_str(&mut v, " ");
    string_from_chars(v.as_slice())
}

/// The status message as shown, padded with a space on each side.
pub fn status_message(state: &AppState) -> (r: Option<String>)
    ensures
        state.status_line matches Some(m) ==> (r matches Some(t) && t@ == " "@ + m@ + " "@),
        state.status_line is None ==> r is None,
{
    match &state.status_line {
        Some(m) => {
            let mut v: Vec<char> = Vec::new();
            push_str(&mut v, " ");
            push_str(&mut v, m.as_str());
            push_str(&mut v, " ");
            Some(string_from_chars(v.as_slice()))
        },
        None => None,
    }
}

} // verus!
