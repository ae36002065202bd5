//! The connections page: active connections and their details.
use vstd::prelude::*;

use crate::clash::types::{Connection, ConnectionMetadata};
use crate::event::action::Action;
use crate::event::keymap::{KeyCode, KeyEvent};
use crate::state::store::AppState;
use crate::text::{dec, owned, string_from_chars};
use crate::ui::format::{f64_of, fixed1, plain, scaled1};
use crate::ui::pages::proxies::{is_down, is_up, row_down, step_down};
use crate::ui::pages::rules::{is_down_key, is_up_key};

verus! {

/// The connections page's own state: the selected row.
#[derive(Debug, Clone, Copy)]
pub struct ConnectionsPage {
    pub selected: usize,
}

impl ConnectionsPage {
    pub fn new() -> (r: Self)
        ensures
            r.selected == 0,
    {
        ConnectionsPage { selected: 0 }
    }

    /// Down/`j` and Up/`k` move the selection; `d` closes the selected
    /// connection, `D` all of them (when there are any).
    pub fn handle_key(&mut self, key: KeyEvent, state: &AppState) -> (r: Vec<Action>)
        ensures
            connections_key_spec(*old(self), *final(self), key, state.connections@, r@),
    {
        let mut r: Vec<Action> = Vec::new();
        if is_down_key(key) {
            self.selected = row_down(self.selected, state.connections.len());
        } else if is_up_key(key) {
            self.selected = self.selected.saturating_sub(1);
        } else if key.code == KeyCode::Char('d') {
            if self.selected < state.connections.len() {
                r.push(Action::CloseConnection(state.connections[self.selected].id.clone()));
            }
        } else if key.code == KeyCode::Char('D') {
            if state.connections.len() > 0 {
                r.push(Action::CloseAllConnections);
            }
        }
        r
    }

    /// The connections page's identity.
    pub fn page_id(&self) -> (r: crate::ui::pages::PageId)
        ensures
            r == crate::ui::pages::PageId::Connections,
    {
        crate::ui::pages::PageId::Connections
    }
}

/// A byte count as the connections table prints it: `x.yMB` from 1 MiB,
/// `x.yKB` from 1 KiB, else `nB`.
pub open spec fn format_bytes_spec(bytes: u64) -> Seq<char> {
    if bytes >= 1048576 {
        fixed1(f64_of(bytes as nat), 20) + "MB"@
    } else if bytes >= 1024 {
        fixed1(f64_of(bytes as nat), 10) + "KB"@
    } else {
        dec(bytes as nat) + "B"@
    }
}

/// A byte count, human-readable.
pub fn format_bytes(bytes: u64) -> (r: String)
    ensures
        r@ == format_bytes_spec(bytes),
{
    let v = if bytes >= 1048576 {
        scaled1(bytes, 20, "MB")
    } else if bytes >= 1024 {
        scaled1(bytes, 10, "KB")
    } else {
        plain(bytes, "B")
    };
    string_from_chars(v.as_slice())
}

/// The host shown for a connection: the metadata's host, else the
/// connection's own, else `-`.
pub open spec fn connection_host_spec(conn: Connection) -> Seq<char> {
    match conn.metadata {
        Some(m) => match m.host {
            Some(h) => h@,
            None => crate::text::text_or_spec(conn.host, "-"@),
        },
        None => crate::text::text_or_spec(conn.host, "-"@),
    }
}

/// The host shown for a connection (see `connection_host_spec`).
pub fn connection_host(conn: &Connection) -> (r: String)
    ensures
        r@ == connection_host_spec(*conn),
        (match conn.metadata {
            Some(m) => match m.host {
                Some(h) => r == h,
                None => match conn.host {
                    Some(h) => r == h,
                    None => r@ == "-"@,
                },
            },
            None => match conn.host {
                Some(h) => r == h,
                None => r@ == "-"@,
            },
        }),
{
    let from_meta = match &conn.metadata {
        Some(m) => match &m.host {
            Some(h) => Some(h.clone()),
            None => None,
        },
        None => None,
    };
    match from_meta {
        Some(h) => h,
        None => match &conn.host {
            Some(h) => h.clone(),
            None => owned("-"),
        },
    }
}

/// What a key does to the connections page and which actions it yields:
/// Down/`j` and Up/`k` move the selection; `d` closes the selected
/// connection, `D` all of them (when there are any).
pub open spec fn connections_key_spec(
    old: ConnectionsPage,
    new: ConnectionsPage,
    key: KeyEvent,
    conns: Seq<Connection>,
    r: Seq<Action>,
) -> bool {
    &&& is_down(key) ==> new.selected == step_down(old.selected as int, conns.len() as int)
        && r.len() == 0
    &&& !is_down(key) && is_up(key) ==> new.selected == (if old.selected > 0 {
        old.selected - 1
    } else {
        0
    }) && r.len() == 0
    &&& !is_down(key) && !is_up(key) ==> new.selected == old.selected
    &&& key.code == KeyCode::Char('d') ==> (if old.selected < conns.len() {
        r.len() == 1 && (r[0] matches Action::CloseConnection(id) && id
            == conns[old.selected as int].id)
    } else {
        r.len() == 0
    })
    &&& key.code == KeyCode::Char('D') ==> (if conns.len() > 0 {
        r == seq![Action::CloseAllConnections]
    } else {
        r.len() == 0
    })
    &&& !is_down(key) && !is_up(key) && key.code != KeyCode::Char('d') && key.code
        != KeyCode::Char('D') ==> r.len() == 0
}

/// A metadata field of a connection, or `-`.
pub open spec fn meta_field(conn: Connection, f: spec_fn(ConnectionMetadata) -> Option<String>) -> Seq<char> {
    match conn.metadata {
        Some(m) => crate::text::text_or_spec(f(m), "-"@),
        None => "-"@,
    }
}

/// A metadata field, or `-`.
fn meta_text(m: &Option<ConnectionMetadata>, pick: u8) -> (r: String)
    requires
        pick < 7,
    ensures
        r@ == (match m {
            Some(md) => crate::text::text_or_spec(
                if pick == 0 {
                    md.host
                } else if pick == 1 {
                    md.network
                } else if pick == 2 {
                    md.destination_ip
                } else if pick == 3 {
                    md.destination_port
                } else if pick == 4 {
                    md.source_ip
                } else if pick == 5 {
                    md.source_port
                } else {
                    md.process
                },
                "-"@,
            ),
            None => "-"@,
        }),
{
    match m {
        Some(md) => {
            let f = if pick == 0 {
                &md.host
            } else if pick == 1 {
                &md.network
            } else if pick == 2 {
                &md.destination_ip
            } else if pick == 3 {
                &md.destination_port
            } else if pick == 4 {
                &md.source_ip
            } else if pick == 5 {
                &md.source_port
            } else {
                &md.process
            };
            crate::text::text_or(f, "-")
        },
        None => owned("-"),
    }
}

/// The cells of a connection's table row: host (see `connection_host`),
/// network, rule, upload and download.
pub fn connection_row(conn: &Connection) -> (r: Vec<String>)
    ensures
        r@.len() == 5,
        r@[0]@ == connection_host_spec(*conn),
        r@[1]@ == meta_field(*conn, |m: ConnectionMetadata| m.network),
        r@[2]@ == crate::text::text_or_spec(conn.rule, "-"@),
        r@[3]@ == format_bytes_spec(
            match conn.upload {
                Some(u) => u,
                None => 0,
            },
        ),
        r@[4]@ == format_bytes_spec(
            match conn.download {
                Some(d) => d,
                None => 0,
            },
        ),
{
    let mut r: Vec<String> = Vec::new();
    r.push(connection_host(conn));
    r.push(meta_text(&conn.metadata, 1));
    r.push(crate::text::text_or(&conn.rule, "-"));
    r.push(format_bytes(conn.upload.unwrap_or(0)));
    r.push(format_bytes(conn.download.unwrap_or(0)));
    r
}

/// The detail lines of a connection, as label and value: host, destination
/// and source (`ip:port`), network, rule, process, upload and download.
pub fn connection_detail(conn: &Connection) -> (r: Vec<(String, String)>)
    ensures
        r@.len() == 8,
        r@[0].0@ == " Host: "@ && r@[0].1@ == meta_field(*conn, |m: ConnectionMetadata| m.host),
        r@[1].0@ == " Dest: "@ && r@[1].1@ == meta_field(
            *conn,
            |m: ConnectionMetadata| m.destination_ip,
        ) + ":"@ + meta_field(*conn, |m: ConnectionMetadata| m.destination_port),
        r@[2].0@ == " Source: "@ && r@[2].1@ == meta_field(
            *conn,
            |m: ConnectionMetadata| m.source_ip,
        ) + ":"@ + meta_field(*conn, |m: ConnectionMetadata| m.source_port),
        r@[3].0@ == " Network: "@ && r@[3].1@ == meta_field(
            *conn,
            |m: ConnectionMetadata| m.network,
        ),
        r@[4].0@ == " Rule: "@ && r@[4].1@ == crate::text::text_or_spec(conn.rule, "-"@),
        r@[5].0@ == " Process: "@ && r@[5].1@ == meta_field(
            *conn,
            |m: ConnectionMetadata| m.process,
        ),
        r@[6].0@ == " Upload: "@ && r@[6].1@ == format_bytes_spec(
            match conn.upload {
                Some(u) => u,
                None => 0,
            },
        ),
        r@[7].0@ == " Download: "@ && r@[7].1@ == format_bytes_spec(
            match conn.download {
                Some(d) => d,
                None => 0,
            },
        ),
{
    proof {
        reveal_strlit(":");
    }
    let m = &conn.metadata;
    let mut dest = crate::text::chars_of(meta_text(m, 2).as_str());
    dest.push(':');
    crate::text::push_str(&mut dest, meta_text(m, 3).as_str());
    let mut src = crate::text::chars_of(meta_text(m, 4).as_str());
    src.push(':');
    crate::text::push_str(&mut src, meta_text(m, 5).as_str());
    let mut r: Vec<(String, String)> = Vec::new();
    r.push((owned(" Host: "), meta_text(m, 0)));
    r.push((owned(" Dest: "), string_from_chars(dest.as_slice())));
    r.push((owned(" Source: "), string_from_chars(src.as_slice())));
    r.push((owned(" Network: "), meta_text(m, 1)));
    r.push((owned(" Rule: "), crate::text::text_or(&conn.rule, "-")));
    r.push((owned(" Process: "), meta_text(m, 6)));
    r.push((owned(" Upload: "), format_bytes(conn.upload.unwrap_or(0))));
    r.push((owned(" Download: "), format_bytes(conn.download.unwrap_or(0))));
    r
}

/// The title of the connections table: ` Connections (<n>) `.
pub fn connections_title(count: usize) -> (r: String)
    ensures
        r@ == " Connections ("@ + dec(count as nat) + ") "@,
{
    let mut v = crate::text::chars_of(" Connections (");
    let n = crate::text::u64_to_dec(count as u64);
    crate::text::push_chars(&mut v, n.as_slice());
    crate::text::push_str(&mut v, ") ");
    string_from_chars(v.as_slice())
}

} // verus!
