//! What the HTTP client of the Clash API sends: URLs, paths, headers, and
//! how it reads the answers that are not plain JSON objects.
use vstd::prelude::*;
use vstd::utf8::encode_utf8;

use crate::clash::json::{
    json_get, json_get_spec, json_u64, json_u64_spec, json_value_of, read_json, JsonValue,
};
use crate::text::{
    chars_of, dec, push_chars, push_str, string_from_chars, text_lines, text_lines_spec,
    u64_to_dec,
};

verus! {

/// Bytes that stay as they are in a URI component.
pub open spec fn is_unreserved(b: u8) -> bool {
    (0x41 <= b && b <= 0x5A) || (0x61 <= b && b <= 0x7A) || (0x30 <= b && b <= 0x39) || b == 0x2D
        || b == 0x5F || b == 0x2E || b == 0x7E
}

/// The upper-case hex digit for `d < 16`.
pub open spec fn hex_digit_upper(d: nat) -> char {
    if d < 10 {
        ((d + 48) as u32) as char
    } else {
        ((d + 55) as u32) as char
    }
}

/// The percent-encoding of a byte string: unreserved bytes as themselves,
/// every other byte as `%XX` (upper-case hex).
pub open spec fn uri_encode(bytes: Seq<u8>) -> Seq<char>
    decreases bytes.len(),
{
    if bytes.len() == 0 {
        Seq::empty()
    } else {
        let b = bytes.last();
        uri_encode(bytes.drop_last()) + if is_unreserved(b) {
            seq![(b as u32) as char]
        } else {
            seq!['%', hex_digit_upper((b / 16) as nat), hex_digit_upper((b % 16) as nat)]
        }
    }
}

fn hex_upper(d: u8) -> (c: char)
    requires
        d < 16,
    ensures
        c == hex_digit_upper(d as nat),
{
    if d < 10 {
        (d + 48) as char
    } else {
        (d + 55) as char
    }
}

fn push_encoded(out: &mut Vec<char>, s: &str)
    ensures
        final(out)@ == old(out)@ + uri_encode(encode_utf8(s@)),
{
    let bytes = s.as_bytes();
    let ghost base = out@;
    let mut i: usize = 0;
    while i < bytes.len()
        invariant
            0 <= i <= bytes@.len(),
            bytes@ == encode_utf8(s@),
            out@ == base + uri_encode(bytes@.subrange(0, i as int)),
        decreases bytes.len() - i,
    {
        let b = bytes[i];
        let ghost pre = bytes@.subrange(0, i as int);
        let ghost post = bytes@.subrange(0, i + 1);
        assert(post.drop_last() =~= pre);
        assert(post.last() == b);
        if (0x41 <= b && b <= 0x5A) || (0x61 <= b && b <= 0x7A) || (0x30 <= b && b <= 0x39) || b
            == 0x2D || b == 0x5F || b == 0x2E || b == 0x7E {
            out.push(b as char);
            assert(out@ =~= base + uri_encode(post));
        } else {
            out.push('%');
            out.push(hex_upper(b / 16));
            out.push(hex_upper(b % 16));
            assert(out@ =~= base + uri_encode(post));
        }
        i = i + 1;
    }
    assert(bytes@.subrange(0, bytes@.len() as int) =~= bytes@);
}

/// Minimal percent-encoding for names in URL paths: every byte of the UTF-8
/// form that is not `A-Z a-z 0-9 - _ . ~` becomes `%XX`.
pub fn encode_uri_component(s: &str) -> (r: String)
    ensures
        r@ == uri_encode(encode_utf8(s@)),
{
    let mut out: Vec<char> = Vec::new();
    push_encoded(&mut out, s);
    assert(out@ =~= uri_encode(encode_utf8(s@)));
    string_from_chars(out.as_slice())
}

/// `http://host:port`.
pub open spec fn base_url_spec(host: Seq<char>, port: u16) -> Seq<char> {
    "http://"@ + host + seq![':'] + dec(port as nat)
}

/// The base URL of the API at `host:port`.
pub fn base_url(host: &str, port: u16) -> (r: String)
    ensures
        r@ == base_url_spec(host@, port),
{
    let mut v = chars_of("http://");
    push_str(&mut v, host);
    v.push(':');
    let d = u64_to_dec(port as u64);
    push_chars(&mut v, d.as_slice());
    string_from_chars(v.as_slice())
}

/// The full URL of `path` under `base`.
pub fn join_url(base: &str, path: &str) -> (r: String)
    ensures
        r@ == base@ + path@,
{
    let mut v = chars_of(base);
    push_str(&mut v, path);
    string_from_chars(v.as_slice())
}

/// The `Authorization` header for a secret: `Bearer <secret>`.
pub fn auth_header(secret: &Option<String>) -> (r: Option<String>)
    ensures
        r is Some <==> secret is Some,
        r matches Some(h) ==> h@ == "Bearer "@ + secret->0@,
{
    match secret {
        Some(s) => {
            let mut v = chars_of("Bearer ");
            push_str(&mut v, s.as_str());
            Some(string_from_chars(v.as_slice()))
        },
        None => None,
    }
}

/// `/proxies/<group>`, the group percent-encoded.
pub fn switch_proxy_path(group: &str) -> (r: String)
    ensures
        r@ == "/proxies/"@ + uri_encode(encode_utf8(group@)),
{
    let mut v = chars_of("/proxies/");
    push_encoded(&mut v, group);
    string_from_chars(v.as_slice())
}

/// `/proxies/<proxy>/delay?url=<url>&timeout=<timeout>`, proxy and url
/// percent-encoded.
pub fn latency_path(proxy: &str, url: &str, timeout: u16) -> (r: String)
    ensures
        r@ == "/proxies/"@ + uri_encode(encode_utf8(proxy@)) + "/delay?url="@ + uri_encode(
            encode_utf8(url@),
        ) + "&timeout="@ + dec(timeout as nat),
{
    let mut v = chars_of("/proxies/");
    push_encoded(&mut v, proxy);
    push_str(&mut v, "/delay?url=");
    push_encoded(&mut v, url);
    push_str(&mut v, "&timeout=");
    let d = u64_to_dec(timeout as u64);
    push_chars(&mut v, d.as_slice());
    string_from_chars(v.as_slice())
}

/// `/connections/<id>` (the id is not encoded).
pub fn connection_path(id: &str) -> (r: String)
    ensures
        r@ == "/connections/"@ + id@,
{
    let mut v = chars_of("/connections/");
    push_str(&mut v, id);
    string_from_chars(v.as_slice())
}

/// What /memory answered, as the JSON reader found it: the answer itself
/// as an unsigned integer, or its `memory` field as one.
#[derive(Debug, Clone, Copy, PartialEq, Eq)]
pub struct MemoryReply {
    pub number: Option<u64>,
    pub field: Option<u64>,
}

/// What the JSON reader finds in a /memory answer.
pub open spec fn memory_reply_spec(v: JsonValue) -> MemoryReply {
    MemoryReply {
        number: json_u64_spec(v),
        field: match json_get_spec(v, "memory"@) {
            Some(x) => json_u64_spec(x),
            None => None,
        },
    }
}

/// Memory in use: the bare number, else the `memory` field, else 0.
pub open spec fn memory_of(reply: MemoryReply) -> u64 {
    match reply.number {
        Some(n) => n,
        None => match reply.field {
            Some(n) => n,
            None => 0,
        },
    }
}

/// What the JSON reader finds in a /memory answer (see `memory_reply_spec`).
pub fn memory_reply(v: &JsonValue) -> (r: MemoryReply)
    ensures
        r == memory_reply_spec(*v),
{
    let field = match json_get(v, "memory") {
        Some(x) => json_u64(x),
        None => None,
    };
    MemoryReply { number: json_u64(v), field }
}

/// The memory in use a /memory answer body reports (see `memory_of`), or
/// the message of the JSON error when the body is not JSON.
pub fn parse_memory(body: &str) -> (r: Result<u64, String>)
    ensures
        json_value_of(body@) matches Err(e) ==> r == Err::<u64, String>(e),
        json_value_of(body@) matches Ok(v) ==> r == Ok::<u64, String>(
            memory_of(memory_reply_spec(v)),
        ),
{
    match read_json(body) {
        Ok(v) => Ok(memory_value(memory_reply(&v))),
        Err(e) => Err(e),
    }
}

/// Memory in use: the bare number, else the `memory` field, else 0.
pub fn memory_value(reply: MemoryReply) -> (r: u64)
    ensures
        r == memory_of(reply),
{
    match reply.number {
        Some(n) => n,
        None => match reply.field {
            Some(n) => n,
            None => 0,
        },
    }
}

/// The error for a non-success answer: `API returned <status> for <path>:
/// <first line of the body>`.
pub fn api_error_message(status: u16, path: &str, body: &str) -> (r: String)
    ensures
        r@ == "API returned "@ + dec(status as nat) + " for "@ + path@ + ": "@ + (if text_lines_spec(
            body@,
        ).len() > 0 {
            text_lines_spec(body@)[0]
        } else {
            Seq::<char>::empty()
        }),
{
    let mut v = chars_of("API returned ");
    let d = u64_to_dec(status as u64);
    push_chars(&mut v, d.as_slice());
    push_str(&mut v, " for ");
    push_str(&mut v, path);
    push_str(&mut v, ": ");
    let lines = text_lines(body);
    if lines.len() > 0 {
        push_str(&mut v, lines[0].as_str());
    }
    string_from_chars(v.as_slice())
}

} // verus!
