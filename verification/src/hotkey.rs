//! The global hotkey: parsing a description such as `Ctrl+\`` into the
//! modifier flags and virtual key code that `RegisterHotKey` takes.
use vstd::prelude::*;

use crate::text::{
    all_ascii, ascii_lowered, ascii_upper, chars_of, chars_eq_str, lowercase, split_chars,
    split_on, string_from_chars, to_ascii_upper, to_lowercase, trim, trim_chars,
};

verus! {

/// `MOD_ALT`.
pub const MOD_ALT: u32 = 0x0001;

/// `MOD_CONTROL`.
pub const MOD_CONTROL: u32 = 0x0002;

/// `MOD_SHIFT`.
pub const MOD_SHIFT: u32 = 0x0004;

/// `MOD_WIN`.
pub const MOD_WIN: u32 = 0x0008;

/// The flag a (lower-case) modifier name sets; 0 for an unknown name.
pub open spec fn modifier_bit(p: Seq<char>) -> u32 {
    if p == "ctrl"@ || p == "control"@ {
        0x0002
    } else if p == "alt"@ {
        0x0001
    } else if p == "shift"@ {
        0x0004
    } else if p == "win"@ || p == "windows"@ {
        0x0008
    } else {
        0
    }
}

/// The flags of a list of modifier names, or-ed together.
pub open spec fn modifier_bits(ps: Seq<Seq<char>>) -> u32
    decreases ps.len(),
{
    if ps.len() == 0 {
        0
    } else {
        modifier_bits(ps.drop_last()) | modifier_bit(ps.last())
    }
}

/// The virtual key code of a (lower-case) key name: the backquote key,
/// F1 to F12, space, tab, escape, or a single ASCII character (its upper
/// case); `None` for anything else.
pub open spec fn key_code(k: Seq<char>) -> Option<u32> {
    if k == "`"@ || k == "~"@ || k == "oem3"@ {
        Some(0xC0)
    } else if k == "f1"@ {
        Some(0x70)
    } else if k == "f2"@ {
        Some(0x71)
    } else if k == "f3"@ {
        Some(0x72)
    } else if k == "f4"@ {
        Some(0x73)
    } else if k == "f5"@ {
        Some(0x74)
    } else if k == "f6"@ {
        Some(0x75)
    } else if k == "f7"@ {
        Some(0x76)
    } else if k == "f8"@ {
        Some(0x77)
    } else if k == "f9"@ {
        Some(0x78)
    } else if k == "f10"@ {
        Some(0x79)
    } else if k == "f11"@ {
        Some(0x7A)
    } else if k == "f12"@ {
        Some(0x7B)
    } else if k == "space"@ {
        Some(0x20)
    } else if k == "tab"@ {
        Some(0x09)
    } else if k == "escape"@ || k == "esc"@ {
        Some(0x1B)
    } else if k.len() == 1 && (k[0] as u32) < 0x80 {
        Some(ascii_upper(k[0]) as u32)
    } else {
        None
    }
}

/// The function keys F1 to F12 have the codes 0x70 to 0x7B, in order:
/// `f` followed by the decimal `n` is the key `0x6F + n`.
pub proof fn law_function_keys(n: nat)
    requires
        1 <= n <= 12,
    ensures
        key_code(seq!['f'] + crate::text::dec(n)) == Some((0x6F + n) as u32),
{
    reveal_with_fuel(crate::text::dec, 2);
    let k = seq!['f'] + crate::text::dec(n);
    if n < 10 {
        assert(k =~= seq!['f', crate::text::digit_char(n)]);
    } else {
        assert(crate::text::dec(n) == crate::text::dec(1).push(crate::text::digit_char(
            (n % 10) as nat,
        )));
        assert(k =~= seq!['f', '1', crate::text::digit_char((n % 10) as nat)]);
    }
    reveal_strlit("`");
    reveal_strlit("~");
    reveal_strlit("oem3");
    reveal_strlit("f1");
    reveal_strlit("f2");
    reveal_strlit("f3");
    reveal_strlit("f4");
    reveal_strlit("f5");
    reveal_strlit("f6");
    reveal_strlit("f7");
    reveal_strlit("f8");
    reveal_strlit("f9");
    reveal_strlit("f10");
    reveal_strlit("f11");
    reveal_strlit("f12");
    reveal_strlit("space");
    reveal_strlit("tab");
    reveal_strlit("escape");
    reveal_strlit("esc");
    if n == 1 {
        assert(k =~= "f1"@);
    } else if n == 2 {
        assert(k =~= "f2"@);
    } else if n == 3 {
        assert(k =~= "f3"@);
    } else if n == 4 {
        assert(k =~= "f4"@);
    } else if n == 5 {
        assert(k =~= "f5"@);
    } else if n == 6 {
        assert(k =~= "f6"@);
    } else if n == 7 {
        assert(k =~= "f7"@);
    } else if n == 8 {
        assert(k =~= "f8"@);
    } else if n == 9 {
        assert(k =~= "f9"@);
    } else if n == 10 {
        assert(k =~= "f10"@);
    } else if n == 11 {
        assert(k =~= "f11"@);
    } else {
        assert(k =~= "f12"@);
    }
}

/// A one-character key name that is ASCII is the key of that character's
/// upper case, except the backquote and tilde, which name the 0xC0 key.
pub proof fn law_single_character_keys(c: char)
    requires
        (c as u32) < 0x80,
    ensures
        c != '`' && c != '~' ==> key_code(seq![c]) == Some(ascii_upper(c) as u32),
        c == '`' || c == '~' ==> key_code(seq![c]) == Some(0xC0u32),
{
    reveal_strlit("`");
    reveal_strlit("~");
    reveal_strlit("oem3");
    reveal_strlit("f1");
    reveal_strlit("f2");
    reveal_strlit("f3");
    reveal_strlit("f4");
    reveal_strlit("f5");
    reveal_strlit("f6");
    reveal_strlit("f7");
    reveal_strlit("f8");
    reveal_strlit("f9");
    reveal_strlit("f10");
    reveal_strlit("f11");
    reveal_strlit("f12");
    reveal_strlit("space");
    reveal_strlit("tab");
    reveal_strlit("escape");
    reveal_strlit("esc");
    let k = seq![c];
    assert(k.len() == 1);
    if c == '`' {
        assert(k =~= "`"@);
    } else if c == '~' {
        assert(k =~= "~"@);
    } else {
        assert(k != "`"@) by {
            if k == "`"@ {
                assert(k[0] == "`"@[0]);
            }
        }
        assert(k != "~"@) by {
            if k == "~"@ {
                assert(k[0] == "~"@[0]);
            }
        }
    }
}

/// The named keys: space 0x20, tab 0x09, escape (or esc) 0x1B, and the
/// backquote key (also called `~` or `oem3`) 0xC0.
pub proof fn law_named_keys(k: Seq<char>)
    ensures
        k == "space"@ ==> key_code(k) == Some(0x20u32),
        k == "tab"@ ==> key_code(k) == Some(0x09u32),
        k == "escape"@ || k == "esc"@ ==> key_code(k) == Some(0x1Bu32),
        k == "`"@ || k == "~"@ || k == "oem3"@ ==> key_code(k) == Some(0xC0u32),
{
    lemma_named_keys_differ(k);
    reveal_strlit("`");
    reveal_strlit("~");
    reveal_strlit("oem3");
    reveal_strlit("f1");
    reveal_strlit("f2");
    reveal_strlit("f3");
    reveal_strlit("f4");
    reveal_strlit("f5");
    reveal_strlit("f6");
    reveal_strlit("f7");
    reveal_strlit("f8");
    reveal_strlit("f9");
    reveal_strlit("f10");
    reveal_strlit("f11");
    reveal_strlit("f12");
    reveal_strlit("space");
    reveal_strlit("tab");
    reveal_strlit("escape");
    reveal_strlit("esc");
}

proof fn lemma_named_keys_differ(k: Seq<char>)
    ensures
        k == "space"@ || k == "tab"@ || k == "escape"@ || k == "esc"@ ==> k.len() > 1 && k[0]
            != 'f' && k != "oem3"@,
{
    reveal_strlit("space");
    reveal_strlit("tab");
    reveal_strlit("escape");
    reveal_strlit("esc");
    reveal_strlit("oem3");
    if k == "space"@ || k == "tab"@ || k == "escape"@ || k == "esc"@ {
        if k == "oem3"@ {
            assert(k[0] == "oem3"@[0]);
        }
    }
}

/// The hotkey the lower-cased parts name: fewer than two parts name none;
/// the parts before the last are modifiers, the last is the key.
pub open spec fn hotkey_of(parts: Seq<Seq<char>>) -> Option<(u32, u32)> {
    if parts.len() < 2 {
        None
    } else {
        match key_code(parts.last()) {
            Some(vk) => Some((modifier_bits(parts.drop_last()), vk)),
            None => None,
        }
    }
}

/// The parts of a hotkey description: split at `+`, trimmed, lower-cased.
pub open spec fn hotkey_parts(s: Seq<char>) -> Seq<Seq<char>> {
    split_on(s, '+').map_values(|p: Seq<char>| lowercase(trim(p)))
}

/// The parts of an ASCII hotkey description: lower-cased, split at `+`,
/// trimmed (what `hotkey_parts` is on ASCII text).
pub open spec fn ascii_hotkey_parts(s: Seq<char>) -> Seq<Seq<char>> {
    split_on(ascii_lowered(s), '+').map_values(|p: Seq<char>| trim(p))
}

/// Whether some name in `names` sets the flag `v`.
pub open spec fn has_flag(names: Set<Seq<char>>, v: u32) -> bool {
    exists|p: Seq<char>| names.contains(p) && modifier_bit(p) == v
}

/// The flags four yes/no answers stand for.
pub open spec fn flags_of(alt: bool, ctrl: bool, shift: bool, win: bool) -> u32 {
    (if alt {
        1u32
    } else {
        0u32
    }) | (if ctrl {
        2u32
    } else {
        0u32
    }) | (if shift {
        4u32
    } else {
        0u32
    }) | (if win {
        8u32
    } else {
        0u32
    })
}

/// The flags the set of modifier names `names` sets.
pub open spec fn set_flags(names: Set<Seq<char>>) -> u32 {
    flags_of(has_flag(names, 1), has_flag(names, 2), has_flag(names, 4), has_flag(names, 8))
}

proof fn lemma_flags_step(a: bool, c: bool, sh: bool, w: bool, m: u32)
    by (bit_vector)
    requires
        m == 0 || m == 1 || m == 2 || m == 4 || m == 8,
    ensures
        flags_of(a, c, sh, w) | m == flags_of(a || m == 1, c || m == 2, sh || m == 4, w || m == 8),
{
}

proof fn lemma_bits_of_set(ps: Seq<Seq<char>>)
    ensures
        modifier_bits(ps) == set_flags(ps.to_set()),
    decreases ps.len(),
{
    if ps.len() == 0 {
        assert(ps.to_set() =~= Set::<Seq<char>>::empty());
        assert(flags_of(false, false, false, false) == 0) by (bit_vector);
    } else {
        let q = ps.drop_last();
        let x = ps.last();
        lemma_bits_of_set(q);
        assert(ps =~= q.push(x));
        assert forall|p: Seq<char>| ps.to_set().contains(p) <==> q.to_set().insert(x).contains(p) by {
            if q.contains(p) {
                let i = choose|i: int| 0 <= i < q.len() && q[i] == p;
                assert(ps[i] == p);
            }
            if ps.contains(p) {
                let i = choose|i: int| 0 <= i < ps.len() && ps[i] == p;
                if i < q.len() {
                    assert(q[i] == p);
                }
            }
            assert(ps[ps.len() - 1] == x);
        }
        assert(ps.to_set() =~= q.to_set().insert(x));
        let m = modifier_bit(x);
        let qs = q.to_set();
        let s2 = qs.insert(x);
        assert forall|v: u32| has_flag(s2, v) == (has_flag(qs, v) || m == v) by {
            if has_flag(qs, v) {
                let p = choose|p: Seq<char>| qs.contains(p) && modifier_bit(p) == v;
                assert(s2.contains(p));
            }
            if m == v {
                assert(s2.contains(x));
            }
        }
        lemma_flags_step(has_flag(qs, 1), has_flag(qs, 2), has_flag(qs, 4), has_flag(qs, 8), m);
    }
}

/// The flags of a list of modifier names depend only on which names it
/// holds, not on their order or how often each occurs.
pub proof fn law_modifiers_as_set(a: Seq<Seq<char>>, b: Seq<Seq<char>>)
    requires
        a.to_set() == b.to_set(),
    ensures
        modifier_bits(a) == modifier_bits(b),
{
    lemma_bits_of_set(a);
    lemma_bits_of_set(b);
}

proof fn lemma_split_concat(a: Seq<char>, b: Seq<char>, sep: char)
    ensures
        split_on(a + seq![sep] + b, sep) == split_on(a, sep) + split_on(b, sep),
    decreases b.len(),
{
    crate::text::lemma_split_on_nonempty(a, sep);
    crate::text::lemma_split_on_nonempty(b, sep);
    let s = a + seq![sep] + b;
    if b.len() == 0 {
        assert(s.drop_last() =~= a);
        assert(split_on(b, sep) =~= seq![Seq::<char>::empty()]);
        assert(split_on(a, sep).push(Seq::<char>::empty()) =~= split_on(a, sep) + seq![
            Seq::<char>::empty(),
        ]);
    } else {
        let b1 = b.drop_last();
        lemma_split_concat(a, b1, sep);
        crate::text::lemma_split_on_nonempty(b1, sep);
        assert(s.drop_last() =~= a + seq![sep] + b1);
        assert(s.last() == b.last());
        let x = split_on(a, sep);
        let y = split_on(b1, sep);
        if b.last() == sep {
            assert((x + y).push(Seq::<char>::empty()) =~= x + y.push(Seq::<char>::empty()));
        } else {
            let c = b.last();
            assert((x + y).update((x + y).len() - 1, (x + y).last().push(c)) =~= x + y.update(
                y.len() - 1,
                y.last().push(c),
            ));
        }
    }
}

proof fn lemma_split_without_sep(s: Seq<char>, sep: char)
    requires
        !s.contains(sep),
    ensures
        split_on(s, sep) == seq![s],
    decreases s.len(),
{
    if s.len() > 0 {
        let t = s.drop_last();
        assert(!t.contains(sep)) by {
            if t.contains(sep) {
                let i = choose|i: int| 0 <= i < t.len() && t[i] == sep;
                assert(s[i] == sep);
            }
        }
        lemma_split_without_sep(t, sep);
        assert(s[s.len() - 1] == s.last());
        assert(t.push(s.last()) =~= s);
        assert(seq![t].update(0, t.push(s.last())) =~= seq![s]);
    } else {
        assert(s =~= Seq::<char>::empty());
    }
}

/// The modifier names of the text before a hotkey's key: lower-cased, split
/// at `+`, trimmed.
pub open spec fn modifier_names(m: Seq<char>) -> Seq<Seq<char>> {
    split_on(ascii_lowered(m), '+').map_values(|p: Seq<char>| trim(p))
}

/// `m + "+" + k` names the same hotkey as `m2 + "+" + k` whenever the two
/// modifier texts name the same set of modifiers, whatever their order,
/// repetition or ASCII letter case (`parse_hotkey` is
/// `hotkey_of(ascii_hotkey_parts(..))` on ASCII text).
pub proof fn law_hotkey_modifiers_unordered(m1: Seq<char>, m2: Seq<char>, k: Seq<char>)
    requires
        !k.contains('+'),
        modifier_names(m1).to_set() == modifier_names(m2).to_set(),
    ensures
        hotkey_of(ascii_hotkey_parts(m1 + seq!['+'] + k)) == hotkey_of(
            ascii_hotkey_parts(m2 + seq!['+'] + k),
        ),
{
    lemma_parts_split(m1, k);
    lemma_parts_split(m2, k);
    law_modifiers_as_set(modifier_names(m1), modifier_names(m2));
    let key = trim(ascii_lowered(k));
    assert(modifier_names(m1).push(key).drop_last() =~= modifier_names(m1));
    assert(modifier_names(m2).push(key).drop_last() =~= modifier_names(m2));
}

proof fn lemma_parts_split(m: Seq<char>, k: Seq<char>)
    requires
        !k.contains('+'),
    ensures
        ascii_hotkey_parts(m + seq!['+'] + k) == modifier_names(m).push(trim(ascii_lowered(k))),
        modifier_names(m).len() >= 1,
{
    let lm = ascii_lowered(m);
    let lk = ascii_lowered(k);
    assert(ascii_lowered(m + seq!['+'] + k) =~= lm + seq!['+'] + lk);
    lemma_split_concat(lm, lk, '+');
    assert(!lk.contains('+')) by {
        if lk.contains('+') {
            let i = choose|i: int| 0 <= i < lk.len() && lk[i] == '+';
            assert(k[i] == '+') by {
                if 'A' <= k[i] && k[i] <= 'Z' {
                    assert('a' <= lk[i] && lk[i] <= 'z');
                }
            }
        }
    }
    lemma_split_without_sep(lk, '+');
    crate::text::lemma_split_on_nonempty(lm, '+');
    assert((split_on(lm, '+') + seq![lk]).map_values(|p: Seq<char>| trim(p)) =~= modifier_names(
        m,
    ).push(trim(lk)));
}

/// `parse_hotkey(m1 + "+" + k) == parse_hotkey(m2 + "+" + k)` whenever the
/// two modifier texts, split at `+`, trimmed and lower-cased, name the same
/// set of modifiers, whatever their order or repetition; and the flags are
/// then those of that set: the OR of ctrl/control 0x2, alt 0x1, shift 0x4,
/// win/windows 0x8 over the names given (`parse_hotkey` is
/// `hotkey_of(hotkey_parts(..))`).
pub proof fn law_parse_hotkey_modifier_set(m1: Seq<char>, m2: Seq<char>, k: Seq<char>)
    requires
        !k.contains('+'),
        hotkey_parts(m1).to_set() == hotkey_parts(m2).to_set(),
    ensures
        hotkey_of(hotkey_parts(m1 + seq!['+'] + k)) == hotkey_of(hotkey_parts(m2 + seq!['+'] + k)),
        hotkey_of(hotkey_parts(m1 + seq!['+'] + k)) matches Some((f, _)) ==> f == set_flags(
            hotkey_parts(m1).to_set(),
        ),
{
    lemma_raw_parts_split(m1, k);
    lemma_raw_parts_split(m2, k);
    law_modifiers_as_set(hotkey_parts(m1), hotkey_parts(m2));
    lemma_bits_of_set(hotkey_parts(m1));
    let key = lowercase(trim(k));
    assert(hotkey_parts(m1).push(key).drop_last() =~= hotkey_parts(m1));
    assert(hotkey_parts(m2).push(key).drop_last() =~= hotkey_parts(m2));
}

proof fn lemma_raw_parts_split(m: Seq<char>, k: Seq<char>)
    requires
        !k.contains('+'),
    ensures
        hotkey_parts(m + seq!['+'] + k) == hotkey_parts(m).push(lowercase(trim(k))),
        hotkey_parts(m).len() >= 1,
{
    lemma_split_concat(m, k, '+');
    lemma_split_without_sep(k, '+');
    crate::text::lemma_split_on_nonempty(m, '+');
    assert((split_on(m, '+') + seq![k]).map_values(|p: Seq<char>| lowercase(trim(p)))
        =~= hotkey_parts(m).push(lowercase(trim(k))));
}

/// The flag of one modifier name (see `modifier_bit`).
fn modifier_flag(p: &str) -> (r: u32)
    ensures
        r == modifier_bit(p@),
{
    let c = chars_of(p);
    let c = c.as_slice();
    if chars_eq_str(c, "ctrl") || chars_eq_str(c, "control") {
        MOD_CONTROL
    } else if chars_eq_str(c, "alt") {
        MOD_ALT
    } else if chars_eq_str(c, "shift") {
        MOD_SHIFT
    } else if chars_eq_str(c, "win") || chars_eq_str(c, "windows") {
        MOD_WIN
    } else {
        0
    }
}

/// The code of one key name (see `key_code`).
fn virtual_key(k: &str) -> (r: Option<u32>)
    ensures
        r == key_code(k@),
{
    let c = chars_of(k);
    let c = c.as_slice();
    if chars_eq_str(c, "`") || chars_eq_str(c, "~") || chars_eq_str(c, "oem3") {
        Some(0xC0)
    } else if chars_eq_str(c, "f1") {
        Some(0x70)
    } else if chars_eq_str(c, "f2") {
        Some(0x71)
    } else if chars_eq_str(c, "f3") {
        Some(0x72)
    } else if chars_eq_str(c, "f4") {
        Some(0x73)
    } else if chars_eq_str(c, "f5") {
        Some(0x74)
    } else if chars_eq_str(c, "f6") {
        Some(0x75)
    } else if chars_eq_str(c, "f7") {
        Some(0x76)
    } else if chars_eq_str(c, "f8") {
        Some(0x77)
    } else if chars_eq_str(c, "f9") {
        Some(0x78)
    } else if chars_eq_str(c, "f10") {
        Some(0x79)
    } else if chars_eq_str(c, "f11") {
        Some(0x7A)
    } else if chars_eq_str(c, "f12") {
        Some(0x7B)
    } else if chars_eq_str(c, "space") {
        Some(0x20)
    } else if chars_eq_str(c, "tab") {
        Some(0x09)
    } else if chars_eq_str(c, "escape") || chars_eq_str(c, "esc") {
        Some(0x1B)
    } else if c.len() == 1 && (c[0] as u32) < 0x80 {
        Some(to_ascii_upper(c[0]) as u32)
    } else {
        None
    }
}

/// The hotkey already split, trimmed and lower-cased parts name (see
/// `hotkey_of`).
pub fn hotkey_from_parts(parts: &Vec<String>) -> (r: Option<(u32, u32)>)
    ensures
        r == hotkey_of(parts@.map_values(|p: String| p@)),
{
    let ghost ps = parts@.map_values(|p: String| p@);
    if parts.len() < 2 {
        return None;
    }
    let n = parts.len() - 1;
    let mut mods: u32 = 0;
    let mut i: usize = 0;
    while i < n
        invariant
            0 <= i <= n,
            n == parts@.len() - 1,
            ps == parts@.map_values(|p: String| p@),
            mods == modifier_bits(ps.subrange(0, i as int)),
        decreases n - i,
    {
        let f = modifier_flag(parts[i].as_str());
        proof {
            assert(ps.subrange(0, i as int + 1).drop_last() =~= ps.subrange(0, i as int));
        }
        mods = mods | f;
        i = i + 1;
    }
    assert(ps.subrange(0, n as int) =~= ps.drop_last());
    match virtual_key(parts[n].as_str()) {
        Some(vk) => Some((mods, vk)),
        None => None,
    }
}

/// Parses a hotkey description such as `Ctrl+Shift+A`: parts separated by
/// `+`, blanks around them ignored, case ignored; the last part is the key
/// and the others modifiers (unknown modifiers add nothing). `None` with
/// fewer than two parts or an unknown key.
pub fn parse_hotkey(s: &str) -> (r: Option<(u32, u32)>)
    ensures
        r == hotkey_of(hotkey_parts(s@)),
        all_ascii(s@) ==> r == hotkey_of(ascii_hotkey_parts(s@)),
{
    let c = chars_of(s);
    let pieces = split_chars(c.as_slice(), '+');
    let mut lowered: Vec<String> = Vec::new();
    let mut i: usize = 0;
    while i < pieces.len()
        invariant
            0 <= i <= pieces@.len(),
            c@ == s@,
            pieces@.len() == split_on(s@, '+').len(),
            forall|j: int| 0 <= j < pieces@.len() ==> #[trigger] pieces@[j]@ == split_on(s@, '+')[j],
            lowered@.len() == i,
            forall|j: int| 0 <= j < i ==> #[trigger] lowered@[j]@ == lowercase(trim(split_on(s@, '+')[j])),
            all_ascii(s@) ==> forall|j: int| 0 <= j < i ==> #[trigger] lowered@[j]@ == ascii_lowered(
                trim(split_on(s@, '+')[j]),
            ),
        decreases pieces.len() - i,
    {
        let t = trim_chars(pieces[i].as_slice());
        let ts = string_from_chars(t.as_slice());
        proof {
            if all_ascii(s@) {
                crate::text::lemma_split_ascii(s@, '+');
                assert(all_ascii(split_on(s@, '+')[i as int]));
                crate::text::lemma_trim_ascii(split_on(s@, '+')[i as int]);
            }
        }
        lowered.push(to_lowercase(ts.as_str()));
        i = i + 1;
    }
    assert(lowered@.map_values(|p: String| p@) =~= hotkey_parts(s@));
    proof {
        if all_ascii(s@) {
            crate::text::lemma_split_lowered(s@, '+');
            let sp = split_on(s@, '+');
            assert forall|j: int| 0 <= j < sp.len() implies trim(ascii_lowered(#[trigger] sp[j]))
                == ascii_lowered(trim(sp[j])) by {
                crate::text::lemma_trim_lowered(sp[j]);
            }
            assert(lowered@.map_values(|p: String| p@) =~= ascii_hotkey_parts(s@));
        }
    }
    hotkey_from_parts(&lowered)
}

} // verus!
