//! The proxies page: proxy groups on the left, the members of the selected
//! group on the right.
use vstd::prelude::*;

use crate::clash::groups::{NamedEntry, ProxyGroupMap};
use crate::clash::types::{ProxyGroup, ProxyGroupView};
use crate::event::action::Action;
use crate::event::keymap::{KeyCode, KeyEvent};
use crate::state::store::AppState;
use crate::text::{chars_eq_str, chars_of, owned, push_str, seq_lt, string_from_chars};

verus! {

/// Group types that are groups rather than single proxies.
pub open spec fn is_group_type(t: Seq<char>) -> bool {
    t == "Selector"@ || t == "URLTest"@ || t == "Fallback"@ || t == "LoadBalance"@
}

/// Whether `g` is a proxy group (Selector, URLTest, Fallback or
/// LoadBalance) rather than a single proxy.
pub fn is_proxy_group(g: &ProxyGroup) -> (r: bool)
    ensures
        r == is_group_type(g.group_type@),
{
    let t = chars_of(g.group_type.as_str());
    chars_eq_str(t.as_slice(), "Selector") || chars_eq_str(t.as_slice(), "URLTest")
        || chars_eq_str(t.as_slice(), "Fallback") || chars_eq_str(t.as_slice(), "LoadBalance")
}

/// The short label of a proxy type.
pub open spec fn type_label(t: Seq<char>) -> Seq<char> {
    if t == "ss"@ {
        "SS"@
    } else if t == "vmess"@ {
        "VMess"@
    } else if t == "vless"@ {
        "VLESS"@
    } else if t == "trojan"@ {
        "Trojan"@
    } else if t == "hysteria"@ || t == "hysteria2"@ {
        "Hysteria"@
    } else if t == "tuic"@ {
        "TUIC"@
    } else if t == "shadowsocks"@ {
        "SS"@
    } else if t == "http"@ {
        "HTTP"@
    } else if t == "socks5"@ {
        "SOCKS5"@
    } else if t == "snell"@ {
        "Snell"@
    } else if t == "wireguard"@ {
        "WG"@
    } else {
        t
    }
}

/// The short label of a proxy type (`ss` is `SS`, `wireguard` is `WG`,
/// ...); unknown types are shown as they are.
pub fn proxy_type_label(ptype: &str) -> (r: String)
    ensures
        r@ == type_label(ptype@),
{
    let t = chars_of(ptype);
    let s = t.as_slice();
    if chars_eq_str(s, "ss") {
        owned("SS")
    } else if chars_eq_str(s, "vmess") {
        owned("VMess")
    } else if chars_eq_str(s, "vless") {
        owned("VLESS")
    } else if chars_eq_str(s, "trojan") {
        owned("Trojan")
    } else if chars_eq_str(s, "hysteria") || chars_eq_str(s, "hysteria2") {
        owned("Hysteria")
    } else if chars_eq_str(s, "tuic") {
        owned("TUIC")
    } else if chars_eq_str(s, "shadowsocks") {
        owned("SS")
    } else if chars_eq_str(s, "http") {
        owned("HTTP")
    } else if chars_eq_str(s, "socks5") {
        owned("SOCKS5")
    } else if chars_eq_str(s, "snell") {
        owned("Snell")
    } else if chars_eq_str(s, "wireguard") {
        owned("WG")
    } else {
        string_from_chars(s)
    }
}

/// The type tag shown after a proxy: ` [label]` when the proxy is known
/// by name, else nothing.
pub fn proxy_info(name: &str, all_groups: &ProxyGroupMap) -> (r: String)
    ensures
        all_groups@.dom().contains(name@) ==> r@ == " ["@ + type_label(
            all_groups@[name@].group_type@,
        ) + "]"@,
        !all_groups@.dom().contains(name@) ==> r@ == Seq::<char>::empty(),
{
    match all_groups.get(name) {
        Some(p) => {
            let label = proxy_type_label(p.group_type.as_str());
            let mut v = chars_of(" [");
            push_str(&mut v, label.as_str());
            push_str(&mut v, "]");
            string_from_chars(v.as_slice())
        },
        None => String::new(),
    }
}

/// `s` lists the proxy groups of `m` by name: strictly sorted, each a
/// group of `m`, every group of `m` listed.
pub open spec fn is_group_listing(
    m: Map<Seq<char>, ProxyGroupView>,
    s: Seq<(Seq<char>, ProxyGroupView)>,
) -> bool {
    &&& forall|i: int, j: int| 0 <= i < j < s.len() ==> seq_lt(#[trigger] s[i].0, #[trigger] s[j].0)
    &&& forall|i: int|
        0 <= i < s.len() ==> m.dom().contains(#[trigger] s[i].0) && m[s[i].0] == s[i].1
            && is_group_type(s[i].1.group_type@)
    &&& forall|k: Seq<char>|
        #[trigger] m.dom().contains(k) && is_group_type(m[k].group_type@) ==> exists|i: int|
            0 <= i < s.len() && #[trigger] s[i].0 == k
}

/// The proxies page lists a group exactly when its type is one of
/// `Selector`, `URLTest`, `Fallback` or `LoadBalance`: every such group
/// appears in a group listing (`groups_at`), and nothing else does.
pub proof fn law_listing_holds_the_four_group_types(
    m: Map<Seq<char>, ProxyGroupView>,
    s: Seq<(Seq<char>, ProxyGroupView)>,
    k: Seq<char>,
)
    requires
        is_group_listing(m, s),
        m.dom().contains(k),
    ensures
        (m[k].group_type@ == "Selector"@ || m[k].group_type@ == "URLTest"@ || m[k].group_type@
            == "Fallback"@ || m[k].group_type@ == "LoadBalance"@) <==> exists|i: int|
            0 <= i < s.len() && s[i].0 == k,
{
    if exists|i: int| 0 <= i < s.len() && s[i].0 == k {
        let i = choose|i: int| 0 <= i < s.len() && s[i].0 == k;
        assert(m.dom().contains(s[i].0) && m[s[i].0] == s[i].1 && is_group_type(s[i].1.group_type@));
    }
}

/// The listing a vector of entries describes.
pub open spec fn listing_of(v: Seq<&NamedEntry<ProxyGroup>>) -> Seq<(Seq<char>, ProxyGroupView)> {
    v.map_values(|e: &NamedEntry<ProxyGroup>| (e.key@, e.group@))
}

/// The proxy groups of the state, sorted by name (`groups_at`).
pub fn groups_at(state: &AppState) -> (r: Vec<&NamedEntry<ProxyGroup>>)
    ensures
        is_group_listing(state.proxy_groups@, listing_of(r@)),
{
    let all = state.proxy_groups.sorted_entries();
    let ghost m = state.proxy_groups@;
    let mut r: Vec<&NamedEntry<ProxyGroup>> = Vec::new();
    let ghost mut idx: Seq<int> = Seq::empty();
    let mut i: usize = 0;
    while i < all.len()
        invariant
            0 <= i <= all@.len(),
            idx.len() == r@.len(),
            forall|a: int| 0 <= a < r@.len() ==> 0 <= #[trigger] idx[a] < i && r@[a] == all@[idx[a]],
            forall|a: int, b: int| 0 <= a < b < r@.len() ==> #[trigger] idx[a] < #[trigger] idx[b],
            forall|b: int|
                0 <= b < i && is_group_type((#[trigger] all@[b]).group.group_type@) ==> exists|a: int|
                    0 <= a < r@.len() && #[trigger] idx[a] == b,
            forall|a: int| 0 <= a < r@.len() ==> is_group_type((#[trigger] r@[a]).group.group_type@),
        decreases all.len() - i,
    {
        let e = all[i];
        let ghost old_idx = idx;
        let ghost old_len = r@.len();
        if is_proxy_group(&e.group) {
            r.push(e);
            proof {
                idx = idx.push(i as int);
                assert(idx[idx.len() - 1] == i);
            }
        }
        proof {
            assert forall|b: int|
                0 <= b < i + 1 && is_group_type((#[trigger] all@[b]).group.group_type@) implies exists|a: int|
                    0 <= a < r@.len() && #[trigger] idx[a] == b by {
                if b == i {
                    assert(idx[r@.len() - 1] == b);
                } else {
                    let a = choose|a: int| 0 <= a < old_len && #[trigger] old_idx[a] == b;
                    assert(idx[a] == old_idx[a]);
                }
            }
        }
        i = i + 1;
    }
    proof {
        lemma_filtered_listing(m, all@, r@, idx);
    }
    r
}

proof fn lemma_filtered_listing(
    m: Map<Seq<char>, ProxyGroupView>,
    all: Seq<&NamedEntry<ProxyGroup>>,
    r: Seq<&NamedEntry<ProxyGroup>>,
    idx: Seq<int>,
)
    requires
        all.len() == m.dom().len(),
        forall|a: int, b: int|
            0 <= a < b < all.len() ==> seq_lt(#[trigger] all[a].key@, #[trigger] all[b].key@),
        forall|a: int|
            0 <= a < all.len() ==> m.dom().contains(#[trigger] all[a].key@) && m[all[a].key@]
                == all[a].group@,
        forall|k: Seq<char>|
            #[trigger] m.dom().contains(k) ==> exists|a: int| 0 <= a < all.len() && #[trigger] all[a].key@ == k,
        idx.len() == r.len(),
        forall|a: int| 0 <= a < r.len() ==> 0 <= #[trigger] idx[a] < all.len() && r[a] == all[idx[a]],
        forall|a: int, b: int| 0 <= a < b < r.len() ==> #[trigger] idx[a] < #[trigger] idx[b],
        forall|b: int|
            0 <= b < all.len() && is_group_type((#[trigger] all[b]).group.group_type@) ==> exists|a: int|
                0 <= a < r.len() && #[trigger] idx[a] == b,
        forall|a: int| 0 <= a < r.len() ==> is_group_type((#[trigger] r[a]).group.group_type@),
    ensures
        is_group_listing(m, listing_of(r)),
{
    let s = listing_of(r);
    assert forall|a: int| 0 <= a < s.len() implies m.dom().contains(#[trigger] s[a].0) && m[s[a].0] == s[a].1
        && is_group_type(s[a].1.group_type@) by {
        assert(s[a] == (r[a].key@, r[a].group@));
        assert(r[a] == all[idx[a]]);
    }
    assert forall|a: int, b: int| 0 <= a < b < s.len() implies seq_lt(#[trigger] s[a].0, #[trigger] s[b].0) by {
        assert(s[a].0 == r[a].key@ && s[b].0 == r[b].key@);
        assert(idx[a] < idx[b]);
        assert(r[a] == all[idx[a]] && r[b] == all[idx[b]]);
    }
    assert forall|k: Seq<char>|
        #[trigger] m.dom().contains(k) && is_group_type(m[k].group_type@) implies exists|a: int|
            0 <= a < s.len() && #[trigger] s[a].0 == k by {
        let b = choose|b: int| 0 <= b < all.len() && #[trigger] all[b].key@ == k;
        assert(is_group_type(all[b].group.group_type@));
        let a = choose|a: int| 0 <= a < r.len() && #[trigger] idx[a] == b;
        assert(s[a].0 == r[a].key@);
    }
}

/// The last delay in the history of the proxy named `name`.
pub open spec fn history_delay_spec(m: Map<Seq<char>, ProxyGroupView>, name: Seq<char>) -> Option<u64> {
    if m.dom().contains(name) {
        match m[name].history {
            Some(h) => if h.len() > 0 {
                Some(h.last().delay)
            } else {
                None
            },
            None => None,
        }
    } else {
        None
    }
}

/// The last delay mihomo recorded for the proxy named `name`.
pub fn history_delay(name: &str, groups: &ProxyGroupMap) -> (r: Option<u64>)
    ensures
        r == history_delay_spec(groups@, name@),
{
    match groups.get(name) {
        Some(g) => match &g.history {
            Some(h) => if h.len() > 0 {
                Some(h[h.len() - 1].delay)
            } else {
                None
            },
            None => None,
        },
        None => None,
    }
}

/// The latency shown for a proxy: a measured one from the cache first, else
/// the last one in mihomo's history.
pub open spec fn latency_spec(state: AppState, name: Seq<char>) -> Option<u64> {
    if state.latency_cache@.dom().contains(name) {
        Some(state.latency_cache@[name])
    } else {
        history_delay_spec(state.proxy_groups@, name)
    }
}

/// The latency shown for the proxy named `name`.
pub fn latency_of(name: &str, state: &AppState) -> (r: Option<u64>)
    ensures
        r == latency_spec(*state, name@),
{
    match state.latency_cache.get(name) {
        Some(d) => Some(*d),
        None => history_delay(name, &state.proxy_groups),
    }
}

/// How good a latency is.
#[derive(Debug, Clone, Copy, PartialEq, Eq, Structural)]
pub enum LatencyLevel {
    Low,
    Mid,
    High,
}

/// Below 100 ms is low, below 300 ms mid, else high.
pub fn latency_level(delay: u64) -> (r: LatencyLevel)
    ensures
        r == (if delay < 100 {
            LatencyLevel::Low
        } else if delay < 300 {
            LatencyLevel::Mid
        } else {
            LatencyLevel::High
        }),
{
    if delay < 100 {
        LatencyLevel::Low
    } else if delay < 300 {
        LatencyLevel::Mid
    } else {
        LatencyLevel::High
    }
}

/// The latency text after a proxy: ` <n>ms`, or ` -` when unknown.
pub fn latency_text(name: &str, state: &AppState) -> (r: String)
    ensures
        latency_spec(*state, name@) matches Some(d) ==> r@ == " "@ + crate::text::dec(d as nat) + "ms"@,
        latency_spec(*state, name@) is None ==> r@ == " -"@,
{
    match latency_of(name, state) {
        Some(d) => {
            let mut v = chars_of(" ");
            let n = crate::text::u64_to_dec(d);
            crate::text::push_chars(&mut v, n.as_slice());
            push_str(&mut v, "ms");
            string_from_chars(v.as_slice())
        },
        None => owned(" -"),
    }
}

/// The sort key of a member: the delay shown for it (`latency_spec`: the
/// measured one, else the last recorded one), unknown last.
pub open spec fn member_key(state: AppState, name: Seq<char>) -> u64 {
    match latency_spec(state, name) {
        Some(d) => d,
        None => 0xFFFF_FFFF_FFFF_FFFFu64,
    }
}

/// `y` occurs in `r`.
pub open spec fn listed(r: Seq<usize>, y: int) -> bool {
    exists|a: int| 0 <= a < r.len() && r[a] == y
}

/// The order in which the members of `group` are shown: as listed, or,
/// when sorting by latency, stably by `member_key` (the delay shown, ties
/// in list order).
pub fn member_order(group: &ProxyGroup, state: &AppState, sort_by_latency: bool) -> (r: Vec<usize>)
    ensures
        r@.len() == group.all@.len(),
        forall|a: int| 0 <= a < r@.len() ==> #[trigger] r@[a] < group.all@.len(),
        !sort_by_latency ==> forall|a: int| 0 <= a < r@.len() ==> #[trigger] r@[a] == a,
        sort_by_latency ==> forall|a: int, b: int|
            0 <= a < b < r@.len() ==> {
                let ka = member_key(*state, group.all@[r@[a] as int]@);
                let kb = member_key(*state, group.all@[r@[b] as int]@);
                ka < kb || (ka == kb && #[trigger] r@[a] < #[trigger] r@[b])
            },
        forall|x: int| 0 <= x < group.all@.len() ==> #[trigger] listed(r@, x),
{
    let n = group.all.len();
    let mut keys: Vec<u64> = Vec::new();
    let mut i: usize = 0;
    while i < n
        invariant
            n == group.all@.len(),
            0 <= i <= n,
            keys@.len() == i,
            forall|a: int| 0 <= a < i ==> #[trigger] keys@[a] == member_key(*state, group.all@[a]@),
        decreases n - i,
    {
        let d = latency_of(group.all[i].as_str(), state);
        keys.push(match d {
            Some(v) => v,
            None => 0xFFFF_FFFF_FFFF_FFFFu64,
        });
        i = i + 1;
    }
    let mut r: Vec<usize> = Vec::new();
    let mut x: usize = 0;
    while x < n
        invariant
            n == group.all@.len(),
            keys@.len() == n,
            0 <= x <= n,
            r@.len() == x,
            forall|a: int| 0 <= a < r@.len() ==> #[trigger] r@[a] < x,
            !sort_by_latency ==> forall|a: int| 0 <= a < r@.len() ==> #[trigger] r@[a] == a,
            sort_by_latency ==> forall|a: int, b: int|
                0 <= a < b < r@.len() ==> {
                    let ka = keys@[r@[a] as int];
                    let kb = keys@[r@[b] as int];
                    ka < kb || (ka == kb && #[trigger] r@[a] < #[trigger] r@[b])
                },
            forall|y: int| 0 <= y < x ==> #[trigger] listed(r@, y),
        decreases n - x,
    {
        let ghost old_r = r@;
        if sort_by_latency {
            let kx = keys[x];
            let mut p: usize = 0;
            while p < r.len() && keys[r[p]] <= kx
                invariant
                    0 <= p <= r@.len(),
                    keys@.len() == n,
                    forall|a: int| 0 <= a < r@.len() ==> #[trigger] r@[a] < x,
                    x < n,
                    kx == keys@[x as int],
                    forall|a: int| 0 <= a < p ==> keys@[#[trigger] r@[a] as int] <= kx,
                decreases r.len() - p,
            {
                p = p + 1;
            }
            proof {
                if p < old_r.len() {
                    assert(keys@[old_r[p as int] as int] > kx);
                    assert forall|a: int| p <= a < old_r.len() implies keys@[#[trigger] old_r[a] as int] > kx by {
                        if a > p {
                            let ka = keys@[old_r[p as int] as int];
                            let kb = keys@[old_r[a] as int];
                            assert(ka < kb || (ka == kb && old_r[p as int] < old_r[a]));
                        }
                    }
                }
            }
            r.insert(p, x);
            proof {
                assert(r@ == old_r.insert(p as int, x));
                assert forall|a: int, b: int| 0 <= a < b < r@.len() implies {
                    let ka = keys@[r@[a] as int];
                    let kb = keys@[r@[b] as int];
                    ka < kb || (ka == kb && #[trigger] r@[a] < #[trigger] r@[b])
                } by {
                    if b < p {
                        assert(r@[a] == old_r[a] && r@[b] == old_r[b]);
                    } else if b == p {
                        assert(r@[a] == old_r[a]);
                    } else if a < p {
                        assert(r@[a] == old_r[a] && r@[b] == old_r[b - 1]);
                    } else if a == p {
                        assert(r@[b] == old_r[b - 1]);
                    } else {
                        assert(r@[a] == old_r[a - 1] && r@[b] == old_r[b - 1]);
                    }
                }
                assert forall|y: int| 0 <= y < x + 1 implies #[trigger] listed(r@, y) by {
                    if y == x {
                        assert(r@[p as int] == y);
                    } else {
                        assert(listed(old_r, y));
                        let a = choose|a: int| 0 <= a < old_r.len() && #[trigger] old_r[a] == y;
                        if a < p {
                            assert(r@[a] == old_r[a]);
                        } else {
                            assert(r@[a + 1] == old_r[a]);
                        }
                    }
                }
            }
        } else {
            r.push(x);
            proof {
                assert forall|y: int| 0 <= y < x + 1 implies #[trigger] listed(r@, y) by {
                    if y == x {
                        assert(r@[x as int] == y);
                    } else {
                        assert(listed(old_r, y));
                        let a = choose|a: int| 0 <= a < old_r.len() && #[trigger] old_r[a] == y;
                        assert(r@[a] == old_r[a]);
                    }
                }
            }
        }
        x = x + 1;
    }
    r
}

/// Scroll offset that keeps the selected row visible: the cursor moves
/// within the visible rows first, then the content scrolls.
pub open spec fn scroll_offset_spec(selected: int, visible: int) -> int {
    if visible == 0 || selected < visible {
        0
    } else {
        selected - visible + 1
    }
}

/// The first visible row when `selected` is selected and `visible` rows fit.
pub fn scroll_offset(selected: usize, visible: usize) -> (r: usize)
    ensures
        r == scroll_offset_spec(selected as int, visible as int),
        r <= selected,
        visible > 0 ==> selected < r + visible,
{
    if visible == 0 {
        return 0;
    }
    if selected < visible {
        0
    } else {
        selected.saturating_sub(visible).saturating_add(1)
    }
}

/// Which panel has the keyboard.
#[derive(Debug, Clone, Copy, PartialEq, Eq, Structural)]
pub enum PanelFocus {
    Groups,
    Proxies,
}

/// The proxies page's own state.
#[derive(Debug, Clone, Copy)]
pub struct ProxiesPage {
    pub group_index: usize,
    pub proxy_index: usize,
    pub focus: PanelFocus,
    pub sort_by_latency: bool,
    pub testing: bool,
}

/// `a` is the single action `TestAllLatency` for the group and members.
pub open spec fn is_test_all(r: Seq<Action>, group: Seq<char>, proxies: Seq<String>) -> bool {
    &&& r.len() == 1
    &&& r[0] matches Action::TestAllLatency { group: g, proxies: p } && g@ == group && p@ == proxies
}

/// `a` is the single action `SelectProxy` for the group and proxy.
pub open spec fn is_select(r: Seq<Action>, group: Seq<char>, proxy: String) -> bool {
    &&& r.len() == 1
    &&& r[0] matches Action::SelectProxy { group: g, proxy: p } && g@ == group && p == proxy
}

/// `a` is the single action `TestLatency` for the group and proxy.
pub open spec fn is_test_one(r: Seq<Action>, group: Seq<char>, proxy: String) -> bool {
    &&& r.len() == 1
    &&& r[0] matches Action::TestLatency { group: g, proxy: p } && g@ == group && p == proxy
}

/// The key is Down or `j`.
pub open spec fn is_down(k: KeyEvent) -> bool {
    k.code == KeyCode::Down || k.code == KeyCode::Char('j')
}

/// The key is Up or `k`.
pub open spec fn is_up(k: KeyEvent) -> bool {
    k.code == KeyCode::Up || k.code == KeyCode::Char('k')
}

/// `min(i + 1, max(n - 1, 0))`: one row down in a list of `n` rows.
pub open spec fn step_down(i: int, n: int) -> int {
    let max = if n > 0 {
        n - 1
    } else {
        0
    };
    if i + 1 < max {
        i + 1
    } else {
        max
    }
}

/// One row down in a list of `n` rows (`(i + 1).min(n.saturating_sub(1))`).
pub fn row_down(i: usize, n: usize) -> (r: usize)
    ensures
        r == step_down(i as int, n as int),
{
    let max = n.saturating_sub(1);
    if i < max {
        i + 1
    } else {
        max
    }
}

impl ProxiesPage {
    /// Groups panel focused, first rows selected, unsorted.
    pub fn new() -> (r: Self)
        ensures
            r.group_index == 0,
            r.proxy_index == 0,
            r.focus == PanelFocus::Groups,
            !r.sort_by_latency,
            !r.testing,
    {
        ProxiesPage {
            group_index: 0,
            proxy_index: 0,
            focus: PanelFocus::Groups,
            sort_by_latency: false,
            testing: false,
        }
    }

    /// The number of proxy groups.
    pub fn group_count(&self, state: &AppState) -> (r: usize)
        ensures
            forall|s| is_group_listing(state.proxy_groups@, s) ==> r == s.len(),
    {
        let g = groups_at(state);
        proof {
            lemma_listing_unique(state.proxy_groups@, listing_of(g@));
        }
        g.len()
    }

    /// The members of the selected group; 0 without one.
    pub fn proxy_count(&self, state: &AppState) -> (r: usize)
        ensures
            forall|s|
                is_group_listing(state.proxy_groups@, s) ==> r == (if self.group_index < s.len() {
                    s[self.group_index as int].1.all.len() as int
                } else {
                    0
                }),
    {
        let g = groups_at(state);
        proof {
            lemma_listing_unique(state.proxy_groups@, listing_of(g@));
        }
        if self.group_index < g.len() {
            g[self.group_index].group.all.len()
        } else {
            0
        }
    }

    /// Reacts to a key. In the groups panel: Down/`j` and Up/`k` move
    /// between groups (and reset the proxy row), Enter/Right enter the
    /// group, `t` sorts by latency and tests every member of the group, `s`
    /// toggles sorting. In the proxies panel: Down/`j` and Up/`k` move
    /// between members, Esc/Left go back, Enter switches the group to the
    /// member, `t` tests the member.
    pub fn handle_key(&mut self, key: KeyEvent, state: &AppState) -> (r: Vec<Action>)
        ensures
            forall|s|
                is_group_listing(state.proxy_groups@, s) ==> proxies_key_spec(
                    *old(self),
                    *final(self),
                    key,
                    s,
                    r@,
                ),
    {
        let groups = groups_at(state);
        proof {
            lemma_listing_unique(state.proxy_groups@, listing_of(groups@));
        }
        let ghost s = listing_of(groups@);
        let down = key.code == KeyCode::Down || key.code == KeyCode::Char('j');
        let up = key.code == KeyCode::Up || key.code == KeyCode::Char('k');
        let mut r: Vec<Action> = Vec::new();
        match self.focus {
            PanelFocus::Groups => {
                if down {
                    self.group_index = row_down(self.group_index, groups.len());
                    self.proxy_index = 0;
                } else if up {
                    self.group_index = self.group_index.saturating_sub(1);
                    self.proxy_index = 0;
                } else if key.code == KeyCode::Enter || key.code == KeyCode::Right {
                    self.focus = PanelFocus::Proxies;
                } else if key.code == KeyCode::Char('t') {
                    self.sort_by_latency = true;
                    self.testing = true;
                    if self.group_index < groups.len() {
                        let e = groups[self.group_index];
                        r.push(
                            Action::TestAllLatency {
                                group: e.key.clone(),
                                proxies: crate::clash::types::clone_strings(&e.group.all),
                            },
                        );
                    }
                } else if key.code == KeyCode::Char('s') {
                    self.sort_by_latency = !self.sort_by_latency;
                }
            },
            PanelFocus::Proxies => {
                let count = if self.group_index < groups.len() {
                    groups[self.group_index].group.all.len()
                } else {
                    0
                };
                if down {
                    self.proxy_index = row_down(self.proxy_index, count);
                } else if up {
                    self.proxy_index = self.proxy_index.saturating_sub(1);
                } else if key.code == KeyCode::Esc || key.code == KeyCode::Left {
                    self.focus = PanelFocus::Groups;
                } else if key.code == KeyCode::Enter || key.code == KeyCode::Char('t') {
                    if self.group_index < groups.len() {
                        let e = groups[self.group_index];
                        if self.proxy_index < e.group.all.len() {
                            let g = e.key.clone();
                            let p = e.group.all[self.proxy_index].clone();
                            if key.code == KeyCode::Enter {
                                r.push(Action::SelectProxy { group: g, proxy: p });
                            } else {
                                r.push(Action::TestLatency { group: g, proxy: p });
                            }
                        }
                    }
                }
            },
        }
        r
    }

    /// The proxies page's identity.
    pub fn page_id(&self) -> (r: crate::ui::pages::PageId)
        ensures
            r == crate::ui::pages::PageId::Proxies,
    {
        crate::ui::pages::PageId::Proxies
    }
}

/// What a key does to the proxies page, given the listing `s` of groups.
pub open spec fn proxies_key_spec(
    old: ProxiesPage,
    new: ProxiesPage,
    key: KeyEvent,
    s: Seq<(Seq<char>, ProxyGroupView)>,
    r: Seq<Action>,
) -> bool {
    let gi = old.group_index as int;
    let has_group = gi < s.len();
    match old.focus {
        PanelFocus::Groups => if is_down(key) {
            new == ProxiesPage {
                group_index: step_down(gi, s.len() as int) as usize,
                proxy_index: 0,
                ..old
            } && r.len() == 0
        } else if is_up(key) {
            new == ProxiesPage {
                group_index: if gi > 0 {
                    (gi - 1) as usize
                } else {
                    0
                },
                proxy_index: 0,
                ..old
            } && r.len() == 0
        } else if key.code == KeyCode::Enter || key.code == KeyCode::Right {
            new == ProxiesPage { focus: PanelFocus::Proxies, ..old } && r.len() == 0
        } else if key.code == KeyCode::Char('t') {
            &&& new == ProxiesPage { sort_by_latency: true, testing: true, ..old }
            &&& has_group ==> is_test_all(r, s[gi].0, s[gi].1.all)
            &&& !has_group ==> r.len() == 0
        } else if key.code == KeyCode::Char('s') {
            new == ProxiesPage { sort_by_latency: !old.sort_by_latency, ..old } && r.len() == 0
        } else {
            new == old && r.len() == 0
        },
        PanelFocus::Proxies => {
            let count = if has_group {
                s[gi].1.all.len() as int
            } else {
                0
            };
            let pi = old.proxy_index as int;
            if is_down(key) {
                new == ProxiesPage { proxy_index: step_down(pi, count) as usize, ..old } && r.len()
                    == 0
            } else if is_up(key) {
                new == ProxiesPage {
                    proxy_index: if pi > 0 {
                        (pi - 1) as usize
                    } else {
                        0
                    },
                    ..old
                } && r.len() == 0
            } else if key.code == KeyCode::Esc || key.code == KeyCode::Left {
                new == ProxiesPage { focus: PanelFocus::Groups, ..old } && r.len() == 0
            } else if key.code == KeyCode::Enter {
                &&& new == old
                &&& has_group && pi < count ==> is_select(r, s[gi].0, s[gi].1.all[pi])
                &&& !(has_group && pi < count) ==> r.len() == 0
            } else if key.code == KeyCode::Char('t') {
                &&& new == old
                &&& has_group && pi < count ==> is_test_one(r, s[gi].0, s[gi].1.all[pi])
                &&& !(has_group && pi < count) ==> r.len() == 0
            } else {
                new == old && r.len() == 0
            }
        },
    }
}

/// The group listing of a map is unique.
pub proof fn lemma_listing_unique(
    m: Map<Seq<char>, ProxyGroupView>,
    s: Seq<(Seq<char>, ProxyGroupView)>,
)
    requires
        is_group_listing(m, s),
    ensures
        forall|t| is_group_listing(m, t) ==> t == s,
{
    assert forall|t| is_group_listing(m, t) implies t == s by {
        lemma_sorted_same_keys_equal(m, s, t);
    }
}

proof fn lemma_sorted_same_keys_equal(
    m: Map<Seq<char>, ProxyGroupView>,
    s: Seq<(Seq<char>, ProxyGroupView)>,
    t: Seq<(Seq<char>, ProxyGroupView)>,
)
    requires
        is_group_listing(m, s),
        is_group_listing(m, t),
    ensures
        s == t,
    decreases s.len() + t.len(),
{
    // The first entries are the least keys of the same set, so they agree;
    // then the rests are listings of the same keys.
    if s.len() == 0 || t.len() == 0 {
        if s.len() > 0 {
            let i = choose|i: int| 0 <= i < t.len() && #[trigger] t[i].0 == s[0].0;
        }
        if t.len() > 0 {
            let i = choose|i: int| 0 <= i < s.len() && #[trigger] s[i].0 == t[0].0;
        }
        assert(s =~= t);
    } else {
        let i = choose|i: int| 0 <= i < t.len() && #[trigger] t[i].0 == s[0].0;
        let j = choose|j: int| 0 <= j < s.len() && #[trigger] s[j].0 == t[0].0;
        if i > 0 {
            if j > 0 {
                assert(seq_lt(s[0].0, s[j].0));
                assert(seq_lt(t[0].0, t[i].0));
                crate::text::lemma_seq_lt_asymmetric(s[0].0, t[0].0);
            } else {
                assert(seq_lt(t[0].0, t[i].0));
                crate::text::lemma_seq_lt_irreflexive(t[0].0);
            }
        } else if j > 0 {
            assert(seq_lt(s[0].0, s[j].0));
            crate::text::lemma_seq_lt_irreflexive(s[0].0);
        }
        assert(s[0] == t[0]);
        let k0 = s[0].0;
        let m2 = m.remove(k0);
        let s2 = s.drop_first();
        let t2 = t.drop_first();
        assert(is_group_listing(m2, s2)) by {
            assert forall|a: int| 0 <= a < s2.len() implies m2.dom().contains(#[trigger] s2[a].0) && m2[s2[a].0] == s2[a].1
                && is_group_type(s2[a].1.group_type@) by {
                assert(s2[a] == s[a + 1]);
                assert(seq_lt(s[0].0, s[a + 1].0));
                crate::text::lemma_seq_lt_irreflexive(s[0].0);
            }
            assert forall|a: int, b: int| 0 <= a < b < s2.len() implies seq_lt(#[trigger] s2[a].0, #[trigger] s2[b].0) by {
                assert(s2[a] == s[a + 1] && s2[b] == s[b + 1]);
            }
            assert forall|k: Seq<char>|
                #[trigger] m2.dom().contains(k) && is_group_type(m2[k].group_type@) implies exists|a: int|
                    0 <= a < s2.len() && #[trigger] s2[a].0 == k by {
                let a = choose|a: int| 0 <= a < s.len() && #[trigger] s[a].0 == k;
                assert(a > 0);
                assert(s2[a - 1] == s[a]);
            }
        }
        assert(is_group_listing(m2, t2)) by {
            assert forall|a: int| 0 <= a < t2.len() implies m2.dom().contains(#[trigger] t2[a].0) && m2[t2[a].0] == t2[a].1
                && is_group_type(t2[a].1.group_type@) by {
                assert(t2[a] == t[a + 1]);
                assert(seq_lt(t[0].0, t[a + 1].0));
                crate::text::lemma_seq_lt_irreflexive(t[0].0);
            }
            assert forall|a: int, b: int| 0 <= a < b < t2.len() implies seq_lt(#[trigger] t2[a].0, #[trigger] t2[b].0) by {
                assert(t2[a] == t[a + 1] && t2[b] == t[b + 1]);
            }
            assert forall|k: Seq<char>|
                #[trigger] m2.dom().contains(k) && is_group_type(m2[k].group_type@) implies exists|a: int|
                    0 <= a < t2.len() && #[trigger] t2[a].0 == k by {
                let a = choose|a: int| 0 <= a < t.len() && #[trigger] t[a].0 == k;
                assert(a > 0);
                assert(t2[a - 1] == t[a]);
            }
        }
        lemma_sorted_same_keys_equal(m2, s2, t2);
        assert(s =~= t) by {
            assert forall|a: int| 0 <= a < s.len() implies s[a] == t[a] by {
                if a > 0 {
                    assert(s[a] == s2[a - 1] && t[a] == t2[a - 1]);
                }
            }
        }
    }
}

/// The tag a group's type adds to its row: ` [url]`, ` [fb]`, ` [lb]`,
/// or nothing for a selector.
pub open spec fn group_tag_spec(t: Seq<char>) -> Seq<char> {
    if t == "URLTest"@ {
        " [url]"@
    } else if t == "Fallback"@ {
        " [fb]"@
    } else if t == "LoadBalance"@ {
        " [lb]"@
    } else {
        Seq::empty()
    }
}

/// The tag a group's type adds to its row (see `group_tag_spec`).
pub fn group_tag(group_type: &str) -> (r: &'static str)
    ensures
        r@ == group_tag_spec(group_type@),
{
    proof {
        reveal_strlit("");
    }
    let t = chars_of(group_type);
    if chars_eq_str(t.as_slice(), "URLTest") {
        " [url]"
    } else if chars_eq_str(t.as_slice(), "Fallback") {
        " [fb]"
    } else if chars_eq_str(t.as_slice(), "LoadBalance") {
        " [lb]"
    } else {
        ""
    }
}

/// What follows a group's name in its row: ` → <active member or ?> <tag>`.
pub fn group_row_suffix(group: &ProxyGroup) -> (r: String)
    ensures
        r@ == " → "@ + crate::text::text_or_spec(group.now, "?"@) + " "@ + group_tag_spec(
            group.group_type@,
        ),
{
    let mut v = chars_of(" → ");
    let now = crate::text::text_or(&group.now, "?");
    push_str(&mut v, now.as_str());
    push_str(&mut v, " ");
    push_str(&mut v, group_tag(group.group_type.as_str()));
    string_from_chars(v.as_slice())
}

/// Whether `name` is the group's active member.
pub open spec fn is_active_member(group: ProxyGroup, name: Seq<char>) -> bool {
    group.now matches Some(n) && n@ == name
}

/// The start of a member's row: ` ◆ ` before the active member, three
/// spaces before the others, then the name.
pub fn member_row_head(name: &str, group: &ProxyGroup) -> (r: String)
    ensures
        r@ == (if is_active_member(*group, name@) {
            " ◆ "@
        } else {
            "   "@
        }) + name@,
{
    let active = match &group.now {
        Some(n) => crate::text::str_eq(n.as_str(), name),
        None => false,
    };
    let mut v = if active {
        chars_of(" ◆ ")
    } else {
        chars_of("   ")
    };
    push_str(&mut v, name);
    string_from_chars(v.as_slice())
}

/// The title of the members panel: ` <group> (<n> proxies)`, then
/// ` [sorted]` when sorted by latency, then a space.
pub fn members_title(name: &str, count: usize, sorted: bool) -> (r: String)
    ensures
        r@ == " "@ + name@ + " ("@ + crate::text::dec(count as nat) + " proxies)"@ + (if sorted {
            " [sorted]"@
        } else {
            Seq::empty()
        }) + " "@,
{
    let mut v = chars_of(" ");
    push_str(&mut v, name);
    push_str(&mut v, " (");
    let n = crate::text::u64_to_dec(count as u64);
    crate::text::push_chars(&mut v, n.as_slice());
    push_str(&mut v, " proxies)");
    if sorted {
        push_str(&mut v, " [sorted]");
    }
    push_str(&mut v, " ");
    string_from_chars(v.as_slice())
}

/// The colour of a latency: the theme's low, mid or high latency colour by
/// `latency_level`.
pub fn latency_color(delay: u64, theme: &crate::ui::theme::Theme) -> (r: crate::ui::theme::Color)
    ensures
        r == (if delay < 100 {
            theme.latency_low
        } else if delay < 300 {
            theme.latency_mid
        } else {
            theme.latency_high
        }),
{
    match latency_level(delay) {
        LatencyLevel::Low => theme.latency_low,
        LatencyLevel::Mid => theme.latency_mid,
        LatencyLevel::High => theme.latency_high,
    }
}

} // verus!
