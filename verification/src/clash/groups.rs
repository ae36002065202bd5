//! Values keyed by name: the proxy groups of a refresh, the latency cache.
use vstd::prelude::*;

use crate::clash::types::{ProxyGroup, ProxyGroupView};
use crate::text::{chars_lt, chars_of, seq_lt};

verus! {

/// One named value.
#[derive(Debug, Clone)]
pub struct NamedEntry<V> {
    pub key: String,
    pub group: V,
}

/// Values by name: each name occurs at most once.
#[derive(Debug)]
pub struct NameMap<V> {
    entries: Vec<NamedEntry<V>>,
}

/// Proxy groups by name, as /proxies lists them.
pub type ProxyGroupMap = NameMap<ProxyGroup>;

/// Measured latencies in milliseconds by proxy name.
pub type LatencyCache = NameMap<u64>;

/// No two entries share a name.
pub open spec fn keys_distinct<V>(s: Seq<NamedEntry<V>>) -> bool {
    forall|i: int, j: int|
        0 <= i < s.len() && 0 <= j < s.len() && i != j ==> #[trigger] s[i].key@ != #[trigger] s[j].key@
}

/// The map that a sequence of entries describes.
pub open spec fn map_of<V: View>(s: Seq<NamedEntry<V>>) -> Map<Seq<char>, V::V>
    decreases s.len(),
{
    if s.len() == 0 {
        Map::empty()
    } else {
        map_of(s.drop_last()).insert(s.last().key@, s.last().group@)
    }
}

/// The keys of a sequence of entries occur in its map, with their groups.
pub proof fn lemma_map_of_entry<V: View>(s: Seq<NamedEntry<V>>, i: int)
    requires
        keys_distinct(s),
        0 <= i < s.len(),
    ensures
        map_of(s).dom().contains(s[i].key@),
        map_of(s)[s[i].key@] == s[i].group@,
    decreases s.len(),
{
    if i < s.len() - 1 {
        let t = s.drop_last();
        assert(keys_distinct(t)) by {
            assert forall|a: int, b: int|
                0 <= a < t.len() && 0 <= b < t.len() && a != b implies #[trigger] t[a].key@
                != #[trigger] t[b].key@ by {
                assert(t[a] == s[a] && t[b] == s[b]);
            }
        }
        assert(t[i] == s[i]);
        lemma_map_of_entry(t, i);
        assert(s.last().key@ != s[i].key@);
    }
}

/// Every key of the map comes from an entry.
pub proof fn lemma_map_of_dom<V: View>(s: Seq<NamedEntry<V>>, k: Seq<char>)
    requires
        map_of(s).dom().contains(k),
    ensures
        exists|i: int| 0 <= i < s.len() && #[trigger] s[i].key@ == k,
    decreases s.len(),
{
    if s.len() > 0 {
        if s.last().key@ == k {
            assert(s[s.len() - 1].key@ == k);
        } else {
            lemma_map_of_dom(s.drop_last(), k);
            let i = choose|i: int| 0 <= i < s.drop_last().len() && #[trigger] s.drop_last()[i].key@ == k;
            assert(s[i] == s.drop_last()[i]);
        }
    }
}

/// The map has exactly as many keys as there are entries.
pub proof fn lemma_map_of_len<V: View>(s: Seq<NamedEntry<V>>)
    requires
        keys_distinct(s),
    ensures
        map_of(s).dom().finite(),
        map_of(s).dom().len() == s.len(),
    decreases s.len(),
{
    if s.len() > 0 {
        let t = s.drop_last();
        assert(keys_distinct(t)) by {
            assert forall|a: int, b: int|
                0 <= a < t.len() && 0 <= b < t.len() && a != b implies #[trigger] t[a].key@
                != #[trigger] t[b].key@ by {
                assert(t[a] == s[a] && t[b] == s[b]);
            }
        }
        lemma_map_of_len(t);
        if map_of(t).dom().contains(s.last().key@) {
            lemma_map_of_dom(t, s.last().key@);
            let i = choose|i: int| 0 <= i < t.len() && #[trigger] t[i].key@ == s.last().key@;
            assert(t[i] == s[i]);
            assert(s[i].key@ == s[s.len() - 1].key@);
        }
    }
}

impl<V: View> View for NameMap<V> {
    type V = Map<Seq<char>, V::V>;

    closed spec fn view(&self) -> Map<Seq<char>, V::V> {
        map_of(self.entries@)
    }
}

impl<V> NameMap<V> {
    #[verifier::type_invariant]
    spec fn distinct(self) -> bool {
        keys_distinct(self.entries@)
    }
}

impl<V: View> NameMap<V> {
    /// The entries, in storage order.
    pub closed spec fn entries(self) -> Seq<NamedEntry<V>> {
        self.entries@
    }

    /// What the entries describe: distinct names, and the map they spell.
    pub proof fn lemma_entries(&self)
        requires
            keys_distinct(self.entries()),
        ensures
            keys_distinct(self.entries()),
            self@ == map_of(self.entries()),
            self@.dom().finite(),
            self@.dom().len() == self.entries().len(),
            forall|i: int|
                0 <= i < self.entries().len() ==> self@.dom().contains(
                    #[trigger] self.entries()[i].key@,
                ) && self@[self.entries()[i].key@] == self.entries()[i].group@,
            forall|k: Seq<char>|
                #[trigger] self@.dom().contains(k) ==> exists|i: int|
                    0 <= i < self.entries().len() && #[trigger] self.entries()[i].key@ == k,
    {
        lemma_map_of_len(self.entries@);
        assert forall|i: int| 0 <= i < self.entries().len() implies self@.dom().contains(
            #[trigger] self.entries()[i].key@,
        ) && self@[self.entries()[i].key@] == self.entries()[i].group@ by {
            lemma_map_of_entry(self.entries@, i);
        }
        assert forall|k: Seq<char>| #[trigger] self@.dom().contains(k) implies exists|i: int|
            0 <= i < self.entries().len() && #[trigger] self.entries()[i].key@ == k by {
            lemma_map_of_dom(self.entries@, k);
        }
    }

    /// What holds of every map: see `lemma_entries`.
    pub fn facts(&self)
        ensures
            keys_distinct(self.entries()),
            self@ == map_of(self.entries()),
            self@.dom().finite(),
            self@.dom().len() == self.entries().len(),
            forall|i: int|
                0 <= i < self.entries().len() ==> self@.dom().contains(
                    #[trigger] self.entries()[i].key@,
                ) && self@[self.entries()[i].key@] == self.entries()[i].group@,
            forall|k: Seq<char>|
                #[trigger] self@.dom().contains(k) ==> exists|i: int|
                    0 <= i < self.entries().len() && #[trigger] self.entries()[i].key@ == k,
    {
        proof {
            use_type_invariant(self);
            self.lemma_entries();
        }
    }

    /// No groups.
    pub fn new() -> (m: Self)
        ensures
            m@ == Map::<Seq<char>, V::V>::empty(),
            m.entries().len() == 0,
    {
        NameMap { entries: Vec::new() }
    }

    /// The number of groups.
    pub fn len(&self) -> (n: usize)
        ensures
            n == self@.dom().len(),
            n == self.entries().len(),
    {
        proof {
            use_type_invariant(self);
            self.lemma_entries();
        }
        self.entries.len()
    }

    /// The entry stored at position `i`.
    pub fn entry_at(&self, i: usize) -> (e: &NamedEntry<V>)
        requires
            i < self.entries().len(),
        ensures
            *e == self.entries()[i as int],
    {
        &self.entries[i]
    }

    /// Where `key` is stored, if anywhere.
    fn position(&self, key: &str) -> (r: Option<usize>)
        ensures
            r matches Some(i) ==> i < self.entries().len() && self.entries()[i as int].key@
                == key@,
            r is None ==> !self@.dom().contains(key@),
    {
        proof {
            use_type_invariant(self);
            self.lemma_entries();
        }
        let kc = crate::text::chars_of(key);
        let mut i: usize = 0;
        while i < self.entries.len()
            invariant
                0 <= i <= self.entries@.len(),
                kc@ == key@,
                forall|j: int| 0 <= j < i ==> #[trigger] self.entries@[j].key@ != key@,
            decreases self.entries.len() - i,
        {
            let ec = crate::text::chars_of(self.entries[i].key.as_str());
            if crate::text::chars_eq(ec.as_slice(), kc.as_slice()) {
                return Some(i);
            }
            i = i + 1;
        }
        proof {
            if self@.dom().contains(key@) {
                let j = choose|j: int|
                    0 <= j < self.entries().len() && #[trigger] self.entries()[j].key@ == key@;
                assert(self.entries@[j].key@ != key@);
            }
        }
        None
    }

    /// The group named `key`.
    pub fn get(&self, key: &str) -> (r: Option<&V>)
        ensures
            r matches Some(g) ==> self@.dom().contains(key@) && g@ == self@[key@],
            r is None ==> !self@.dom().contains(key@),
    {
        proof {
            use_type_invariant(self);
            self.lemma_entries();
        }
        match self.position(key) {
            Some(i) => Some(&self.entries[i].group),
            None => None,
        }
    }

    /// Whether a group is named `key`.
    pub fn contains_key(&self, key: &str) -> (r: bool)
        ensures
            r == self@.dom().contains(key@),
    {
        self.facts();
        self.position(key).is_some()
    }

    /// Adds `group` under `key`, replacing a group of that name.
    pub fn insert(&mut self, key: String, group: V)
        ensures
            final(self)@ == old(self)@.insert(key@, group@),
    {
        proof {
            use_type_invariant(&*self);
            self.lemma_entries();
        }
        match self.position(key.as_str()) {
            Some(i) => {
                let ghost old_entries = self.entries@;
                let e = NamedEntry { key, group };
                let ghost ne = e;
                let mut entries = Vec::new();
                std::mem::swap(&mut entries, &mut self.entries);
                entries.set(i, e);
                proof {
                    assert(keys_distinct(entries@)) by {
                        assert forall|a: int, b: int|
                            0 <= a < entries@.len() && 0 <= b < entries@.len() && a != b implies
                            #[trigger] entries@[a].key@ != #[trigger] entries@[b].key@ by {
                            if a != i && b != i {
                                assert(entries@[a] == old_entries[a]);
                                assert(entries@[b] == old_entries[b]);
                            } else if a == i {
                                assert(entries@[b] == old_entries[b]);
                                assert(old_entries[b].key@ != old_entries[i as int].key@);
                            } else {
                                assert(entries@[a] == old_entries[a]);
                                assert(old_entries[a].key@ != old_entries[i as int].key@);
                            }
                        }
                    }
                    lemma_map_of_len(entries@);
                    assert forall|k: Seq<char>| #[trigger]
                        map_of(entries@).dom().contains(k) <==> map_of(old_entries).insert(
                            ne.key@,
                            ne.group@,
                        ).dom().contains(k) by {
                        if map_of(entries@).dom().contains(k) {
                            lemma_map_of_dom(entries@, k);
                            let j = choose|j: int|
                                0 <= j < entries@.len() && #[trigger] entries@[j].key@ == k;
                            if j != i {
                                assert(entries@[j] == old_entries[j]);
                                lemma_map_of_entry(old_entries, j);
                            }
                        }
                        if map_of(old_entries).dom().contains(k) && k != ne.key@ {
                            lemma_map_of_dom(old_entries, k);
                            let j = choose|j: int|
                                0 <= j < old_entries.len() && #[trigger] old_entries[j].key@ == k;
                            assert(entries@[j] == old_entries[j]);
                            lemma_map_of_entry(entries@, j);
                        }
                        if k == ne.key@ {
                            lemma_map_of_entry(entries@, i as int);
                        }
                    }
                    assert forall|k: Seq<char>| #[trigger]
                        map_of(entries@).dom().contains(k) implies map_of(entries@)[k] == map_of(
                            old_entries,
                        ).insert(ne.key@, ne.group@)[k] by {
                        lemma_map_of_dom(entries@, k);
                        let j = choose|j: int|
                            0 <= j < entries@.len() && #[trigger] entries@[j].key@ == k;
                        lemma_map_of_entry(entries@, j);
                        if j != i {
                            assert(entries@[j] == old_entries[j]);
                            lemma_map_of_entry(old_entries, j);
                        }
                    }
                    assert(map_of(entries@) =~= map_of(old_entries).insert(ne.key@, ne.group@));
                }
                self.entries = entries;
            },
            None => {
                let ghost old_entries = self.entries@;
                let e = NamedEntry { key, group };
                let mut entries = Vec::new();
                std::mem::swap(&mut entries, &mut self.entries);
                entries.push(e);
                proof {
                    assert(entries@.drop_last() =~= old_entries);
                    assert(keys_distinct(entries@)) by {
                        assert forall|a: int, b: int|
                            0 <= a < entries@.len() && 0 <= b < entries@.len() && a != b implies
                            #[trigger] entries@[a].key@ != #[trigger] entries@[b].key@ by {
                            if a < old_entries.len() && b < old_entries.len() {
                                assert(entries@[a] == old_entries[a]);
                                assert(entries@[b] == old_entries[b]);
                            } else if a < old_entries.len() {
                                assert(entries@[a] == old_entries[a]);
                                lemma_map_of_entry(old_entries, a);
                            } else {
                                assert(entries@[b] == old_entries[b]);
                                lemma_map_of_entry(old_entries, b);
                            }
                        }
                    }
                }
                self.entries = entries;
            },
        }
    }


    /// All entries, sorted by name (strictly: names are distinct).
    pub fn sorted_entries(&self) -> (r: Vec<&NamedEntry<V>>)
        ensures
            r@.len() == self@.dom().len(),
            forall|i: int, j: int|
                0 <= i < j < r@.len() ==> seq_lt(#[trigger] r@[i].key@, #[trigger] r@[j].key@),
            forall|i: int|
                0 <= i < r@.len() ==> self@.dom().contains(#[trigger] r@[i].key@) && self@[r@[i].key@]
                    == r@[i].group@,
            forall|k: Seq<char>|
                #[trigger] self@.dom().contains(k) ==> exists|i: int|
                    0 <= i < r@.len() && #[trigger] r@[i].key@ == k,
    {
        self.facts();
        let ghost es = self.entries();
        let mut r: Vec<&NamedEntry<V>> = Vec::new();
        let mut t: usize = 0;
        while t < self.entries.len()
            invariant
                es == self.entries(),
                es == self.entries@,
                keys_distinct(es),
                0 <= t <= es.len(),
                r@.len() == t,
                forall|i: int, j: int|
                    0 <= i < j < r@.len() ==> seq_lt(#[trigger] r@[i].key@, #[trigger] r@[j].key@),
                forall|i: int|
                    0 <= i < r@.len() ==> exists|j: int|
                        0 <= j < t && *#[trigger] r@[i] == #[trigger] es[j],
                forall|j: int|
                    0 <= j < t ==> exists|i: int|
                        0 <= i < r@.len() && #[trigger] r@[i].key@ == #[trigger] es[j].key@,
            decreases es.len() - t,
        {
            let x = &self.entries[t];
            let xk = chars_of(x.key.as_str());
            let mut p: usize = 0;
            while p < r.len() && !chars_lt(xk.as_slice(), chars_of(r[p].key.as_str()).as_slice())
                invariant
                    0 <= p <= r@.len(),
                    xk@ == x.key@,
                    forall|i: int| 0 <= i < p ==> !seq_lt(x.key@, #[trigger] r@[i].key@),
                decreases r.len() - p,
            {
                p = p + 1;
            }
            let ghost old_r = r@;
            proof {
                // x's name differs from every name placed so far.
                assert forall|i: int| 0 <= i < old_r.len() implies #[trigger] old_r[i].key@ != x.key@ by {
                    let j = choose|j: int| 0 <= j < t && *#[trigger] old_r[i] == #[trigger] es[j];
                    assert(es[j].key@ != es[t as int].key@);
                }
                assert forall|i: int| 0 <= i < p implies seq_lt(#[trigger] old_r[i].key@, x.key@) by {
                    crate::text::lemma_seq_lt_total(old_r[i].key@, x.key@);
                }
                if p < old_r.len() {
                    assert(seq_lt(x.key@, old_r[p as int].key@));
                    assert forall|i: int| p <= i < old_r.len() implies seq_lt(x.key@, #[trigger] old_r[i].key@) by {
                        if i > p {
                            crate::text::lemma_seq_lt_transitive(x.key@, old_r[p as int].key@, old_r[i].key@);
                        }
                    }
                }
            }
            r.insert(p, x);
            proof {
                assert(r@ == old_r.insert(p as int, x));
                assert forall|i: int, j: int|
                    0 <= i < j < r@.len() implies seq_lt(#[trigger] r@[i].key@, #[trigger] r@[j].key@) by {
                    if j < p {
                        assert(r@[i] == old_r[i] && r@[j] == old_r[j]);
                    } else if j == p {
                        assert(r@[i] == old_r[i]);
                    } else if i < p {
                        assert(r@[i] == old_r[i] && r@[j] == old_r[j - 1]);
                        crate::text::lemma_seq_lt_transitive(old_r[i].key@, x.key@, old_r[j - 1].key@);
                    } else if i == p {
                        assert(r@[j] == old_r[j - 1]);
                    } else {
                        assert(r@[i] == old_r[i - 1] && r@[j] == old_r[j - 1]);
                    }
                }
                assert forall|i: int| 0 <= i < r@.len() implies exists|j: int|
                    0 <= j < t + 1 && *#[trigger] r@[i] == #[trigger] es[j] by {
                    if i < p {
                        assert(r@[i] == old_r[i]);
                        let j = choose|j: int| 0 <= j < t && *#[trigger] old_r[i] == #[trigger] es[j];
                        assert(*r@[i] == es[j]);
                    } else if i == p {
                        assert(*r@[i] == es[t as int]);
                    } else {
                        assert(r@[i] == old_r[i - 1]);
                        let j = choose|j: int| 0 <= j < t && *#[trigger] old_r[i - 1] == #[trigger] es[j];
                        assert(*r@[i] == es[j]);
                    }
                }
                assert forall|j: int| 0 <= j < t + 1 implies exists|i: int|
                    0 <= i < r@.len() && #[trigger] r@[i].key@ == #[trigger] es[j].key@ by {
                    if j == t {
                        assert(r@[p as int].key@ == es[j].key@);
                    } else {
                        let i = choose|i: int| 0 <= i < old_r.len() && #[trigger] old_r[i].key@ == #[trigger] es[j].key@;
                        if i < p {
                            assert(r@[i] == old_r[i]);
                        } else {
                            assert(r@[i + 1] == old_r[i]);
                        }
                    }
                }
            }
            t = t + 1;
        }
        proof {
            assert forall|i: int| 0 <= i < r@.len() implies self@.dom().contains(#[trigger] r@[i].key@) && self@[r@[i].key@]
                == r@[i].group@ by {
                let j = choose|j: int| 0 <= j < es.len() && *#[trigger] r@[i] == #[trigger] es[j];
            }
            assert forall|k: Seq<char>| #[trigger] self@.dom().contains(k) implies exists|i: int|
                    0 <= i < r@.len() && #[trigger] r@[i].key@ == k by {
                let j = choose|j: int| 0 <= j < es.len() && #[trigger] es[j].key@ == k;
                let i = choose|i: int| 0 <= i < r@.len() && #[trigger] r@[i].key@ == #[trigger] es[j].key@;
            }
        }
        r
    }
}

impl NameMap<ProxyGroup> {
    /// Marks `proxy` as the active member of the group named `key`, if
    /// there is one (`get_mut(key).now = Some(proxy)`).
    pub fn set_now(&mut self, key: &str, proxy: String)
        ensures
            old(self)@.dom().contains(key@) ==> final(self)@ == old(self)@.insert(
                key@,
                ProxyGroupView { now: Some(proxy), ..old(self)@[key@] },
            ),
            !old(self)@.dom().contains(key@) ==> final(self)@ == old(self)@,
    {
        proof {
            use_type_invariant(&*self);
            self.lemma_entries();
        }
        match self.position(key) {
            Some(i) => {
                let e = self.entries[i].clone_entry();
                let k = e.key;
                let mut g = e.group;
                g.now = Some(proxy);
                self.insert(k, g);
            },
            None => {},
        }
    }
}

impl NamedEntry<ProxyGroup> {
    /// A copy of the entry.
    pub fn clone_entry(&self) -> (r: NamedEntry<ProxyGroup>)
        ensures
            r.key == self.key,
            r.group@ == self.group@,
    {
        NamedEntry { key: self.key.clone(), group: self.group.clone_group() }
    }
}

impl ProxyGroup {
    /// A copy of the group.
    pub fn clone_group(&self) -> (r: ProxyGroup)
        ensures
            r@ == self@,
    {
        ProxyGroup {
            name: self.name.clone(),
            group_type: self.group_type.clone(),
            now: crate::clash::types::clone_opt_string(&self.now),
            all: crate::clash::types::clone_strings(&self.all),
            udp: self.udp,
            history: crate::clash::types::clone_history(&self.history),
            hidden: self.hidden,
        }
    }
}

} // verus!
