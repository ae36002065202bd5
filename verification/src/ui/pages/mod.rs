//! The pages of the terminal client and how the user moves between them.
pub mod connections;
pub mod dashboard;
pub mod logs;
pub mod proxies;
pub mod router;
pub mod rules;
pub mod settings;
pub mod subscriptions;

use vstd::prelude::*;

pub use router::PageRouter;

verus! {

/// The pages, in tab order.
#[derive(Debug, Clone, Copy, PartialEq, Eq, Hash, Structural)]
pub enum PageId {
    Dashboard,
    Proxies,
    Connections,
    Logs,
    Rules,
    Settings,
    Subscriptions,
}

/// The number of pages.
pub open spec fn page_count() -> int {
    7
}

/// A page's position in the tab order.
pub open spec fn page_index(p: PageId) -> int {
    match p {
        PageId::Dashboard => 0,
        PageId::Proxies => 1,
        PageId::Connections => 2,
        PageId::Logs => 3,
        PageId::Rules => 4,
        PageId::Settings => 5,
        PageId::Subscriptions => 6,
    }
}

/// The page at position `i` of the tab order.
pub open spec fn page_at(i: int) -> PageId {
    if i == 0 {
        PageId::Dashboard
    } else if i == 1 {
        PageId::Proxies
    } else if i == 2 {
        PageId::Connections
    } else if i == 3 {
        PageId::Logs
    } else if i == 4 {
        PageId::Rules
    } else if i == 5 {
        PageId::Settings
    } else {
        PageId::Subscriptions
    }
}

/// The tab label of a page.
pub open spec fn page_label(p: PageId) -> Seq<char> {
    match p {
        PageId::Dashboard => "Dashboard"@,
        PageId::Proxies => "Proxies"@,
        PageId::Connections => "Conns"@,
        PageId::Logs => "Mihomo Logs"@,
        PageId::Rules => "Rules"@,
        PageId::Settings => "Settings"@,
        PageId::Subscriptions => "Subs"@,
    }
}

/// The page after `p`, wrapping around.
pub open spec fn page_after(p: PageId) -> PageId {
    page_at((page_index(p) + 1) % page_count())
}

/// The page before `p`, wrapping around.
pub open spec fn page_before(p: PageId) -> PageId {
    page_at((page_index(p) + page_count() - 1) % page_count())
}

/// `page_after` applied `n` times.
pub open spec fn page_after_n(p: PageId, n: nat) -> PageId
    decreases n,
{
    if n == 0 {
        p
    } else {
        page_after(page_after_n(p, (n - 1) as nat))
    }
}

impl PageId {
    /// All pages, in tab order.
    pub fn all() -> (r: Vec<PageId>)
        ensures
            r@.len() == page_count(),
            forall|i: int| 0 <= i < page_count() ==> r@[i] == page_at(i),
    {
        let mut v: Vec<PageId> = Vec::new();
        v.push(PageId::Dashboard);
        v.push(PageId::Proxies);
        v.push(PageId::Connections);
        v.push(PageId::Logs);
        v.push(PageId::Rules);
        v.push(PageId::Settings);
        v.push(PageId::Subscriptions);
        v
    }

    /// The tab label.
    pub fn label(&self) -> (r: &'static str)
        ensures
            r@ == page_label(*self),
    {
        match self {
            PageId::Dashboard => "Dashboard",
            PageId::Proxies => "Proxies",
            PageId::Connections => "Conns",
            PageId::Logs => "Mihomo Logs",
            PageId::Rules => "Rules",
            PageId::Settings => "Settings",
            PageId::Subscriptions => "Subs",
        }
    }

    /// The position in the tab order.
    pub fn index(&self) -> (r: usize)
        ensures
            r == page_index(*self),
    {
        match self {
            PageId::Dashboard => 0,
            PageId::Proxies => 1,
            PageId::Connections => 2,
            PageId::Logs => 3,
            PageId::Rules => 4,
            PageId::Settings => 5,
            PageId::Subscriptions => 6,
        }
    }

    /// The next page in tab order, after the last the first.
    pub fn next(self) -> (r: Self)
        ensures
            r == page_after(self),
    {
        let all = Self::all();
        let pos = self.index();
        all[(pos + 1) % all.len()]
    }

    /// The previous page in tab order, before the first the last.
    pub fn prev(self) -> (r: Self)
        ensures
            r == page_before(self),
    {
        let all = Self::all();
        let pos = self.index();
        all[(pos + all.len() - 1) % all.len()]
    }
}

/// Positions and pages correspond one to one.
pub proof fn lemma_page_index_at(p: PageId, i: int)
    ensures
        page_at(page_index(p)) == p,
        0 <= i < page_count() ==> page_index(page_at(i)) == i,
        0 <= page_index(p) < page_count(),
{
}

/// Going forward then back, or back then forward, returns to the page.
pub proof fn law_next_prev_inverse(p: PageId)
    ensures
        page_before(page_after(p)) == p,
        page_after(page_before(p)) == p,
{
}

/// `n` steps forward from `p` land on the page `n` positions further.
pub proof fn lemma_page_after_n(p: PageId, n: nat)
    ensures
        page_after_n(p, n) == page_at((page_index(p) + n) % page_count()),
    decreases n,
{
    if n > 0 {
        lemma_page_after_n(p, (n - 1) as nat);
        let k = (page_index(p) + n - 1) % 7;
        assert(page_index(page_at(k)) == k);
        assert((k + 1) % 7 == (page_index(p) + n) % 7);
    }
}

/// Going forward through as many pages as there are tabs comes back to the
/// start.
pub proof fn law_next_cycles(p: PageId)
    ensures
        page_after_n(p, 7) == p,
{
    lemma_page_after_n(p, 7);
    lemma_page_index_at(p, 0);
    assert((page_index(p) + 7) % 7 == page_index(p));
}

/// Every page is reached from `p` within fewer steps than there are tabs.
pub proof fn law_next_reaches_all(p: PageId, q: PageId)
    ensures
        exists|n: nat| n < 7 && #[trigger] page_after_n(p, n) == q,
{
    let i = page_index(p);
    let j = page_index(q);
    lemma_page_index_at(p, 0);
    lemma_page_index_at(q, 0);
    let n: nat = if j >= i { (j - i) as nat } else { (j + 7 - i) as nat };
    lemma_page_after_n(p, n);
    assert((i + n) % 7 == j);
    assert(page_after_n(p, n) == q);
}

} // verus!
