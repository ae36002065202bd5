//! The help overlay: the key hints of each page.
use vstd::prelude::*;

use crate::text::owned;
use crate::ui::pages::PageId;

verus! {

/// One hint: the key, then what it does.
pub type Hint = (String, String);

/// Hints as plain text, line by line.
pub open spec fn hints_view(lines: Seq<Vec<Hint>>) -> Seq<Seq<(Seq<char>, Seq<char>)>> {
    lines.map_values(|line: Vec<Hint>| line@.map_values(|h: Hint| (h.0@, h.1@)))
}

/// The hint lines of each page.
pub open spec fn help_spec(page: PageId) -> Seq<Seq<(Seq<char>, Seq<char>)>> {
    match page {
        PageId::Dashboard => seq![
            seq![(" Tab "@, " Switch page  "@), (" q "@, " Quit  "@), (" ? "@, " Help  "@)],
            seq![(" m "@, " Cycle mode  "@), (" r "@, " Refresh  "@)],
        ],
        PageId::Proxies => seq![
            seq![(" j/k/↑↓ "@, " Navigate  "@), (" t "@, " Test latency  "@)],
            seq![(" Enter/→ "@, " Select/into  "@), (" Esc/← "@, " Back  "@)],
            seq![(" Tab "@, " Switch page  "@), (" q "@, " Quit  "@)],
        ],
        PageId::Connections => seq![
            seq![(" j/k/↑↓ "@, " Navigate  "@), (" d "@, " Close selected  "@), (" D "@, " Close all  "@)],
            seq![(" Tab "@, " Switch page  "@), (" q "@, " Quit  "@)],
        ],
        PageId::Logs => seq![
            seq![(" j/k/↑↓ "@, " Scroll  "@), (" e/w/i "@, " Filter: error/warn/info  "@)],
            seq![(" a "@, " Show all  "@), (" Home/End "@, " Jump top/bottom  "@), (" q "@, " Quit  "@)],
            seq![(" Tab "@, " Switch page  "@)],
        ],
        PageId::Rules => seq![
            seq![(" j/k/↑↓ "@, " Navigate  "@), (" Tab "@, " Switch page  "@), (" q "@, " Quit  "@)],
        ],
        PageId::Settings => seq![
            seq![(" p "@, " Toggle proxy  "@), (" Tab "@, " Switch page  "@)],
            seq![(" ? "@, " Close help  "@), (" q "@, " Quit  "@)],
        ],
        PageId::Subscriptions => seq![
            seq![(" j/k/↑↓ "@, " Navigate  "@), (" u "@, " Update  "@), (" e "@, " Toggle  "@)],
            seq![(" Tab "@, " Switch page  "@), (" q "@, " Quit  "@)],
        ],
    }
}

/// A hint of literal text.
fn hint(key: &str, text: &str) -> (r: Hint)
    ensures
        r.0@ == key@,
        r.1@ == text@,
{
    (owned(key), owned(text))
}

/// The hint lines the help overlay shows on `page`.
pub fn help_lines(page: PageId) -> (r: Vec<Vec<Hint>>)
    ensures
        hints_view(r@) == help_spec(page),
{
    let mut lines: Vec<Vec<Hint>> = Vec::new();
    match page {
        PageId::Dashboard => {
            let mut l: Vec<Hint> = Vec::new();
            l.push(hint(" Tab ", " Switch page  "));
            l.push(hint(" q ", " Quit  "));
            l.push(hint(" ? ", " Help  "));
            lines.push(l);
            let mut l: Vec<Hint> = Vec::new();
            l.push(hint(" m ", " Cycle mode  "));
            l.push(hint(" r ", " Refresh  "));
            lines.push(l);
        },
        PageId::Proxies => {
            let mut l: Vec<Hint> = Vec::new();
            l.push(hint(" j/k/↑↓ ", " Navigate  "));
            l.push(hint(" t ", " Test latency  "));
            lines.push(l);
            let mut l: Vec<Hint> = Vec::new();
            l.push(hint(" Enter/→ ", " Select/into  "));
            l.push(hint(" Esc/← ", " Back  "));
            lines.push(l);
            let mut l: Vec<Hint> = Vec::new();
            l.push(hint(" Tab ", " Switch page  "));
            l.push(hint(" q ", " Quit  "));
            lines.push(l);
        },
        PageId::Connections => {
            let mut l: Vec<Hint> = Vec::new();
            l.push(hint(" j/k/↑↓ ", " Navigate  "));
            l.push(hint(" d ", " Close selected  "));
            l.push(hint(" D ", " Close all  "));
            lines.push(l);
            let mut l: Vec<Hint> = Vec::new();
            l.push(hint(" Tab ", " Switch page  "));
            l.push(hint(" q ", " Quit  "));
            lines.push(l);
        },
        PageId::Logs => {
            let mut l: Vec<Hint> = Vec::new();
            l.push(hint(" j/k/↑↓ ", " Scroll  "));
            l.push(hint(" e/w/i ", " Filter: error/warn/info  "));
            lines.push(l);
            let mut l: Vec<Hint> = Vec::new();
            l.push(hint(" a ", " Show all  "));
            l.push(hint(" Home/End ", " Jump top/bottom  "));
            l.push(hint(" q ", " Quit  "));
            lines.push(l);
            let mut l: Vec<Hint> = Vec::new();
            l.push(hint(" Tab ", " Switch page  "));
            lines.push(l);
        },
        PageId::Rules => {
            let mut l: Vec<Hint> = Vec::new();
            l.push(hint(" j/k/↑↓ ", " Navigate  "));
            l.push(hint(" Tab ", " Switch page  "));
            l.push(hint(" q ", " Quit  "));
            lines.push(l);
        },
        PageId::Settings => {
            let mut l: Vec<Hint> = Vec::new();
            l.push(hint(" p ", " Toggle proxy  "));
            l.push(hint(" Tab ", " Switch page  "));
            lines.push(l);
            let mut l: Vec<Hint> = Vec::new();
            l.push(hint(" ? ", " Close help  "));
            l.push(hint(" q ", " Quit  "));
            lines.push(l);
        },
        PageId::Subscriptions => {
            let mut l: Vec<Hint> = Vec::new();
            l.push(hint(" j/k/↑↓ ", " Navigate  "));
            l.push(hint(" u ", " Update  "));
            l.push(hint(" e ", " Toggle  "));
            lines.push(l);
            let mut l: Vec<Hint> = Vec::new();
            l.push(hint(" Tab ", " Switch page  "));
            l.push(hint(" q ", " Quit  "));
            lines.push(l);
        },
    }
    assert(hints_view(lines@) =~~= help_spec(page));
    lines
}

} // verus!
