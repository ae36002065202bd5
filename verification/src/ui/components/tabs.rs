//! The tab bar.
use vstd::prelude::*;

use crate::text::{push_str, string_from_chars};
use crate::ui::pages::{page_label, PageId};

verus! {

/// A tab's title: the page label with two spaces on each side.
pub fn tab_title(page: PageId) -> (r: String)
    ensures
        r@ == "  "@ + page_label(page) + "  "@,
{
    let mut v: Vec<char> = Vec::new();
    push_str(&mut v, "  ");
    push_str(&mut v, page.label());
    push_str(&mut v, "  ");
    string_from_chars(v.as_slice())
}

} // verus!
