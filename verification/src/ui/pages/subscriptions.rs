//! The subscriptions page: the list of profiles and a one-line URL input.
//!
//! The input's cursor counts characters, so pasted or typed text of any
//! script is edited and shown whole.
use vstd::prelude::*;

use crate::event::action::Action;
use crate::subscription::Subscription;
use crate::event::keymap::{KeyCode, KeyEvent};
use crate::state::store::AppState;
use crate::text::{
    copy_range, split_chars, split_on, string_from_chars, trim, trim_chars, chars_of, push_str,
};
use crate::ui::pages::proxies::{is_down, is_up, row_down, step_down};
use crate::ui::pages::rules::{is_down_key, is_up_key};

verus! {

/// Whether the URL input is open.
#[derive(Debug, Clone, Copy, PartialEq, Eq, Structural)]
pub enum InputMode {
    Browse,
    AddUrl,
}

/// The subscriptions page's own state.
#[derive(Debug, Clone)]
pub struct SubscriptionsPage {
    pub selected: usize,
    pub input_mode: InputMode,
    /// The URL being typed.
    pub input_text: Vec<char>,
    /// Cursor position, in characters from the start of the text.
    pub cursor_pos: usize,
    pub scroll_offset: usize,
}

/// The subscription name a URL gives: its last `/`-separated part, up to
/// the first `?`.
pub open spec fn name_from_url(url: Seq<char>) -> Seq<char> {
    split_on(split_on(url, '/').last(), '?')[0]
}

/// The name a URL gives (see `name_from_url`).
pub fn subscription_name(url: &[char]) -> (r: String)
    ensures
        r@ == name_from_url(url@),
{
    proof {
        crate::text::lemma_split_on_nonempty(url@, '/');
    }
    let parts = split_chars(url, '/');
    let last = &parts[parts.len() - 1];
    proof {
        crate::text::lemma_split_on_nonempty(last@, '?');
    }
    let pieces = split_chars(last.as_slice(), '?');
    string_from_chars(pieces[0].as_slice())
}

/// A typed character is taken with no modifier or with Shift alone.
pub open spec fn plain_char(key: KeyEvent) -> bool {
    key.code is Char && (key.modifiers == 0 || key.modifiers == 1)
}

impl SubscriptionsPage {
    /// First row selected, input closed and empty.
    pub fn new() -> (r: Self)
        ensures
            r.selected == 0,
            r.input_mode == InputMode::Browse,
            r.input_text@.len() == 0,
            r.cursor_pos == 0,
            r.scroll_offset == 0,
    {
        SubscriptionsPage {
            selected: 0,
            input_mode: InputMode::Browse,
            input_text: Vec::new(),
            cursor_pos: 0,
            scroll_offset: 0,
        }
    }

    /// While the input is open, the page takes every key.
    pub fn is_modal(&self) -> (r: bool)
        ensures
            r == (self.input_mode != InputMode::Browse),
    {
        self.input_mode != InputMode::Browse
    }

    /// Reacts to a key. With the input open: Esc cancels; Enter adds the
    /// trimmed URL (named by `name_from_url`) unless it is empty; Left,
    /// Right, Home, End move the cursor by characters within the text;
    /// Backspace and Delete remove the character before or at the cursor; a
    /// character (no modifier or Shift) is inserted at the cursor, which
    /// moves past it. Otherwise: Down/`j`, Up/`k` move the selection;
    /// `u` downloads, `e` toggles, `x`/Delete removes the selected
    /// subscription; `a` opens the input.
    pub fn handle_key(&mut self, key: KeyEvent, state: &AppState) -> (r: Vec<Action>)
        ensures
            subscriptions_key_spec(*old(self), *final(self), key, state.subscriptions@, r@),
    {
        let mut r: Vec<Action> = Vec::new();
        match self.input_mode {
            InputMode::AddUrl => {
                let len = self.input_text.len();
                match key.code {
                    KeyCode::Esc => {
                        self.input_mode = InputMode::Browse;
                        self.input_text = Vec::new();
                        self.cursor_pos = 0;
                        self.scroll_offset = 0;
                    },
                    KeyCode::Enter => {
                        let url = trim_chars(self.input_text.as_slice());
                        self.input_mode = InputMode::Browse;
                        self.input_text = Vec::new();
                        self.cursor_pos = 0;
                        self.scroll_offset = 0;
                        if url.len() > 0 {
                            let name = subscription_name(url.as_slice());
                            r.push(
                                Action::AddSubscription {
                                    name,
                                    url: string_from_chars(url.as_slice()),
                                },
                            );
                        }
                    },
                    KeyCode::Left => {
                        self.cursor_pos = self.cursor_pos.saturating_sub(1);
                    },
                    KeyCode::Right => {
                        self.cursor_pos = if self.cursor_pos < len {
                            self.cursor_pos + 1
                        } else {
                            len
                        };
                    },
                    KeyCode::Home => {
                        self.cursor_pos = 0;
                    },
                    KeyCode::End => {
                        self.cursor_pos = len;
                    },
                    KeyCode::Backspace => {
                        if self.cursor_pos > 0 {
                            self.cursor_pos = self.cursor_pos - 1;
                            if self.cursor_pos < len {
                                self.input_text.remove(self.cursor_pos);
                            }
                        }
                    },
                    KeyCode::Delete => {
                        if self.cursor_pos < len {
                            self.input_text.remove(self.cursor_pos);
                        }
                    },
                    KeyCode::Char(c) => {
                        if key.modifiers == 0 || key.modifiers == 1 {
                            let at = if self.cursor_pos < len {
                                self.cursor_pos
                            } else {
                                len
                            };
                            self.input_text.insert(at, c);
                            let grown = self.input_text.len();
                            assert(at < grown);
                            self.cursor_pos = at + 1;
                        }
                    },
                    _ => {},
                }
            },
            InputMode::Browse => {
                if is_down_key(key) {
                    self.selected = row_down(self.selected, state.subscriptions.len());
                } else if is_up_key(key) {
                    self.selected = self.selected.saturating_sub(1);
                } else if key.code == KeyCode::Char('u') {
                    if self.selected < state.subscriptions.len() {
                        r.push(
                            Action::DownloadSubscription(
                                state.subscriptions[self.selected].url.clone(),
                            ),
                        );
                    }
                } else if key.code == KeyCode::Char('e') {
                    if self.selected < state.subscriptions.len() {
                        r.push(
                            Action::ToggleSubscription(
                                state.subscriptions[self.selected].name.clone(),
                            ),
                        );
                    }
                } else if key.code == KeyCode::Char('a') {
                    self.input_mode = InputMode::AddUrl;
                } else if key.code == KeyCode::Char('x') || key.code == KeyCode::Delete {
                    if self.selected < state.subscriptions.len() {
                        r.push(
                            Action::RemoveSubscription(
                                state.subscriptions[self.selected].name.clone(),
                            ),
                        );
                    }
                }
            },
        }
        r
    }

    /// The subscriptions page's identity.
    pub fn page_id(&self) -> (r: crate::ui::pages::PageId)
        ensures
            r == crate::ui::pages::PageId::Subscriptions,
    {
        crate::ui::pages::PageId::Subscriptions
    }
}

/// The input closed and emptied.
pub open spec fn input_reset(old: SubscriptionsPage, new: SubscriptionsPage) -> bool {
    &&& new.input_mode == InputMode::Browse
    &&& new.input_text@.len() == 0
    &&& new.cursor_pos == 0
    &&& new.scroll_offset == 0
    &&& new.selected == old.selected
}

/// Only the cursor moved, to `c`.
pub open spec fn cursor_moved(old: SubscriptionsPage, new: SubscriptionsPage, c: int) -> bool {
    &&& new.cursor_pos == c
    &&& new.input_text@ == old.input_text@
    &&& new.input_mode == old.input_mode
    &&& new.selected == old.selected
    &&& new.scroll_offset == old.scroll_offset
}

/// Only the text and cursor changed, to `t` and `c`.
pub open spec fn text_edited(
    old: SubscriptionsPage,
    new: SubscriptionsPage,
    t: Seq<char>,
    c: int,
) -> bool {
    &&& new.input_text@ == t
    &&& new.cursor_pos == c
    &&& new.input_mode == old.input_mode
    &&& new.selected == old.selected
    &&& new.scroll_offset == old.scroll_offset
}

/// Nothing changed.
pub open spec fn page_same(old: SubscriptionsPage, new: SubscriptionsPage) -> bool {
    cursor_moved(old, new, old.cursor_pos as int)
}

/// What a key does to the subscriptions page and which actions it yields,
/// given the subscription list `subs`.
pub open spec fn subscriptions_key_spec(
    old: SubscriptionsPage,
    new: SubscriptionsPage,
    key: KeyEvent,
    subs: Seq<crate::subscription::Subscription>,
    r: Seq<Action>,
) -> bool {
    let t = old.input_text@;
    let cur = old.cursor_pos as int;
    let len = t.len() as int;
    match old.input_mode {
        InputMode::AddUrl => match key.code {
            KeyCode::Esc => input_reset(old, new) && r.len() == 0,
            KeyCode::Enter => {
                &&& input_reset(old, new)
                &&& trim(t).len() > 0 ==> r.len() == 1 && (r[0] matches Action::AddSubscription {
                    name,
                    url,
                } && url@ == trim(t) && name@ == name_from_url(trim(t)))
                &&& trim(t).len() == 0 ==> r.len() == 0
            },
            KeyCode::Left => cursor_moved(old, new, if cur > 0 {
                cur - 1
            } else {
                0
            }) && r.len() == 0,
            KeyCode::Right => cursor_moved(old, new, if cur < len {
                cur + 1
            } else {
                len
            }) && r.len() == 0,
            KeyCode::Home => cursor_moved(old, new, 0) && r.len() == 0,
            KeyCode::End => cursor_moved(old, new, len) && r.len() == 0,
            KeyCode::Backspace => r.len() == 0 && if cur > 0 {
                text_edited(old, new, if cur - 1 < len {
                    t.remove(cur - 1)
                } else {
                    t
                }, cur - 1)
            } else {
                page_same(old, new)
            },
            KeyCode::Delete => r.len() == 0 && if cur < len {
                text_edited(old, new, t.remove(cur), cur)
            } else {
                page_same(old, new)
            },
            KeyCode::Char(c) => r.len() == 0 && if plain_char(key) {
                let at = if cur < len {
                    cur
                } else {
                    len
                };
                text_edited(old, new, t.insert(at, c), at + 1)
            } else {
                page_same(old, new)
            },
            _ => page_same(old, new) && r.len() == 0,
        },
        InputMode::Browse => {
            let sel = old.selected as int;
            let in_range = sel < subs.len();
            &&& new.input_text == old.input_text
            &&& new.cursor_pos == old.cursor_pos
            &&& new.scroll_offset == old.scroll_offset
            &&& if is_down(key) {
                new.selected == step_down(sel, subs.len() as int) && new.input_mode
                    == InputMode::Browse && r.len() == 0
            } else if is_up(key) {
                new.selected == (if sel > 0 {
                    sel - 1
                } else {
                    0
                }) && new.input_mode == InputMode::Browse && r.len() == 0
            } else if key.code == KeyCode::Char('u') {
                &&& new.selected == old.selected && new.input_mode == InputMode::Browse
                &&& in_range ==> r.len() == 1 && (r[0] matches Action::DownloadSubscription(u) && u
                    == subs[sel].url)
                &&& !in_range ==> r.len() == 0
            } else if key.code == KeyCode::Char('e') {
                &&& new.selected == old.selected && new.input_mode == InputMode::Browse
                &&& in_range ==> r.len() == 1 && (r[0] matches Action::ToggleSubscription(n) && n
                    == subs[sel].name)
                &&& !in_range ==> r.len() == 0
            } else if key.code == KeyCode::Char('a') {
                new.selected == old.selected && new.input_mode == InputMode::AddUrl && r.len()
                    == 0
            } else if key.code == KeyCode::Char('x') || key.code == KeyCode::Delete {
                &&& new.selected == old.selected && new.input_mode == InputMode::Browse
                &&& in_range ==> r.len() == 1 && (r[0] matches Action::RemoveSubscription(n) && n
                    == subs[sel].name)
                &&& !in_range ==> r.len() == 0
            } else {
                new.selected == old.selected && new.input_mode == InputMode::Browse && r.len() == 0
            }
        },
    }
}

/// The two parts of a subscription's row: `✓ <name> ` (or `✗` when
/// disabled), and `(<last update or never>)`.
pub fn subscription_row(sub: &Subscription) -> (r: (String, String))
    ensures
        r.0@ == (if sub.enabled {
            "✓"@
        } else {
            "✗"@
        }) + " "@ + sub.name@ + " "@,
        r.1@ == "("@ + crate::text::text_or_spec(sub.last_updated, "never"@) + ")"@,
{
    let mut a = if sub.enabled {
        chars_of("✓")
    } else {
        chars_of("✗")
    };
    push_str(&mut a, " ");
    push_str(&mut a, sub.name.as_str());
    push_str(&mut a, " ");
    let mut b = chars_of("(");
    push_str(&mut b, crate::text::text_or(&sub.last_updated, "never").as_str());
    push_str(&mut b, ")");
    (string_from_chars(a.as_slice()), string_from_chars(b.as_slice()))
}

/// The detail of a subscription as label and value: name, URL, enabled
/// (`Yes`/`No`), last update (or `never`).
pub fn subscription_detail(sub: &Subscription) -> (r: Vec<(String, String)>)
    ensures
        r@.len() == 4,
        r@[0].0@ == " Name: "@ && r@[0].1 == sub.name,
        r@[1].0@ == " URL: "@ && r@[1].1 == sub.url,
        r@[2].0@ == " Enabled: "@ && r@[2].1@ == (if sub.enabled {
            "Yes"@
        } else {
            "No"@
        }),
        r@[3].0@ == " Updated: "@ && r@[3].1@ == crate::text::text_or_spec(
            sub.last_updated,
            "never"@,
        ),
{
    let mut r: Vec<(String, String)> = Vec::new();
    r.push((crate::text::owned(" Name: "), sub.name.clone()));
    r.push((crate::text::owned(" URL: "), sub.url.clone()));
    r.push(
        (
            crate::text::owned(" Enabled: "),
            if sub.enabled {
                crate::text::owned("Yes")
            } else {
                crate::text::owned("No")
            },
        ),
    );
    r.push((crate::text::owned(" Updated: "), crate::text::text_or(&sub.last_updated, "never")));
    r
}

/// The width left for the URL text in an input box `area_width` columns
/// wide: the borders and padding (4) and ` URL: ` (6) taken off.
pub open spec fn display_width(area_width: u16) -> int {
    let inner = if area_width >= 4 {
        area_width - 4
    } else {
        0
    };
    if inner >= 6 {
        inner - 6
    } else {
        0
    }
}

/// The window `(start, end)` of the input text shown, in characters: the cursor is
/// kept in view, the whole text shown from the start when it fits.
pub open spec fn input_window(len: int, cursor: int, scroll: int, width: int) -> (int, int) {
    let s1 = if cursor < scroll {
        cursor
    } else {
        scroll
    };
    if len <= s1 + width {
        (0, len)
    } else {
        let s2 = if cursor >= s1 + width {
            (if cursor >= width {
                cursor - width
            } else {
                0
            }) + 1
        } else {
            s1
        };
        (s2, if s2 + width < len {
            s2 + width
        } else {
            len
        })
    }
}

impl SubscriptionsPage {
    /// The cursor position clamped to the text.
    pub open spec fn shown_cursor(&self) -> int {
        let len = self.input_text@.len() as int;
        if self.cursor_pos < len {
            self.cursor_pos as int
        } else {
            len
        }
    }

    /// The window of the text shown in a box `area_width` columns wide.
    pub open spec fn shown_window(&self, area_width: u16) -> (int, int) {
        input_window(
            self.input_text@.len() as int,
            self.shown_cursor(),
            self.scroll_offset as int,
            display_width(area_width),
        )
    }

    /// The input line shown in a box `area_width` columns wide: nothing
    /// when there is no room; else a `←` (or a space) when text is cut on
    /// the left, `URL: `, the visible text, a `→` (or a space) when text is
    /// cut on the right, and the cursor: `█` after the text when it is at
    /// the end, else `▌` inserted at its column.
    pub open spec fn input_line(&self, area_width: u16) -> Option<Seq<char>> {
        if display_width(area_width) == 0 {
            None
        } else {
            let t = self.input_text@;
            let len = t.len() as int;
            let cursor = self.shown_cursor();
            let (s, e) = self.shown_window(area_width);
            let visible = t.subrange(s, e);
            let full = (if s > 0 {
                "←"@
            } else {
                " "@
            }) + "URL: "@ + visible + (if e < len {
                "→"@
            } else {
                " "@
            });
            let col = 6 + (cursor - s);
            Some(
                if cursor >= len {
                    full + "█"@
                } else if col < full.len() {
                    full.insert(col, '▌')
                } else {
                    full
                },
            )
        }
    }

    /// The window `(start, end)` of `shown_window` in exec form.
    fn window(&self, area_width: u16) -> (r: (usize, usize))
        requires
            display_width(area_width) != 0,
        ensures
            (r.0 as int, r.1 as int) == self.shown_window(area_width),
            r.0 <= r.1 <= self.input_text@.len(),
    {
        let len = self.input_text.len();
        let inner = area_width.saturating_sub(4) as usize;
        let width = inner.saturating_sub(6);
        let cursor = if self.cursor_pos < len {
            self.cursor_pos
        } else {
            len
        };
        let mut scroll = self.scroll_offset;
        if cursor < scroll {
            scroll = cursor;
        }
        if len - scroll <= width {
            (0, len)
        } else {
            if cursor - scroll >= width {
                scroll = cursor.saturating_sub(width) + 1;
            }
            let end = if width < len - scroll {
                scroll + width
            } else {
                len
            };
            (scroll, end)
        }
    }

    /// The input line for a box `area_width` columns wide (see
    /// `input_line`).
    pub fn render_input_text(&self, area_width: u16) -> (r: Option<String>)
        ensures
            match self.input_line(area_width) {
                Some(l) => r matches Some(t) && t@ == l,
                None => r is None,
            },
    {
        let inner = area_width.saturating_sub(4) as usize;
        if inner.saturating_sub(6) == 0 {
            return None;
        }
        let t = self.input_text.as_slice();
        let len = t.len();
        let cursor = if self.cursor_pos < len {
            self.cursor_pos
        } else {
            len
        };
        let (s, e) = self.window(area_width);
        let visible = copy_range(t, s, e);
        let mut full = if s > 0 {
            chars_of("←")
        } else {
            chars_of(" ")
        };
        push_str(&mut full, "URL: ");
        crate::text::push_chars(&mut full, visible.as_slice());
        if e < len {
            push_str(&mut full, "→");
        } else {
            push_str(&mut full, " ");
        }
        if cursor >= len {
            push_str(&mut full, "█");
        } else {
            let off = cursor - s;
            if full.len() >= 6 && off < full.len() - 6 {
                full.insert(6 + off, '▌');
            }
        }
        Some(string_from_chars(full.as_slice()))
    }
}

} // verus!
