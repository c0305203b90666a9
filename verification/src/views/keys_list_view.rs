use vstd::prelude::*;
use crate::formatting::{bytes_text, format_bytes, format_ttl, get_type_badge, ttl_text, type_badge};
use crate::keyboard::KeyCode;
use crate::models::KeyInfo;
use crate::text::{byte_len, decimal, is_boundary, push_decimal, shorten, shortened, string_from};

verus! {

/// The keys panel: the keys shown, the selected row, and whether the panel has the
/// focus.
pub struct KeysListView {
    pub selected: Option<usize>,
    pub items: Vec<KeyInfo>,
    pub focused: bool,
}

/// The selection after new items arrive: a selection past the end moves to the last
/// item (to 0 when there is none).
pub open spec fn selection_after_update(selected: Option<usize>, n: nat) -> Option<usize> {
    match selected {
        Some(s) => if s >= n {
            Some((if n > 0 { n - 1 } else { 0 }) as usize)
        } else {
            Some(s)
        },
        None => None,
    }
}

/// The selection after moving down: the next item, wrapping from the last to the
/// first; the first item when nothing was selected.
pub open spec fn selection_after_next(selected: Option<usize>, n: nat) -> Option<usize> {
    match selected {
        Some(i) => if i >= n - 1 {
            Some(0usize)
        } else {
            Some((i + 1) as usize)
        },
        None => Some(0usize),
    }
}

/// The selection after moving up: the previous item, wrapping from the first to the
/// last; the first item when nothing was selected.
pub open spec fn selection_after_previous(selected: Option<usize>, n: nat) -> Option<usize> {
    match selected {
        Some(i) => if i == 0 {
            Some((if n > 0 { n - 1 } else { 0 }) as usize)
        } else {
            Some((i - 1) as usize)
        },
        None => Some(0usize),
    }
}

/// The selection points at an item, or there is none.
pub open spec fn selection_in_range(selected: Option<usize>, n: nat) -> bool {
    match selected {
        Some(i) => i < n,
        None => true,
    }
}

/// Whether `key` moves the selection down: j or Down.
pub open spec fn moves_down(key: KeyCode) -> bool {
    key == KeyCode::Char('j') || key == KeyCode::Down
}

/// How a row is drawn.
#[derive(Debug, Clone, Copy, PartialEq, Eq, Structural)]
pub enum RowStyle {
    /// Selected in the focused panel.
    Highlighted,
    /// Selected in an unfocused panel.
    Selected,
    /// Not selected, in the focused panel.
    Plain,
    /// Not selected, in an unfocused panel.
    Dimmed,
}

/// The style of a row.
pub open spec fn row_style(is_selected: bool, focused: bool) -> RowStyle {
    if focused && is_selected {
        RowStyle::Highlighted
    } else if is_selected {
        RowStyle::Selected
    } else if focused {
        RowStyle::Plain
    } else {
        RowStyle::Dimmed
    }
}

/// The cells of one row of the keys table.
pub struct KeyRow {
    pub number: String,
    pub name: String,
    pub badge: String,
    pub ttl: String,
    pub memory: String,
    pub style: RowStyle,
}

/// Every key name longer than 30 bytes can be cut after its 27th byte.
pub open spec fn names_cuttable(items: Seq<KeyInfo>) -> bool {
    forall|i: int|
        0 <= i < items.len() ==> (byte_len(#[trigger] items[i].name@) > 30 ==> is_boundary(
            items[i].name@,
            27,
        ))
}

/// Row `i` shows `key` as the table shows it.
pub open spec fn row_shows(row: KeyRow, key: KeyInfo, i: nat, is_selected: bool, focused: bool) -> bool {
    &&& row.number@ == decimal(i + 1)
    &&& row.name@ == shortened(key.name@, 30, 27)
    &&& row.badge@ == type_badge(key.key_type@)
    &&& row.ttl@ == ttl_text(key.ttl)
    &&& row.memory@ == bytes_text(key.memory_bytes)
    &&& row.style == row_style(is_selected, focused)
}

impl KeysListView {
    pub fn new() -> (r: Self)
        ensures
            r.selected is None,
            r.items@.len() == 0,
            !r.focused,
    {
        KeysListView { selected: None, items: Vec::new(), focused: false }
    }

    pub fn set_focus(&mut self, focused: bool)
        ensures
            final(self).focused == focused,
            final(self).items@ == old(self).items@,
            final(self).selected == old(self).selected,
    {
        self.focused = focused
    }

    /// Replaces the items; a selection past their end moves to the last one.
    pub fn update(&mut self, items: Vec<KeyInfo>)
        ensures
            final(self).items@ == items@,
            final(self).selected == selection_after_update(old(self).selected, items@.len()),
            final(self).focused == old(self).focused,
    {
        self.items = items;
        if let Some(selected) = self.selected {
            if selected >= self.items.len() {
                let n = self.items.len();
                self.selected = Some(
                    if n > 0 {
                        n - 1
                    } else {
                        0
                    },
                );
            }
        }
    }

    /// Selects the next item, wrapping around.
    pub fn next(&mut self)
        requires
            old(self).selected is Some ==> old(self).items@.len() > 0,
        ensures
            final(self).selected == selection_after_next(old(self).selected, old(self).items@.len()),
            final(self).items@ == old(self).items@,
            final(self).focused == old(self).focused,
    {
        let i = match self.selected {
            Some(i) => {
                if i >= self.items.len() - 1 {
                    0
                } else {
                    i + 1
                }
            },
            None => 0,
        };
        self.selected = Some(i);
    }

    /// Selects the previous item, wrapping around.
    pub fn previous(&mut self)
        ensures
            final(self).selected == selection_after_previous(
                old(self).selected,
                old(self).items@.len(),
            ),
            final(self).items@ == old(self).items@,
            final(self).focused == old(self).focused,
    {
        let i = match self.selected {
            Some(i) => {
                if i == 0 {
                    let n = self.items.len();
                    if n > 0 {
                        n - 1
                    } else {
                        0
                    }
                } else {
                    i - 1
                }
            },
            None => 0,
        };
        self.selected = Some(i);
    }

    /// Moves the selection: j and Down select the next key, k and Up the previous
    /// one; other keys change nothing.
    pub fn handle_input(&mut self, key_code: KeyCode)
        requires
            moves_down(key_code) && old(self).selected is Some ==> old(self).items@.len() > 0,
        ensures
            final(self).items@ == old(self).items@,
            final(self).focused == old(self).focused,
            final(self).selected == (match key_code {
                KeyCode::Char('j') | KeyCode::Down => selection_after_next(
                    old(self).selected,
                    old(self).items@.len(),
                ),
                KeyCode::Char('k') | KeyCode::Up => selection_after_previous(
                    old(self).selected,
                    old(self).items@.len(),
                ),
                _ => old(self).selected,
            }),
    {
        match key_code {
            KeyCode::Char('j') | KeyCode::Down => self.next(),
            KeyCode::Char('k') | KeyCode::Up => self.previous(),
            _ => {},
        }
    }

    /// The selected key, when the selection points at one.
    pub fn get_selected_key(&self) -> (r: Option<&KeyInfo>)
        ensures
            r == (match self.selected {
                Some(i) => if i < self.items@.len() {
                    Some(&self.items@[i as int])
                } else {
                    None
                },
                None => None,
            }),
    {
        match self.selected {
            Some(i) => {
                if i < self.items.len() {
                    Some(&self.items[i])
                } else {
                    None
                }
            },
            None => None,
        }
    }

    /// The panel title: marked with an arrow when focused.
    pub fn title(&self) -> (r: &'static str)
        ensures
            r@ == (if self.focused { "Redis Keys ◄"@ } else { "Redis Keys"@ }),
    {
        if self.focused {
            "Redis Keys ◄"
        } else {
            "Redis Keys"
        }
    }

    /// The rows of the keys table: the 1-based row number, the name cut to 27 bytes
    /// and "..." when longer than 30 bytes, the type badge, the TTL, the memory, and
    /// the row's style.
    pub fn rows(&self) -> (r: Vec<KeyRow>)
        requires
            names_cuttable(self.items@),
        ensures
            r@.len() == self.items@.len(),
            forall|i: int|
                0 <= i < r@.len() ==> row_shows(
                    #[trigger] r@[i],
                    self.items@[i],
                    i as nat,
                    self.selected == Some(i as usize),
                    self.focused,
                ),
    {
        let mut rows: Vec<KeyRow> = Vec::new();
        let mut idx: usize = 0;
        while idx < self.items.len()
            invariant
                idx <= self.items@.len(),
                names_cuttable(self.items@),
                rows@.len() == idx,
                forall|i: int|
                    0 <= i < idx ==> row_shows(
                        #[trigger] rows@[i],
                        self.items@[i],
                        i as nat,
                        self.selected == Some(i as usize),
                        self.focused,
                    ),
            decreases self.items@.len() - idx,
        {
            let key = &self.items[idx];
            let is_selected = match self.selected {
                Some(s) => s == idx,
                None => false,
            };
            let style = if self.focused && is_selected {
                RowStyle::Highlighted
            } else if is_selected {
                RowStyle::Selected
            } else if self.focused {
                RowStyle::Plain
            } else {
                RowStyle::Dimmed
            };
            let mut number: Vec<char> = Vec::new();
            push_decimal(&mut number, idx as u128 + 1);
            assert(byte_len(self.items@[idx as int].name@) > 30 ==> is_boundary(
                self.items@[idx as int].name@,
                27,
            ));
            let row = KeyRow {
                number: string_from(&number),
                name: shorten(key.name.as_str(), 30, 27),
                badge: String::from_str(get_type_badge(key.key_type.as_str())),
                ttl: format_ttl(key.ttl),
                memory: format_bytes(key.memory_bytes),
                style,
            };
            rows.push(row);
            idx = idx + 1;
        }
        rows
    }
}

impl Default for KeysListView {
    fn default() -> (r: Self)
        ensures
            r.selected is None,
            r.items@.len() == 0,
            !r.focused,
    {
        Self::new()
    }
}

/// Moving the selection down then up, or up then down, returns to the item selected
/// before; moving keeps a selection that points at an item pointing at one; and an
/// update with at least one item leaves any selection pointing at an item.
pub proof fn lemma_selection_moves(i: usize, n: nat, sel: Option<usize>, m: nat)
    requires
        i < n,
        n <= usize::MAX,
    ensures
        selection_after_previous(selection_after_next(Some(i), n), n) == Some(i),
        selection_after_next(selection_after_previous(Some(i), n), n) == Some(i),
        selection_in_range(selection_after_next(sel, n), n),
        selection_in_range(sel, n) ==> selection_in_range(selection_after_previous(sel, n), n),
        m > 0 ==> selection_in_range(selection_after_update(sel, m), m),
{
}

} // verus!
