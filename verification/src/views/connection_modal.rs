use vstd::prelude::*;
use crate::keyboard::KeyCode;
use crate::text::{
    before_byte, byte_len, chars_of, char_index_at_byte, char_index_of_byte, from_byte,
    is_boundary, lemma_byte_len_is_encoded_len, lemma_char_index_at_byte, string_from,
    utf8_width,
};

verus! {

/// The button selected in the connection dialog.
#[derive(Debug, Clone, Copy, PartialEq, Eq, Structural)]
pub enum ModalAction {
    Connect,
    Test,
    Cancel,
}

/// The button after `a` in the order Connect, Test, Cancel, Connect.
pub open spec fn next_action(a: ModalAction) -> ModalAction {
    match a {
        ModalAction::Connect => ModalAction::Test,
        ModalAction::Test => ModalAction::Cancel,
        ModalAction::Cancel => ModalAction::Connect,
    }
}

/// The dialog for editing the Redis URL: the text typed, a cursor counted in bytes
/// of that text, as `String::insert` and `String::remove` take it, and the selected
/// button.
pub struct ConnectionModal {
    pub url_input: String,
    pub cursor_position: usize,
    pub selected_action: ModalAction,
}

/// The dialog as a value: the URL's characters, the cursor and the selected button.
pub struct ModalState {
    pub url: Seq<char>,
    pub cursor: int,
    pub action: ModalAction,
}

impl View for ConnectionModal {
    type V = ModalState;

    open spec fn view(&self) -> ModalState {
        ModalState {
            url: self.url_input@,
            cursor: self.cursor_position as int,
            action: self.selected_action,
        }
    }
}

/// The cursor does not go past the end of the text.
pub open spec fn modal_wf(m: ModalState) -> bool {
    0 <= m.cursor <= byte_len(m.url)
}

/// Whether `key` can be handled in state `m` without `String::insert` or
/// `String::remove` panicking: a character goes in at a character boundary, and
/// Backspace removes the character that starts one byte before the cursor.
pub open spec fn modal_key_ok(m: ModalState, key: KeyCode) -> bool {
    match key {
        KeyCode::Char(_) => is_boundary(m.url, m.cursor),
        KeyCode::Backspace => (m.cursor > 0 && m.url.len() > 0) ==> (m.cursor - 1 < byte_len(m.url)
            && is_boundary(m.url, m.cursor - 1)),
        _ => true,
    }
}

/// The dialog after `key`: a character is inserted at the cursor, which moves past
/// it by one; Backspace deletes the character before the cursor, which moves back
/// by one; Left and Right move the cursor within the text; Tab selects the next
/// button; other keys change nothing.
pub open spec fn modal_step(m: ModalState, key: KeyCode) -> ModalState {
    match key {
        KeyCode::Char(c) => ModalState {
            url: before_byte(m.url, m.cursor) + seq![c] + from_byte(m.url, m.cursor),
            cursor: m.cursor + 1,
            action: m.action,
        },
        KeyCode::Backspace => if m.cursor > 0 && m.url.len() > 0 {
            ModalState {
                url: m.url.remove(char_index_at_byte(m.url, m.cursor - 1).unwrap() as int),
                cursor: m.cursor - 1,
                action: m.action,
            }
        } else {
            m
        },
        KeyCode::Left => if m.cursor > 0 {
            ModalState { cursor: m.cursor - 1, ..m }
        } else {
            m
        },
        KeyCode::Right => if m.cursor < byte_len(m.url) {
            ModalState { cursor: m.cursor + 1, ..m }
        } else {
            m
        },
        KeyCode::Tab => ModalState { action: next_action(m.action), ..m },
        _ => m,
    }
}

proof fn lemma_char_index_concat(a: Seq<char>, b: Seq<char>)
    ensures
        char_index_at_byte(a + b, byte_len(a) as int) == Some(a.len()),
    decreases a.len(),
{
    if a.len() > 0 {
        lemma_char_index_concat(a.drop_first(), b);
        assert((a + b).drop_first() =~= a.drop_first() + b);
        assert(utf8_width(a[0]) >= 1);
    }
}

proof fn lemma_byte_len_concat(a: Seq<char>, b: Seq<char>)
    ensures
        byte_len(a + b) == byte_len(a) + byte_len(b),
    decreases a.len(),
{
    if a.len() > 0 {
        lemma_byte_len_concat(a.drop_first(), b);
        assert((a + b).drop_first() =~= a.drop_first() + b);
    } else {
        assert(a + b =~= b);
    }
}

proof fn lemma_boundary_inside(s: Seq<char>, b: int)
    requires
        is_boundary(s, b),
        b < byte_len(s),
    ensures
        char_index_at_byte(s, b).unwrap() < s.len(),
{
    lemma_char_index_at_byte(s, b);
    let k = char_index_at_byte(s, b).unwrap() as int;
    if k == s.len() {
        assert(s.take(k) =~= s);
    }
}

/// The edit keys undo each other: typing a character and then Backspace restores
/// the text and the cursor; moving left and then right restores the cursor when it
/// was not at the start; three Tabs select the button selected before.
pub proof fn lemma_modal_edits_undo(m: ModalState, c: char)
    requires
        modal_wf(m),
        is_boundary(m.url, m.cursor),
    ensures
        modal_key_ok(modal_step(m, KeyCode::Char(c)), KeyCode::Backspace),
        modal_step(modal_step(m, KeyCode::Char(c)), KeyCode::Backspace) == m,
        m.cursor > 0 ==> modal_step(modal_step(m, KeyCode::Left), KeyCode::Right) == m,
        modal_step(modal_step(modal_step(m, KeyCode::Tab), KeyCode::Tab), KeyCode::Tab) == m,
{
    lemma_char_index_at_byte(m.url, m.cursor);
    let k = char_index_at_byte(m.url, m.cursor).unwrap() as int;
    let pre = m.url.take(k);
    let post = m.url.skip(k);
    let typed = pre + seq![c] + post;
    assert(typed =~= pre + (seq![c] + post));
    lemma_char_index_concat(pre, seq![c] + post);
    lemma_byte_len_concat(pre, seq![c] + post);
    assert((seq![c] + post).drop_first() =~= post);
    assert(typed.remove(k) =~= m.url) by {
        assert(m.url =~= pre + post);
    }
    if m.cursor > 0 {
        lemma_byte_len_is_encoded_len(m.url);
    }
}

/// Every key keeps the cursor within the text.
pub proof fn lemma_modal_step_wf(m: ModalState, key: KeyCode)
    requires
        modal_wf(m),
        modal_key_ok(m, key),
    ensures
        modal_wf(modal_step(m, key)),
{
    match key {
        KeyCode::Char(c) => {
            lemma_char_index_at_byte(m.url, m.cursor);
            let k = char_index_at_byte(m.url, m.cursor).unwrap() as int;
            let pre = m.url.take(k);
            let post = m.url.skip(k);
            lemma_byte_len_concat(pre, seq![c] + post);
            lemma_byte_len_concat(pre, post);
            assert(m.url =~= pre + post);
            assert((seq![c] + post).drop_first() =~= post);
            assert(pre + seq![c] + post =~= pre + (seq![c] + post));
        },
        KeyCode::Backspace => {
            if m.cursor > 0 && m.url.len() > 0 {
                lemma_boundary_inside(m.url, m.cursor - 1);
                lemma_char_index_at_byte(m.url, m.cursor - 1);
                let k = char_index_at_byte(m.url, m.cursor - 1).unwrap() as int;
                let pre = m.url.take(k);
                let post = m.url.skip(k + 1);
                assert(m.url =~= pre + (seq![m.url[k]] + post));
                assert((seq![m.url[k]] + post).drop_first() =~= post);
                lemma_byte_len_concat(pre, seq![m.url[k]] + post);
                lemma_byte_len_concat(pre, post);
                assert(m.url.remove(k) =~= pre + post);
            }
        },
        _ => {},
    }
}

impl ConnectionModal {
    /// A dialog holding `current_url`, with the cursor at its end and Connect
    /// selected.
    pub fn new(current_url: &str) -> (r: Self)
        requires
            byte_len(current_url@) <= usize::MAX,
        ensures
            r@ == (ModalState {
                url: current_url@,
                cursor: byte_len(current_url@) as int,
                action: ModalAction::Connect,
            }),
            modal_wf(r@),
    {
        proof {
            lemma_byte_len_is_encoded_len(current_url@);
        }
        ConnectionModal {
            url_input: String::from_str(current_url),
            cursor_position: current_url.len(),
            selected_action: ModalAction::Connect,
        }
    }

    /// Edits the URL, moves the cursor or cycles the buttons, as `modal_step`
    /// states.
    pub fn handle_input(&mut self, key_code: KeyCode)
        requires
            byte_len(old(self).url_input@) + 4 <= usize::MAX,
            modal_key_ok(old(self)@, key_code),
        ensures
            final(self)@ == modal_step(old(self)@, key_code),
            modal_wf(old(self)@) ==> modal_wf(final(self)@),
    {
        proof {
            if modal_wf(self@) {
                lemma_modal_step_wf(self@, key_code);
            }
            lemma_byte_len_is_encoded_len(self.url_input@);
        }
        match key_code {
            KeyCode::Char(c) => {
                let mut cs = chars_of(self.url_input.as_str());
                let k = char_index_of_byte(&cs, self.cursor_position).unwrap();
                proof {
                    lemma_char_index_at_byte(cs@, self.cursor_position as int);
                }
                let ghost before = cs@;
                cs.insert(k, c);
                assert(cs@ =~= before.take(k as int) + seq![c] + before.skip(k as int));
                self.url_input = string_from(&cs);
                proof {
                    lemma_byte_len_concat(before.take(k as int), before.skip(k as int));
                    assert(before =~= before.take(k as int) + before.skip(k as int));
                }
                self.cursor_position = self.cursor_position + 1;
            },
            KeyCode::Backspace => {
                if self.cursor_position > 0 && !self.url_input.as_str().is_empty() {
                    let mut cs = chars_of(self.url_input.as_str());
                    let k = char_index_of_byte(&cs, self.cursor_position - 1).unwrap();
                    proof {
                        lemma_boundary_inside(cs@, self.cursor_position - 1);
                    }
                    cs.remove(k);
                    self.url_input = string_from(&cs);
                    self.cursor_position = self.cursor_position - 1;
                }
            },
            KeyCode::Left => {
                if self.cursor_position > 0 {
                    self.cursor_position = self.cursor_position - 1;
                }
            },
            KeyCode::Right => {
                if self.cursor_position < self.url_input.as_str().len() {
                    self.cursor_position = self.cursor_position + 1;
                }
            },
            KeyCode::Tab => {
                self.selected_action =
                match self.selected_action {
                    ModalAction::Connect => ModalAction::Test,
                    ModalAction::Test => ModalAction::Cancel,
                    ModalAction::Cancel => ModalAction::Connect,
                };
            },
            _ => {},
        }
    }

    /// The column where the cursor is drawn in an input box starting at column
    /// `input_x` and `input_width` cells wide (borders included): one cell right of
    /// the border plus the cursor offset, when the cursor is within the text and the
    /// cell lies before the right border.
    pub fn cursor_column(&self, input_x: u16, input_width: u16) -> (r: Option<u16>)
        requires
            byte_len(self.url_input@) <= usize::MAX,
            self.cursor_position <= byte_len(self.url_input@) ==> {
                &&& input_x + 1 + (self.cursor_position as u16) <= u16::MAX
                &&& 1 <= input_x + input_width <= u16::MAX
            },
        ensures
            r == (if self.cursor_position <= byte_len(self.url_input@) && input_x + 1
                + (self.cursor_position as u16) < input_x + input_width - 1 {
                Some((input_x + 1 + (self.cursor_position as u16)) as u16)
            } else {
                None
            }),
    {
        proof {
            lemma_byte_len_is_encoded_len(self.url_input@);
        }
        if self.cursor_position <= self.url_input.as_str().len() {
            let cursor_x = input_x + 1 + self.cursor_position as u16;
            if cursor_x < input_x + input_width - 1 {
                return Some(cursor_x);
            }
        }
        None
    }

    /// The URL typed so far.
    pub fn get_url(&self) -> (r: &str)
        ensures
            r@ == self.url_input@,
    {
        self.url_input.as_str()
    }
}

} // verus!
