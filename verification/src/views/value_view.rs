use vstd::prelude::*;
use crate::keyboard::KeyCode;
use crate::text::{
    chars_of, decimal, lines_of, lines_of_str, push_chars, push_decimal, string_from,
    text_lines,
};

verus! {

/// The value panel: the lines of the selected key's value, the line the cursor is
/// on, and whether the panel has the focus.
pub struct ValueView {
    pub lines: Vec<String>,
    pub cursor_line: usize,
    pub focused: bool,
}

/// The cursor is on a line of the value, or at 0 when there is none.
pub open spec fn value_cursor_ok(n: nat, cursor: nat) -> bool {
    if n == 0 {
        cursor == 0
    } else {
        cursor < n
    }
}

/// The cursor after `key` in a value of `n` lines: j and Down move it down while a
/// line follows, k and Up move it up while a line precedes.
pub open spec fn cursor_after_key(n: nat, cursor: nat, key: KeyCode) -> nat {
    match key {
        KeyCode::Char('j') | KeyCode::Down => if n > 0 && cursor < n - 1 {
            cursor + 1
        } else {
            cursor
        },
        KeyCode::Char('k') | KeyCode::Up => if cursor > 0 {
            (cursor - 1) as nat
        } else {
            cursor
        },
        _ => cursor,
    }
}

/// What the value panel's body shows.
pub enum ValueBody {
    /// The panel has no room at all and is not drawn.
    Hidden,
    /// A single message in place of the lines.
    Message(String),
    /// The visible lines, marked and possibly followed by a position indicator.
    Lines(Vec<String>),
}

/// The first line shown in a window of `height` lines, so that the cursor stays
/// visible.
pub open spec fn first_visible(total: nat, cursor: nat, height: nat) -> nat {
    if total > height {
        if cursor < total - height {
            cursor
        } else {
            (total - height) as nat
        }
    } else {
        0
    }
}

/// How line `idx` is shown: an arrow before the cursor's line while focused, two
/// spaces before any other.
pub open spec fn marked_line(line: Seq<char>, idx: nat, cursor: nat, focused: bool) -> Seq<char> {
    if idx == cursor && focused {
        "▶ "@ + line
    } else {
        "  "@ + line
    }
}

/// The lines shown for a value of `lines` with the cursor at `cursor` (already
/// clamped) in a window of `height` lines, then, when not all lines fit, an empty
/// line and the position "[cursor/total]".
pub open spec fn visible_lines(lines: Seq<Seq<char>>, cursor: nat, focused: bool, height: nat) -> Seq<
    Seq<char>,
> {
    let total = lines.len();
    let start = first_visible(total, cursor, height);
    let end = if start + height < total {
        start + height
    } else {
        total
    };
    let shown = Seq::new(
        (end - start) as nat,
        |j: int| marked_line(lines[start + j], (start + j) as nat, cursor, focused),
    );
    if total > height {
        shown + seq![
            Seq::<char>::empty(),
            seq!['['] + decimal(cursor + 1) + seq!['/'] + decimal(total) + seq![']'],
        ]
    } else {
        shown
    }
}

/// The body of the value panel for a panel `area_height` rows tall, borders
/// included.
pub open spec fn value_body(
    lines: Seq<Seq<char>>,
    cursor_line: nat,
    focused: bool,
    area_height: nat,
) -> Option<Result<Seq<char>, Seq<Seq<char>>>> {
    if area_height == 0 {
        None
    } else if lines.len() == 0 {
        Some(Ok("No value"@))
    } else if area_height <= 2 {
        Some(Ok("..."@))
    } else {
        let cursor = if cursor_line < lines.len() - 1 {
            cursor_line
        } else {
            (lines.len() - 1) as nat
        };
        Some(Err(visible_lines(lines, cursor, focused, (area_height - 2) as nat)))
    }
}

/// The spec form of a `ValueBody`.
pub open spec fn body_view(b: ValueBody) -> Option<Result<Seq<char>, Seq<Seq<char>>>> {
    match b {
        ValueBody::Hidden => None,
        ValueBody::Message(m) => Some(Ok(m@)),
        ValueBody::Lines(v) => Some(Err(text_lines(v@))),
    }
}

impl ValueView {
    pub fn new() -> (r: Self)
        ensures
            r.lines@.len() == 0,
            r.cursor_line == 0,
            !r.focused,
    {
        ValueView { lines: Vec::new(), cursor_line: 0, focused: false }
    }

    pub fn set_focus(&mut self, focused: bool)
        ensures
            final(self).focused == focused,
            final(self).lines@ == old(self).lines@,
            final(self).cursor_line == old(self).cursor_line,
    {
        self.focused = focused;
    }

    /// Shows `content`, split into lines as `str::lines` splits it, with the cursor on
    /// the first line.
    pub fn set_content(&mut self, content: String)
        ensures
            text_lines(final(self).lines@) == lines_of(content@),
            final(self).cursor_line == 0,
            final(self).focused == old(self).focused,
    {
        self.lines = lines_of_str(content.as_str());
        self.cursor_line = 0;
    }

    /// Shows nothing.
    pub fn clear(&mut self)
        ensures
            final(self).lines@.len() == 0,
            final(self).cursor_line == 0,
            final(self).focused == old(self).focused,
    {
        self.lines = Vec::new();
        self.cursor_line = 0;
    }

    /// Moves the cursor down (j, Down) or up (k, Up) within the lines.
    pub fn handle_input(&mut self, key_code: KeyCode)
        ensures
            final(self).cursor_line == cursor_after_key(
                old(self).lines@.len(),
                old(self).cursor_line as nat,
                key_code,
            ),
            final(self).lines@ == old(self).lines@,
            final(self).focused == old(self).focused,
            value_cursor_ok(old(self).lines@.len(), old(self).cursor_line as nat) ==> value_cursor_ok(
                final(self).lines@.len(),
                final(self).cursor_line as nat,
            ),
    {
        match key_code {
            KeyCode::Char('j') | KeyCode::Down => {
                let n = self.lines.len();
                let last = if n > 0 {
                    n - 1
                } else {
                    0
                };
                if self.cursor_line < last {
                    self.cursor_line = self.cursor_line + 1;
                }
            },
            KeyCode::Char('k') | KeyCode::Up => {
                if self.cursor_line > 0 {
                    self.cursor_line = self.cursor_line - 1;
                }
            },
            _ => {},
        }
    }

    /// The panel title: marked with an arrow when focused.
    pub fn title(&self) -> (r: &'static str)
        ensures
            r@ == (if self.focused { "Value ◄"@ } else { "Value"@ }),
    {
        if self.focused {
            "Value ◄"
        } else {
            "Value"
        }
    }

    /// What the panel body shows in an area `area_height` rows tall: nothing when
    /// there is no room, "No value" without lines, "..." without room for a line,
    /// and otherwise the window of lines that keeps the cursor (clamped to the last
    /// line) in view.
    pub fn body(&self, area_height: u16) -> (r: ValueBody)
        ensures
            body_view(r) == value_body(
                text_lines(self.lines@),
                self.cursor_line as nat,
                self.focused,
                area_height as nat,
            ),
    {
        if area_height == 0 {
            return ValueBody::Hidden;
        }
        let total = self.lines.len();
        if total == 0 {
            return ValueBody::Message(String::from_str("No value"));
        }
        if area_height <= 2 {
            return ValueBody::Message(String::from_str("..."));
        }
        let cursor = if self.cursor_line < total - 1 {
            self.cursor_line
        } else {
            total - 1
        };
        let height: usize = (area_height - 2) as usize;
        let start = if total > height {
            if cursor < total - height {
                cursor
            } else {
                total - height
            }
        } else {
            0
        };
        let end = if total - start > height {
            start + height
        } else {
            total
        };
        let ghost lines = text_lines(self.lines@);
        let ghost want = visible_lines(lines, cursor as nat, self.focused, height as nat);
        let mut out: Vec<String> = Vec::new();
        let mut idx = start;
        while idx < end
            invariant
                start <= idx <= end <= total,
                total == self.lines@.len(),
                lines == text_lines(self.lines@),
                start == first_visible(total as nat, cursor as nat, height as nat),
                end as int == (if start + height < total { (start + height) as int } else { total as int }),
                out@.len() == idx - start,
                forall|j: int| 0 <= j < idx - start ==> #[trigger] out@[j]@ == marked_line(
                    lines[start + j],
                    (start + j) as nat,
                    cursor as nat,
                    self.focused,
                ),
            decreases end - idx,
        {
            let mut cs: Vec<char> = if idx == cursor && self.focused {
                chars_of("▶ ")
            } else {
                chars_of("  ")
            };
            let line = chars_of(self.lines[idx].as_str());
            push_chars(&mut cs, &line);
            out.push(string_from(&cs));
            idx = idx + 1;
        }
        let ghost shown = Seq::new(
            (end - start) as nat,
            |j: int| marked_line(lines[start + j], (start + j) as nat, cursor as nat, self.focused),
        );
        assert(text_lines(out@) =~= shown);
        if total > height {
            out.push(String::new());
            let mut pos: Vec<char> = Vec::new();
            pos.push('[');
            push_decimal(&mut pos, cursor as u128 + 1);
            pos.push('/');
            push_decimal(&mut pos, total as u128);
            pos.push(']');
            assert(pos@ =~= seq!['['] + decimal((cursor + 1) as nat) + seq!['/'] + decimal(
                total as nat,
            ) + seq![']']);
            out.push(string_from(&pos));
            assert(text_lines(out@) =~= shown + seq![
                Seq::<char>::empty(),
                seq!['['] + decimal((cursor + 1) as nat) + seq!['/'] + decimal(total as nat) + seq![
                    ']',
                ],
            ]);
        }
        assert(text_lines(out@) =~= want);
        ValueBody::Lines(out)
    }
}

impl Default for ValueView {
    fn default() -> (r: Self)
        ensures
            r.lines@.len() == 0,
            r.cursor_line == 0,
            !r.focused,
    {
        Self::new()
    }
}

/// The window of a value: for a value that has lines, in a panel with room for
/// `area_height - 2` of them, the panel shows as many lines as fit (all of them, or
/// a full window), one after the other from some first line `s`; the (clamped)
/// cursor line is among them, marked while focused, and the window starts at the
/// cursor line unless that would run it past the last line, in which case it ends
/// at the last line; below a
/// window that does not hold every line come an empty line and "[cursor/total]".
pub proof fn lemma_value_window(
    lines: Seq<Seq<char>>,
    cursor_line: nat,
    focused: bool,
    area_height: nat,
)
    requires
        lines.len() > 0,
        area_height > 2,
    ensures
        ({
            let total = lines.len();
            let h = (area_height - 2) as nat;
            let c = if cursor_line < total - 1 { cursor_line } else { (total - 1) as nat };
            let w = if h < total { h } else { total };
            let s = first_visible(total, c, h);
            &&& s <= c < s + w
            &&& s + w <= total
            &&& (s == c || s + w == total)
            &&& value_body(lines, cursor_line, focused, area_height) matches Some(Err(v)) && {
                &&& v.len() == w + (if total > h { 2int } else { 0int })
                &&& forall|j: int|
                    0 <= j < w ==> #[trigger] v[j] == (if s + j == c && focused {
                        "▶ "@
                    } else {
                        "  "@
                    }) + lines[s + j]
                &&& total > h ==> v[w as int] == Seq::<char>::empty() && v[(w + 1) as int] == seq!['[']
                    + decimal(c + 1) + seq!['/'] + decimal(total) + seq![']']
            }
        }),
{
}

/// Moving the cursor down and then up, or up and then down, brings it back, unless
/// it was already on the last, respectively the first, line.
pub proof fn lemma_value_cursor_moves_undo(n: nat, cursor: nat)
    requires
        value_cursor_ok(n, cursor),
    ensures
        cursor + 1 < n ==> cursor_after_key(n, cursor_after_key(n, cursor, KeyCode::Down), KeyCode::Up)
            == cursor,
        cursor > 0 ==> cursor_after_key(n, cursor_after_key(n, cursor, KeyCode::Up), KeyCode::Down)
            == cursor,
{
}

} // verus!
