use vstd::prelude::*;

use crate::text::{byte_offset, byte_offsets, chars_of, string_of};
use crate::tui::layout::Rect;
use crate::tui::input::{UiEvent, UiPress};
use vstd::string::StrSliceExecFns;

verus! {

/// What an [`InputState`] holds: its text, the cursor as a character
/// position in `0..=text.len()`, and the most characters the text may hold.
#[verifier::ext_equal]
pub struct InputStateView {
    pub text: Seq<char>,
    pub cursor: nat,
    pub max_chars: nat,
}

/// The text of a one-line input together with its cursor.
///
/// The cursor is kept as a character position; [`InputState::cursor_byte_index`]
/// gives the matching byte offset into the text.
pub struct InputState {
    s: String,
    /// Character position of the cursor: where to insert and which character
    /// (the one before it) to delete.
    index: usize,
    /// How many characters `s` may hold; [`usize::MAX`] by default.
    max_chars: usize,
    /// Number of characters in `s`, kept up to date on every edit.
    chars_len: usize,
}

impl View for InputState {
    type V = InputStateView;

    closed spec fn view(&self) -> InputStateView {
        InputStateView { text: self.s@, cursor: self.index as nat, max_chars: self.max_chars as nat }
    }
}

/// Text with `ins` put in at character position `at`.
pub open spec fn insert_at(text: Seq<char>, at: nat, ins: Seq<char>) -> Seq<char> {
    text.take(at as int) + ins + text.skip(at as int)
}

/// Room left for new characters: `max_chars - len`, or 0 when full.
pub open spec fn room(v: InputStateView) -> nat {
    if v.text.len() >= v.max_chars { 0 } else { (v.max_chars - v.text.len()) as nat }
}

/// The state after pasting `p`: as many leading characters of `p` as there
/// is room for go in at the cursor, which moves past them.
pub open spec fn pasted(v: InputStateView, p: Seq<char>) -> InputStateView {
    let ins = p.take(if p.len() <= room(v) { p.len() as int } else { room(v) as int });
    InputStateView { text: insert_at(v.text, v.cursor, ins), cursor: v.cursor + ins.len(), ..v }
}

/// The state after deleting the character before the cursor (none at the start).
pub open spec fn deleted(v: InputStateView) -> InputStateView {
    if v.cursor == 0 {
        v
    } else {
        InputStateView {
            text: v.text.take(v.cursor - 1) + v.text.skip(v.cursor as int),
            cursor: (v.cursor - 1) as nat,
            ..v
        }
    }
}

/// The state after typing `c`: it goes in at the cursor unless the text is full.
pub open spec fn inserted(v: InputStateView, c: char) -> InputStateView {
    if v.text.len() >= v.max_chars {
        v
    } else {
        InputStateView { text: insert_at(v.text, v.cursor, seq![c]), cursor: v.cursor + 1, ..v }
    }
}

/// The state after moving the cursor one character back (not past the start).
pub open spec fn moved_back(v: InputStateView) -> InputStateView {
    if v.cursor > 0 { InputStateView { cursor: (v.cursor - 1) as nat, ..v } } else { v }
}

/// The state after moving the cursor one character forward (not past the end).
pub open spec fn moved_forward(v: InputStateView) -> InputStateView {
    if v.cursor < v.text.len() { InputStateView { cursor: v.cursor + 1, ..v } } else { v }
}

/// The state after a UI event: a paste is pasted, Left/Right move the cursor,
/// Back deletes, a character is typed; other presses change nothing.
pub open spec fn after_event(v: InputStateView, e: UiEvent) -> InputStateView {
    match e {
        UiEvent::Paste(s) => pasted(v, s@),
        UiEvent::Press(press) => match press {
            UiPress::Left => moved_back(v),
            UiPress::Right => moved_forward(v),
            UiPress::Back => deleted(v),
            UiPress::Char(c) => inserted(v, c),
            _ => v,
        },
    }
}

/// A view is well formed when its cursor lies within its text.
pub open spec fn view_wf(v: InputStateView) -> bool {
    v.cursor <= v.text.len()
}

impl InputState {
    /// The cursor lies within the text and the cached character count is exact.
    #[verifier::type_invariant]
    spec fn inv(&self) -> bool {
        &&& self.index <= self.s@.len()
        &&& self.chars_len == self.s@.len()
    }

    /// A state holding `s`, with the cursor at the start and no length limit.
    pub fn new(s: String) -> (st: Self)
        ensures
            st@.text == s@,
            st@.cursor == 0,
            st@.max_chars == usize::MAX,
    {
        let chars_len = chars_of(s.as_str()).len();
        InputState { s, chars_len, index: 0, max_chars: usize::MAX }
    }

    /// Takes the text out, leaving the state empty with the cursor at the start.
    pub fn take_buf(&mut self) -> (s: String)
        ensures
            s@ == old(self)@.text,
            final(self)@.text.len() == 0,
            final(self)@.cursor == 0,
            final(self)@.max_chars == old(self)@.max_chars,
    {
        let mut fresh = InputState { s: String::new(), index: 0, max_chars: self.max_chars, chars_len: 0 };
        std::mem::swap(self, &mut fresh);
        let InputState { s, .. } = fresh;
        s
    }

    /// The text.
    pub fn text(&self) -> (s: &str)
        ensures
            s@ == self@.text,
    {
        self.s.as_str()
    }

    /// Byte offset of the cursor into the text.
    pub fn cursor_byte_index(&self) -> (i: usize)
        ensures
            i == vstd::utf8::encode_utf8(self@.text.take(self@.cursor as int)).len(),
    {
        proof {
            use_type_invariant(self);
        }
        self.s.as_str().substring_char(0, self.index).as_bytes().len()
    }

    /// Length of the text in bytes (its UTF-8 encoding, which fits in `usize`).
    pub fn len(&self) -> (n: usize)
        ensures
            n == vstd::utf8::encode_utf8(self@.text).len(),
    {
        self.s.as_str().as_bytes().len()
    }

    /// Whether the text is empty.
    pub fn is_empty(&self) -> (b: bool)
        ensures
            b == (self@.text.len() == 0),
    {
        self.s.as_str().is_empty()
    }

    /// The characters of the text with `ins` put in at the cursor and `del`
    /// characters after it removed.
    fn spliced_at_cursor(&self, del: usize, ins: &[char]) -> (r: Vec<char>)
        requires
            self.index + del <= self.s@.len(),
        ensures
            r@ == self.s@.take(self.index as int) + ins@ + self.s@.skip(self.index + del),
    {
        let chars = chars_of(self.s.as_str());
        let n = chars.len();
        let mut out: Vec<char> = Vec::new();
        for i in 0..self.index
            invariant
                n == chars@.len(),
                self.index <= n,
                out@ == chars@.take(i as int),
        {
            out.push(chars[i]);
            assert(chars@.take(i + 1) == chars@.take(i as int).push(chars@[i as int]));
        }
        let m = ins.len();
        for j in 0..m
            invariant
                m == ins@.len(),
                out@ == chars@.take(self.index as int) + ins@.take(j as int),
        {
            out.push(ins[j]);
            assert(ins@.take(j + 1) == ins@.take(j as int).push(ins@[j as int]));
        }
        assert(ins@.take(m as int) == ins@);
        let start = self.index + del;
        for k in start..n
            invariant
                n == chars@.len(),
                start <= n,
                out@ == chars@.take(self.index as int) + ins@ + chars@.subrange(start as int, k as int),
        {
            out.push(chars[k]);
            assert(chars@.subrange(start as int, k + 1) == chars@.subrange(start as int, k as int).push(chars@[k as int]));
        }
        assert(chars@.subrange(start as int, n as int) == chars@.skip(start as int));
        out
    }

    /// Pastes as many leading characters of `p` as the length limit allows
    /// at the cursor and moves the cursor past them.
    pub fn paste_on_index(&mut self, p: &str)
        ensures
            final(self)@ == pasted(old(self)@, p@),
    {
        proof {
            use_type_invariant(&*self);
        }
        let remaining = self.max_chars.saturating_sub(self.chars_len);
        if remaining == 0 {
            assert(insert_at(self@.text, self@.cursor, p@.take(0)) =~= self@.text);
            assert(pasted(old(self)@, p@) =~= old(self)@);
            return;
        }
        // Don't insert more characters than the limit allows.
        let all = chars_of(p);
        let take = if all.len() <= remaining { all.len() } else { remaining };
        let mut ins: Vec<char> = Vec::new();
        for i in 0..take
            invariant
                take <= all@.len(),
                ins@ == all@.take(i as int),
        {
            ins.push(all[i]);
            assert(all@.take(i + 1) == all@.take(i as int).push(all@[i as int]));
        }
        if ins.len() == 0 {
            assert(insert_at(self@.text, self@.cursor, ins@) =~= self@.text);
            assert(pasted(old(self)@, p@) =~= old(self)@);
            return;
        }
        let chars = self.spliced_at_cursor(0, ins.as_slice());
        *self = InputState {
            chars_len: chars.len(),
            s: string_of(chars.as_slice()),
            index: self.index + take,
            max_chars: self.max_chars,
        };
        assert(self@ =~= pasted(old(self)@, p@));
    }

    /// Deletes the character before the cursor and moves the cursor back;
    /// does nothing at the start of the text.
    pub fn delete_on_index(&mut self)
        ensures
            final(self)@ == deleted(old(self)@),
    {
        proof {
            use_type_invariant(&*self);
        }
        if self.index == 0 {
            return;
        }
        let back = InputState {
            s: self.s.clone(),
            index: self.index - 1,
            max_chars: self.max_chars,
            chars_len: self.chars_len,
        };
        let empty: Vec<char> = Vec::new();
        let chars = back.spliced_at_cursor(1, empty.as_slice());
        *self = InputState {
            chars_len: chars.len(),
            s: string_of(chars.as_slice()),
            index: back.index,
            max_chars: self.max_chars,
        };
        assert(self.s@ =~= old(self).s@.take(old(self).index - 1) + old(self).s@.skip(old(self).index as int));
    }

    /// Types `c` at the cursor and moves the cursor past it; does nothing when
    /// the text already holds `max_chars` characters.
    pub fn insert_on_index(&mut self, c: char)
        ensures
            final(self)@ == inserted(old(self)@, c),
    {
        proof {
            use_type_invariant(&*self);
        }
        if self.chars_len >= self.max_chars {
            return;
        }
        let ins: Vec<char> = vec![c];
        let chars = self.spliced_at_cursor(0, ins.as_slice());
        *self = InputState {
            chars_len: chars.len(),
            s: string_of(chars.as_slice()),
            index: self.index + 1,
            max_chars: self.max_chars,
        };
        assert(self@ =~= inserted(old(self)@, c));
    }

    fn move_back(&mut self)
        ensures
            final(self)@ == moved_back(old(self)@),
    {
        proof {
            use_type_invariant(&*self);
        }
        if self.index > 0 {
            self.index = self.index - 1;
        }
    }

    fn move_forward(&mut self)
        ensures
            final(self)@ == moved_forward(old(self)@),
    {
        proof {
            use_type_invariant(&*self);
        }
        if self.index < self.chars_len {
            self.index = self.index + 1;
        }
    }

    /// Applies a UI event to the text and cursor.
    pub fn handle_event(&mut self, e: UiEvent)
        ensures
            final(self)@ == after_event(old(self)@, e),
    {
        match e {
            UiEvent::Paste(s) => self.paste_on_index(s),
            UiEvent::Press(press) => match press {
                UiPress::Left => self.move_back(),
                UiPress::Right => self.move_forward(),
                UiPress::Back => self.delete_on_index(),
                UiPress::Char(c) => self.insert_on_index(c),
                _ => {},
            },
        }
    }
}

impl Default for InputState {
    fn default() -> (st: Self)
        ensures
            st@.text.len() == 0,
            st@.cursor == 0,
            st@.max_chars == usize::MAX,
    {
        InputState::new(String::new())
    }
}


/// Columns an input line drawn in `area` may use: from its left edge to
/// its (saturating) right edge; none when the area is empty.
pub open spec fn input_columns(area: Rect) -> nat {
    if area.width == 0 || area.height == 0 { 0 } else { (area.spec_right() - area.x) as nat }
}

/// How an input line holding `text` is drawn in `area` with the cursor at
/// byte `cursor` (if shown): how many leading characters fit, and which
/// column is highlighted — the character starting at the cursor, or a blank
/// just after the text when the cursor is at its end and there is room.
pub fn input_layout(text: &str, cursor: Option<usize>, area: Rect) -> (r: (usize, Option<u16>))
    requires
        vstd::utf8::encode_utf8(text@).len() <= usize::MAX,
    ensures
        r.0 == if text@.len() <= input_columns(area) { text@.len() } else { input_columns(area) },
        match cursor {
            None => r.1 is None,
            Some(c) => match r.1 {
                Some(col) => (col < r.0 && byte_offset(text@, col as int) == c) || (col == text@.len()
                    && text@.len() < input_columns(area) && c == byte_offset(text@, text@.len() as int)),
                None => (forall|k: int| 0 <= k < r.0 ==> byte_offset(text@, k) != c) && !(text@.len()
                    < input_columns(area) && c == byte_offset(text@, text@.len() as int)),
            },
        },
{
    let columns: usize = if area.width == 0 || area.height == 0 {
        0
    } else {
        (area.right() - area.x) as usize
    };
    let chars = chars_of(text);
    let n = chars.len();
    let shown = if n <= columns { n } else { columns };
    let c = match cursor {
        None => return (shown, None),
        Some(c) => c,
    };
    let offs = byte_offsets(&chars);
    for k in 0..shown
        invariant
            shown <= n,
            columns == input_columns(area),
            columns <= u16::MAX,
            shown == if n <= columns { n } else { columns },
            cursor == Some(c),
            n == chars@.len(),
            chars@ == text@,
            offs@.len() == n + 1,
            forall|j: int| 0 <= j <= n ==> offs@[j] == byte_offset(text@, j),
            forall|j: int| 0 <= j < k ==> byte_offset(text@, j) != c,
    {
        if offs[k] == c {
            return (shown, Some(k as u16));
        }
    }
    if offs[n] == c && n < columns {
        return (shown, Some(n as u16));
    }
    (shown, None)
}

} // verus!
