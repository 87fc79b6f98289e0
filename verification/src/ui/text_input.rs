//! A single-focus text editor: a character buffer with a cursor, every
//! editing operation specified exactly, and a key interpreter that turns
//! one key event into at most one message for the surrounding application.

use vstd::prelude::*;
use vstd::string::StrSliceExecFns;
use crate::events::Key;

verus! {

/// The messages the editor emits towards whoever opened it. It never
/// consumes its own output: `Accept` carries the buffer as it stands, and
/// the caller decides what accepting means.
#[derive(Debug, Clone)]
pub enum TextInputMsg {
    Close,
    Accept(String),
    Change(String),
}

/// Spec-level image of an emitted message: the text payload as a character
/// sequence, or `NoMsg` where no message was emitted.
pub enum MsgView {
    NoMsg,
    CloseMsg,
    AcceptMsg(Seq<char>),
    ChangeMsg(Seq<char>),
}

/// The spec-level image of `r`, an optional emitted message.
pub open spec fn msg_view(r: Option<TextInputMsg>) -> MsgView {
    match r {
        None => MsgView::NoMsg,
        Some(TextInputMsg::Close) => MsgView::CloseMsg,
        Some(TextInputMsg::Accept(s)) => MsgView::AcceptMsg(s@),
        Some(TextInputMsg::Change(s)) => MsgView::ChangeMsg(s@),
    }
}

/// Word boundaries for delete-word: whitespace plus a fixed punctuation set.
pub open spec fn is_word_separator(c: char) -> bool {
    c == ' ' || c == '\t' || c == '\n' || c == '\r' || c == '-' || c == '_' || c == '+' || c == '='
        || c == ',' || c == '.' || c == '/' || c == '\\' || c == ':' || c == ';' || c == '!'
        || c == '?' || c == '@' || c == '#' || c == '$' || c == '%' || c == '^' || c == '&'
        || c == '*' || c == '(' || c == ')' || c == '[' || c == ']' || c == '{' || c == '}'
}

/// Whether `c` ends the run that delete-word removes.
pub fn word_separator(c: char) -> (b: bool)
    ensures
        b == is_word_separator(c),
{
    c == ' ' || c == '\t' || c == '\n' || c == '\r' || c == '-' || c == '_' || c == '+' || c == '='
        || c == ',' || c == '.' || c == '/' || c == '\\' || c == ':' || c == ';' || c == '!'
        || c == '?' || c == '@' || c == '#' || c == '$' || c == '%' || c == '^' || c == '&'
        || c == '*' || c == '(' || c == ')' || c == '[' || c == ']' || c == '{' || c == '}'
}

/// Where the maximal run of non-separator characters that ends at `cur`
/// begins: delete-word removes `text[word_start(text, cur) .. cur]` and
/// stops there, leaving every separator in place.
pub open spec fn word_start(text: Seq<char>, cur: int) -> int
    decreases cur,
{
    if 0 < cur <= text.len() && !is_word_separator(text[cur - 1]) {
        word_start(text, cur - 1)
    } else {
        cur
    }
}

/// What one key does to the editor: the buffer and cursor after the key,
/// and the message emitted for it.
pub struct EditStep {
    pub text: Seq<char>,
    pub cursor: int,
    pub msg: MsgView,
}

/// The editor's whole key interpretation, as one function of the buffer
/// `text`, the cursor `cur` and the key. Unrecognized keys change nothing
/// and emit nothing.
pub open spec fn text_input_step(text: Seq<char>, cur: int, key: Key) -> EditStep {
    match key {
        Key::Esc => EditStep { text, cursor: cur, msg: MsgView::CloseMsg },
        Key::Enter => EditStep { text, cursor: cur, msg: MsgView::AcceptMsg(text) },
        Key::Backspace => delete_before_step(text, cur),
        Key::Delete => delete_next_step(text, cur),
        Key::Left => EditStep { text, cursor: if cur > 0 { cur - 1 } else { 0 }, msg: MsgView::NoMsg },
        Key::Right => EditStep {
            text,
            cursor: if cur < text.len() { cur + 1 } else { text.len() as int },
            msg: MsgView::NoMsg,
        },
        Key::Home => EditStep { text, cursor: 0, msg: MsgView::NoMsg },
        Key::End => EditStep { text, cursor: text.len() as int, msg: MsgView::NoMsg },
        Key::Char(c) => EditStep {
            text: text.insert(cur, c),
            cursor: cur + 1,
            msg: MsgView::ChangeMsg(text.insert(cur, c)),
        },
        Key::Ctrl(c) => ctrl_step(text, cur, c),
        Key::Up | Key::Down | Key::Other => EditStep { text, cursor: cur, msg: MsgView::NoMsg },
    }
}

/// The control-chord part of the key interpretation.
pub open spec fn ctrl_step(text: Seq<char>, cur: int, c: char) -> EditStep {
    if c == 'c' {
        EditStep { text, cursor: cur, msg: MsgView::CloseMsg }
    } else if c == 'h' {
        delete_before_step(text, cur)
    } else if c == 'd' {
        delete_next_step(text, cur)
    } else if c == 'b' {
        EditStep { text, cursor: if cur > 0 { cur - 1 } else { 0 }, msg: MsgView::NoMsg }
    } else if c == 'f' {
        EditStep {
            text,
            cursor: if cur < text.len() { cur + 1 } else { text.len() as int },
            msg: MsgView::NoMsg,
        }
    } else if c == 'a' {
        EditStep { text, cursor: 0, msg: MsgView::NoMsg }
    } else if c == 'e' {
        EditStep { text, cursor: text.len() as int, msg: MsgView::NoMsg }
    } else if c == 'u' {
        EditStep {
            text: text.subrange(cur, text.len() as int),
            cursor: 0,
            msg: MsgView::ChangeMsg(text.subrange(cur, text.len() as int)),
        }
    } else if c == 'k' {
        EditStep {
            text: text.subrange(0, cur),
            cursor: cur,
            msg: MsgView::ChangeMsg(text.subrange(0, cur)),
        }
    } else if c == 'w' {
        let k = word_start(text, cur);
        let t = text.subrange(0, k) + text.subrange(cur, text.len() as int);
        EditStep { text: t, cursor: k, msg: MsgView::ChangeMsg(t) }
    } else {
        EditStep { text, cursor: cur, msg: MsgView::NoMsg }
    }
}

/// Removing the character just before the cursor, if there is one; a
/// `Change` message is emitted either way.
pub open spec fn delete_before_step(text: Seq<char>, cur: int) -> EditStep {
    if cur > 0 {
        EditStep {
            text: text.remove(cur - 1),
            cursor: cur - 1,
            msg: MsgView::ChangeMsg(text.remove(cur - 1)),
        }
    } else {
        EditStep { text, cursor: cur, msg: MsgView::ChangeMsg(text) }
    }
}

/// Removing the character at the cursor, if there is one; a `Change`
/// message is emitted either way.
pub open spec fn delete_next_step(text: Seq<char>, cur: int) -> EditStep {
    if cur < text.len() {
        EditStep { text: text.remove(cur), cursor: cur, msg: MsgView::ChangeMsg(text.remove(cur)) }
    } else {
        EditStep { text, cursor: cur, msg: MsgView::ChangeMsg(text) }
    }
}

/// Relies on String::push: appends the one character `c` at the end of `s`.
#[verifier::external_body]
fn push_char(s: &mut String, c: char)
    ensures
        final(s)@ == old(s)@.push(c),
{
    s.push(c);
}

/// The modal text editor: a character buffer and a cursor that is always a
/// valid insertion point. Every mutating operation re-establishes that.
#[derive(Debug, Clone)]
pub struct TextInputState {
    buffer: Vec<char>,
    cursor: usize,
}

impl TextInputState {
    /// The buffer's characters.
    pub closed spec fn text(&self) -> Seq<char> {
        self.buffer@
    }

    /// The cursor's offset: the number of characters before it.
    pub closed spec fn cursor_at(&self) -> int {
        self.cursor as int
    }

    /// The cursor is never negative and never points past the buffer.
    pub open spec fn wf(&self) -> bool {
        0 <= self.cursor_at() <= self.text().len()
    }

    /// An editor pre-seeded with `s`, cursor at the end of the seeded text.
    pub fn from_str(s: &str) -> (r: Self)
        ensures
            r.text() == s@,
            r.cursor_at() == s@.len(),
            r.wf(),
    {
        let n = s.unicode_len();
        let mut buffer: Vec<char> = Vec::new();
        let mut i: usize = 0;
        while i < n
            invariant
                i <= n,
                n == s@.len(),
                buffer@ == s@.subrange(0, i as int),
            decreases n - i,
        {
            buffer.push(s.get_char(i));
            assert(buffer@ =~= s@.subrange(0, i as int + 1));
            i += 1;
        }
        assert(buffer@ =~= s@);
        let cursor = buffer.len();
        Self { buffer, cursor }
    }

    /// The buffer's current value as a string.
    pub fn value(&self) -> (r: String)
        ensures
            r@ == self.text(),
    {
        let mut r = String::new();
        let mut i: usize = 0;
        while i < self.buffer.len()
            invariant
                i <= self.buffer@.len(),
                r@ == self.buffer@.subrange(0, i as int),
            decreases self.buffer@.len() - i,
        {
            push_char(&mut r, self.buffer[i]);
            assert(r@ =~= self.buffer@.subrange(0, i as int + 1));
            i += 1;
        }
        assert(r@ =~= self.buffer@);
        r
    }

    /// The cursor's offset.
    pub fn cursor(&self) -> (c: usize)
        ensures
            c == self.cursor_at(),
    {
        self.cursor
    }

    /// Inserts `c` at the cursor and advances the cursor past it.
    pub fn insert_char(&mut self, c: char)
        requires
            old(self).wf(),
        ensures
            final(self).text() == old(self).text().insert(old(self).cursor_at(), c),
            final(self).cursor_at() == old(self).cursor_at() + 1,
            final(self).wf(),
    {
        self.buffer.insert(self.cursor, c);
        // The grown length bounds the cursor, so the increment cannot overflow.
        let grown: usize = self.buffer.len();
        assert(self.cursor < grown);
        self.cursor = self.cursor + 1;
    }

    /// Removes the character immediately before the cursor, if any; the
    /// cursor moves back onto the removed position.
    pub fn delete_before_cursor(&mut self)
        requires
            old(self).wf(),
        ensures
            final(self).text() == delete_before_step(old(self).text(), old(self).cursor_at()).text,
            final(self).cursor_at() == delete_before_step(
                old(self).text(),
                old(self).cursor_at(),
            ).cursor,
            final(self).wf(),
    {
        if self.cursor > 0 {
            self.buffer.remove(self.cursor - 1);
            self.cursor = self.cursor - 1;
        }
    }

    /// Removes the character at the cursor, if any; the cursor stays.
    pub fn delete_next_char(&mut self)
        requires
            old(self).wf(),
        ensures
            final(self).text() == delete_next_step(old(self).text(), old(self).cursor_at()).text,
            final(self).cursor_at() == old(self).cursor_at(),
            final(self).wf(),
    {
        if self.cursor < self.buffer.len() {
            self.buffer.remove(self.cursor);
        }
    }

    /// Removes the maximal run of non-separator characters just before the
    /// cursor. Separators are never consumed: deletion stops at the first
    /// separator boundary, and at a separator it removes nothing.
    pub fn delete_word_before_cursor(&mut self)
        requires
            old(self).wf(),
        ensures
            final(self).text() == old(self).text().subrange(
                0,
                word_start(old(self).text(), old(self).cursor_at()),
            ) + old(self).text().subrange(old(self).cursor_at(), old(self).text().len() as int),
            final(self).cursor_at() == word_start(old(self).text(), old(self).cursor_at()),
            final(self).wf(),
    {
        let ghost text0 = self.buffer@;
        let ghost cur0 = self.cursor as int;
        let mut j: usize = self.cursor;
        while j > 0 && !word_separator(self.buffer[j - 1])
            invariant
                j <= cur0 <= text0.len(),
                self.buffer@ == text0,
                self.cursor == cur0,
                word_start(text0, cur0) == word_start(text0, j as int),
            decreases j,
        {
            j = j - 1;
        }
        assert(word_start(text0, j as int) == j as int);
        while self.cursor > j
            invariant
                j <= self.cursor <= cur0 <= text0.len(),
                self.buffer@ =~= text0.subrange(0, self.cursor as int) + text0.subrange(
                    cur0,
                    text0.len() as int,
                ),
            decreases self.cursor,
        {
            self.buffer.remove(self.cursor - 1);
            self.cursor = self.cursor - 1;
            assert(self.buffer@ =~= text0.subrange(0, self.cursor as int) + text0.subrange(
                cur0,
                text0.len() as int,
            ));
        }
        assert(self.buffer@ =~= text0.subrange(0, word_start(text0, cur0)) + text0.subrange(
            cur0,
            text0.len() as int,
        ));
    }

    /// Removes everything before the cursor; the cursor lands at the start.
    pub fn delete_to_start(&mut self)
        requires
            old(self).wf(),
        ensures
            final(self).text() == old(self).text().subrange(
                old(self).cursor_at(),
                old(self).text().len() as int,
            ),
            final(self).cursor_at() == 0,
            final(self).wf(),
    {
        let ghost text0 = self.buffer@;
        let ghost cur0 = self.cursor as int;
        while self.cursor > 0
            invariant
                self.cursor <= cur0 <= text0.len(),
                self.buffer@ =~= text0.subrange(0, self.cursor as int) + text0.subrange(
                    cur0,
                    text0.len() as int,
                ),
            decreases self.cursor,
        {
            self.buffer.remove(self.cursor - 1);
            self.cursor = self.cursor - 1;
            assert(self.buffer@ =~= text0.subrange(0, self.cursor as int) + text0.subrange(
                cur0,
                text0.len() as int,
            ));
        }
        assert(self.buffer@ =~= text0.subrange(cur0, text0.len() as int));
    }

    /// Removes everything from the cursor to the end; the cursor stays.
    pub fn delete_till_end(&mut self)
        requires
            old(self).wf(),
        ensures
            final(self).text() == old(self).text().subrange(0, old(self).cursor_at()),
            final(self).cursor_at() == old(self).cursor_at(),
            final(self).wf(),
    {
        self.buffer.truncate(self.cursor);
    }

    /// Moves the cursor one character left, clamped at the start.
    pub fn move_left(&mut self)
        requires
            old(self).wf(),
        ensures
            final(self).text() == old(self).text(),
            final(self).cursor_at() == if old(self).cursor_at() > 0 {
                old(self).cursor_at() - 1
            } else {
                0
            },
            final(self).wf(),
    {
        if self.cursor > 0 {
            self.cursor = self.cursor - 1;
        }
    }

    /// Moves the cursor one character right, clamped at the end.
    pub fn move_right(&mut self)
        requires
            old(self).wf(),
        ensures
            final(self).text() == old(self).text(),
            final(self).cursor_at() == if old(self).cursor_at() < old(self).text().len() {
                old(self).cursor_at() + 1
            } else {
                old(self).text().len() as int
            },
            final(self).wf(),
    {
        if self.cursor < self.buffer.len() {
            self.cursor = self.cursor + 1;
        }
    }

    /// Jumps the cursor to the start of the buffer.
    pub fn move_to_start(&mut self)
        requires
            old(self).wf(),
        ensures
            final(self).text() == old(self).text(),
            final(self).cursor_at() == 0,
            final(self).wf(),
    {
        self.cursor = 0;
    }

    /// Jumps the cursor to the end of the buffer.
    pub fn move_to_end(&mut self)
        requires
            old(self).wf(),
        ensures
            final(self).text() == old(self).text(),
            final(self).cursor_at() == old(self).text().len(),
            final(self).wf(),
    {
        self.cursor = self.buffer.len();
    }

    /// Interprets one key: mutates the buffer and cursor as
    /// `text_input_step` says and returns the message it names. Every
    /// unrecognized key leaves the editor unchanged and emits nothing.
    pub fn handle_input(&mut self, key: Key) -> (r: Option<TextInputMsg>)
        requires
            old(self).wf(),
        ensures
            final(self).wf(),
            final(self).text() == text_input_step(old(self).text(), old(self).cursor_at(), key).text,
            final(self).cursor_at() == text_input_step(
                old(self).text(),
                old(self).cursor_at(),
                key,
            ).cursor,
            msg_view(r) == text_input_step(old(self).text(), old(self).cursor_at(), key).msg,
    {
        match key {
            Key::Esc => Some(TextInputMsg::Close),
            Key::Enter => Some(TextInputMsg::Accept(self.value())),
            Key::Backspace => {
                self.delete_before_cursor();
                Some(TextInputMsg::Change(self.value()))
            },
            Key::Delete => {
                self.delete_next_char();
                Some(TextInputMsg::Change(self.value()))
            },
            Key::Left => {
                self.move_left();
                None
            },
            Key::Right => {
                self.move_right();
                None
            },
            Key::Home => {
                self.move_to_start();
                None
            },
            Key::End => {
                self.move_to_end();
                None
            },
            Key::Char(c) => {
                self.insert_char(c);
                Some(TextInputMsg::Change(self.value()))
            },
            Key::Ctrl(c) => self.handle_control(c),
            Key::Up | Key::Down | Key::Other => None,
        }
    }

    /// Interprets a control chord, as `ctrl_step` says.
    fn handle_control(&mut self, c: char) -> (r: Option<TextInputMsg>)
        requires
            old(self).wf(),
        ensures
            final(self).wf(),
            final(self).text() == ctrl_step(old(self).text(), old(self).cursor_at(), c).text,
            final(self).cursor_at() == ctrl_step(old(self).text(), old(self).cursor_at(), c).cursor,
            msg_view(r) == ctrl_step(old(self).text(), old(self).cursor_at(), c).msg,
    {
        if c == 'c' {
            Some(TextInputMsg::Close)
        } else if c == 'h' {
            self.delete_before_cursor();
            Some(TextInputMsg::Change(self.value()))
        } else if c == 'd' {
            self.delete_next_char();
            Some(TextInputMsg::Change(self.value()))
        } else if c == 'b' {
            self.move_left();
            None
        } else if c == 'f' {
            self.move_right();
            None
        } else if c == 'a' {
            self.move_to_start();
            None
        } else if c == 'e' {
            self.move_to_end();
            None
        } else if c == 'u' {
            self.delete_to_start();
            Some(TextInputMsg::Change(self.value()))
        } else if c == 'k' {
            self.delete_till_end();
            Some(TextInputMsg::Change(self.value()))
        } else if c == 'w' {
            self.delete_word_before_cursor();
            Some(TextInputMsg::Change(self.value()))
        } else {
            None
        }
    }
}

impl Default for TextInputState {
    /// An empty editor with the cursor at the start.
    fn default() -> (r: Self)
        ensures
            r.text() == Seq::<char>::empty(),
            r.cursor_at() == 0,
            r.wf(),
    {
        TextInputState { buffer: Vec::new(), cursor: 0 }
    }
}

/// The overlay box a modal editor is drawn in; it carries only the title.
#[derive(Debug, Clone)]
pub struct TextInput {
    pub title: Option<String>,
}

impl TextInput {
    /// The same box with its title set to `title`.
    pub fn titled(self, title: &str) -> (r: Self)
        ensures
            r.title matches Some(t) && t@ == title@,
    {
        let mut this = self;
        this.title = Some(title.to_owned());
        this
    }
}

impl Default for TextInput {
    /// A box with no title.
    fn default() -> (r: Self)
        ensures
            r.title is None,
    {
        TextInput { title: None }
    }
}

} // verus!
