//! Application state: the actions the input layer produces and the
//! scroll/focus state machine that consumes them.

pub mod line_buffer;

use vstd::prelude::*;
use vstd::string::StrSliceExecFns;
use crate::state::line_buffer::{LogBuffer, window_spec};
use crate::ui::focusable_input::{MessageMap, MessageTranslator};
use crate::ui::text_input::TextInputState;

verus! {

/// The closed set of intents the input layer can produce. Actions are the
/// only channel through which key events reach the application state.
#[derive(Debug, Clone)]
pub enum AppAction {
    ScrollUp(u16),
    ScrollDown(u16),
    ScrollToLine(u16),
    AttachToBottom,
    ToggleLineNumbers,
    OpenSearch,
    CloseSearch,
    AcceptSearch(String),
    OpenGoToLine,
    CloseGoToLine,
    AcceptGoToLine(String),
    Quit,
}

/// Spec-level image of an action: string payloads as character sequences,
/// so contracts can pin an emitted action down to its content.
pub enum ActionView {
    ScrollUp(u16),
    ScrollDown(u16),
    ScrollToLine(u16),
    AttachToBottom,
    ToggleLineNumbers,
    OpenSearch,
    CloseSearch,
    AcceptSearch(Seq<char>),
    OpenGoToLine,
    CloseGoToLine,
    AcceptGoToLine(Seq<char>),
    Quit,
}

/// The spec-level image of one action.
pub open spec fn action_view(a: AppAction) -> ActionView {
    match a {
        AppAction::ScrollUp(n) => ActionView::ScrollUp(n),
        AppAction::ScrollDown(n) => ActionView::ScrollDown(n),
        AppAction::ScrollToLine(n) => ActionView::ScrollToLine(n),
        AppAction::AttachToBottom => ActionView::AttachToBottom,
        AppAction::ToggleLineNumbers => ActionView::ToggleLineNumbers,
        AppAction::OpenSearch => ActionView::OpenSearch,
        AppAction::CloseSearch => ActionView::CloseSearch,
        AppAction::AcceptSearch(s) => ActionView::AcceptSearch(s@),
        AppAction::OpenGoToLine => ActionView::OpenGoToLine,
        AppAction::CloseGoToLine => ActionView::CloseGoToLine,
        AppAction::AcceptGoToLine(s) => ActionView::AcceptGoToLine(s@),
        AppAction::Quit => ActionView::Quit,
    }
}

/// The spec-level image of an optional action.
pub open spec fn opt_action_view(r: Option<AppAction>) -> Option<ActionView> {
    match r {
        None => None,
        Some(a) => Some(action_view(a)),
    }
}

/// The at-most-one focused modal input. A tagged variant rather than a
/// dynamically dispatched slot, so mutual exclusion is structural.
pub enum Focus {
    NoFocus,
    SearchFocus(MessageTranslator),
    GoToLineFocus(MessageTranslator),
}

/// Whether `c` is a decimal digit.
pub open spec fn is_digit_char(c: char) -> bool {
    48 <= c as u32 <= 57
}

/// Whether every character of `s` is a decimal digit.
pub open spec fn all_digits(s: Seq<char>) -> bool {
    forall|i: int| 0 <= i < s.len() ==> is_digit_char(#[trigger] s[i])
}

/// The number the digit string `s` denotes in decimal.
pub open spec fn digits_value(s: Seq<char>) -> int
    decreases s.len(),
{
    if s.len() == 0 {
        0
    } else {
        digits_value(s.drop_last()) * 10 + (s.last() as u32 - 48)
    }
}

/// What parsing `s` as a `u16` yields: an optional leading `+`, then at
/// least one digit, and a value that fits; anything else is rejected.
pub open spec fn parse_u16_spec(s: Seq<char>) -> Option<u16> {
    let d = if s.len() > 0 && s[0] == '+' {
        s.subrange(1, s.len() as int)
    } else {
        s
    };
    if d.len() > 0 && all_digits(d) && digits_value(d) <= 0xffff {
        Some(digits_value(d) as u16)
    } else {
        None
    }
}

/// `x` capped at a bound safely above every `u16`, so the running value of
/// a parse can be tracked without overflowing.
pub open spec fn capped(x: int) -> int {
    if x > 100000 {
        100000
    } else {
        x
    }
}

/// Parses `s` as an unsigned 16-bit line number, exactly as
/// `parse_u16_spec` says: `None` on an empty digit string, a non-digit, or
/// a value that does not fit.
pub fn parse_u16(s: &str) -> (r: Option<u16>)
    ensures
        r == parse_u16_spec(s@),
{
    let n = s.unicode_len();
    let offset: usize = if n > 0 && s.get_char(0) == '+' {
        1
    } else {
        0
    };
    let ghost d = if offset == 1 {
        s@.subrange(1, n as int)
    } else {
        s@
    };
    if offset >= n {
        return None;
    }
    let mut acc: u32 = 0;
    let mut i: usize = offset;
    while i < n
        invariant
            offset <= i <= n,
            offset <= 1,
            offset < n,
            n == s@.len(),
            (offset == 1) <==> (s@.len() > 0 && s@[0] == '+'),
            d == if offset == 1 {
                s@.subrange(1, n as int)
            } else {
                s@
            },
            all_digits(d.subrange(0, i - offset)),
            acc == capped(digits_value(d.subrange(0, i - offset))),
        decreases n - i,
    {
        let c = s.get_char(i);
        let v = c as u32;
        if v < 48 || v > 57 {
            proof {
                assert(d.len() == n - offset);
                assert(0 <= i - offset < d.len());
                assert(!is_digit_char(d[i - offset]));
                assert(!all_digits(d));
                assert(parse_u16_spec(s@) is None);
            }
            return None;
        }
        proof {
            assert(d.subrange(0, i + 1 - offset).drop_last() =~= d.subrange(0, i - offset));
            assert(d.subrange(0, i + 1 - offset).last() == d[i - offset]);
        }
        acc = acc * 10 + (v - 48);
        if acc > 100000 {
            acc = 100000;
        }
        i += 1;
    }
    assert(d.subrange(0, n - offset) =~= d);
    if acc > 0xffff {
        None
    } else {
        Some(acc as u16)
    }
}

/// The stored line count of `s`.
pub open spec fn stored_len(s: AppState) -> int {
    s.lines.lines@.len() as int
}

/// The stored line count clipped to what a `u16` line index can address.
pub open spec fn len16(stored: int) -> u16 {
    if stored > 0xffff {
        0xffff
    } else if stored < 0 {
        0
    } else {
        stored as u16
    }
}

/// The largest index the viewport may start at: one line before the end,
/// and never below one.
pub open spec fn top_line_limit(stored: int) -> u16 {
    let l = len16(stored);
    if l >= 2 {
        (l - 1) as u16
    } else {
        1
    }
}

/// `n` clamped into the valid range `[1, top_line_limit]` of viewport
/// start indices.
pub open spec fn clamp_line(n: u16, stored: int) -> u16 {
    let lim = top_line_limit(stored);
    if n == 0 {
        1
    } else if n > lim {
        lim
    } else {
        n
    }
}

/// Where attaching to the bottom puts the viewport start: far enough back
/// that the last `height` lines are visible, clamped into the valid range.
pub open spec fn attach_top(stored: int, height: u16) -> u16 {
    let raw = len16(stored) - height;
    let lim = top_line_limit(stored) as int;
    if raw < 1 {
        1
    } else if raw > lim {
        lim as u16
    } else {
        raw as u16
    }
}

/// The text a fresh search modal is seeded with: the previously accepted
/// search, or nothing.
pub open spec fn search_seed_view(s: Option<String>) -> Seq<char> {
    match s {
        Some(q) => q@,
        None => Seq::<char>::empty(),
    }
}

/// Scrolling up by `amount`: detaches from the bottom and moves the
/// viewport start up, stopping at line one.
pub open spec fn scroll_up_spec(s: AppState, amount: u16) -> AppState {
    AppState {
        attached_to_bottom: false,
        line_num: if amount >= s.line_num {
            1
        } else {
            (s.line_num - amount) as u16
        },
        ..s
    }
}

/// Scrolling down by `amount`: detaches from the bottom and moves the
/// viewport start down, stopping one line before the end.
pub open spec fn scroll_down_spec(s: AppState, amount: u16) -> AppState {
    AppState {
        attached_to_bottom: false,
        line_num: if s.line_num + amount > top_line_limit(stored_len(s)) {
            top_line_limit(stored_len(s))
        } else {
            (s.line_num + amount) as u16
        },
        ..s
    }
}

/// Jumping to line `n`, clamped into the valid range. The tail-attach flag
/// is left as it is.
pub open spec fn set_line_spec(s: AppState, n: u16) -> AppState {
    AppState { line_num: clamp_line(n, stored_len(s)), ..s }
}

/// Attaching to the bottom: sets the flag and recomputes the viewport
/// start so the last lines are visible.
pub open spec fn attach_to_bottom_spec(s: AppState) -> AppState {
    AppState {
        attached_to_bottom: true,
        line_num: attach_top(stored_len(s), s.last_frame_height),
        ..s
    }
}

/// Closing whatever modal is focused.
pub open spec fn close_modal_spec(s: AppState) -> AppState {
    AppState { focused_input: Focus::NoFocus, ..s }
}

/// Accepting a search: the text is stored and the modal closes.
pub open spec fn accept_search_spec(s: AppState, q: String) -> AppState {
    AppState { search: Some(q), focused_input: Focus::NoFocus, ..s }
}

/// Accepting a go-to-line entry: on a parsable number the viewport jumps
/// there and the modal closes; otherwise nothing changes and the modal
/// stays open.
pub open spec fn accept_go_to_line_spec(s: AppState, t: String) -> AppState {
    match parse_u16_spec(t@) {
        Some(n) => AppState {
            line_num: clamp_line(n, stored_len(s)),
            focused_input: Focus::NoFocus,
            ..s
        },
        None => s,
    }
}

/// What opening the search modal leaves behind: a search-tagged editor
/// seeded with the active search, cursor at its end; all else unchanged.
pub open spec fn opened_search(pre: AppState, post: AppState) -> bool {
    &&& (post.focused_input matches Focus::SearchFocus(t) && t.mapper == MessageMap::Search
        && t.input_handler.text() == search_seed_view(pre.search)
        && t.input_handler.cursor_at() == search_seed_view(pre.search).len())
    &&& post.lines == pre.lines
    &&& post.line_num == pre.line_num
    &&& post.attached_to_bottom == pre.attached_to_bottom
    &&& post.search == pre.search
    &&& post.show_line_numbers == pre.show_line_numbers
    &&& post.last_frame_height == pre.last_frame_height
    &&& post.quit == pre.quit
}

/// What opening the go-to-line modal leaves behind: a fresh, empty,
/// go-to-line-tagged editor; all else unchanged.
pub open spec fn opened_go_to_line(pre: AppState, post: AppState) -> bool {
    &&& (post.focused_input matches Focus::GoToLineFocus(t) && t.mapper == MessageMap::GoToLine
        && t.input_handler.text() == Seq::<char>::empty() && t.input_handler.cursor_at() == 0)
    &&& post.lines == pre.lines
    &&& post.line_num == pre.line_num
    &&& post.attached_to_bottom == pre.attached_to_bottom
    &&& post.search == pre.search
    &&& post.show_line_numbers == pre.show_line_numbers
    &&& post.last_frame_height == pre.last_frame_height
    &&& post.quit == pre.quit
}

/// The whole view/scroll state: the line store, the viewport position, the
/// tail-attach flag, presentation flags, the retained search text, and the
/// at-most-one focused modal.
pub struct AppState {
    pub lines: LogBuffer,
    pub line_num: u16,
    pub attached_to_bottom: bool,
    pub search: Option<String>,
    pub show_line_numbers: bool,
    pub focused_input: Focus,
    pub last_frame_height: u16,
    pub quit: bool,
}

impl AppState {
    /// The state's invariant: the viewport start stays in
    /// `[1, top_line_limit]`, and a focused editor is well formed and
    /// tagged with the mapping its modal kind calls for.
    pub open spec fn wf(&self) -> bool {
        &&& 1 <= self.line_num <= top_line_limit(stored_len(*self))
        &&& match self.focused_input {
            Focus::NoFocus => true,
            Focus::SearchFocus(t) => t.wf() && t.mapper == MessageMap::Search,
            Focus::GoToLineFocus(t) => t.wf() && t.mapper == MessageMap::GoToLine,
        }
    }

    /// The starting state: an empty store, viewport at line one, detached,
    /// line numbers shown, no search, no focused modal.
    pub fn new() -> (r: Self)
        ensures
            r.lines.lines@.len() == 0,
            r.line_num == 1,
            r.attached_to_bottom == false,
            r.search is None,
            r.show_line_numbers == true,
            r.focused_input is NoFocus,
            r.last_frame_height == 0,
            r.quit == false,
            r.wf(),
    {
        Self {
            lines: LogBuffer::new(),
            line_num: 1,
            attached_to_bottom: false,
            search: None,
            show_line_numbers: true,
            focused_input: Focus::NoFocus,
            last_frame_height: 0,
            quit: false,
        }
    }

    /// The stored line count clipped to `u16`.
    fn stored_len16(&self) -> (l: u16)
        ensures
            l == len16(stored_len(*self)),
    {
        let n = self.lines.len();
        if n > 0xffff {
            0xffff
        } else {
            n as u16
        }
    }

    /// The largest valid viewport start index.
    fn top_limit(&self) -> (lim: u16)
        ensures
            lim == top_line_limit(stored_len(*self)),
    {
        let l = self.stored_len16();
        if l >= 2 {
            l - 1
        } else {
            1
        }
    }

    /// Appends one line to the store. While attached to the bottom, the
    /// viewport start is recomputed for the grown store, so the tail stays
    /// visible as lines arrive; detached, the viewport does not move.
    pub fn add_line(&mut self, line: String)
        ensures
            final(self).lines.lines@ == old(self).lines.lines@.push(line),
            final(self).line_num == if old(self).attached_to_bottom {
                attach_top(stored_len(*old(self)) + 1, old(self).last_frame_height)
            } else {
                old(self).line_num
            },
            final(self).attached_to_bottom == old(self).attached_to_bottom,
            final(self).search == old(self).search,
            final(self).show_line_numbers == old(self).show_line_numbers,
            final(self).focused_input == old(self).focused_input,
            final(self).last_frame_height == old(self).last_frame_height,
            final(self).quit == old(self).quit,
            old(self).wf() ==> final(self).wf(),
    {
        self.lines.add_line(line);
        if self.attached_to_bottom {
            self.attach_to_bottom();
        }
    }

    /// Records the viewport height the presentation reported. While
    /// attached to the bottom, the viewport start is recomputed for the
    /// new height, so the tail stays visible; detached, it does not move.
    pub fn set_frame_height(&mut self, height: u16)
        ensures
            final(self).last_frame_height == height,
            final(self).line_num == if old(self).attached_to_bottom {
                attach_top(stored_len(*old(self)), height)
            } else {
                old(self).line_num
            },
            final(self).lines == old(self).lines,
            final(self).attached_to_bottom == old(self).attached_to_bottom,
            final(self).search == old(self).search,
            final(self).show_line_numbers == old(self).show_line_numbers,
            final(self).focused_input == old(self).focused_input,
            final(self).quit == old(self).quit,
            old(self).wf() ==> final(self).wf(),
    {
        self.last_frame_height = height;
        if self.attached_to_bottom {
            self.attach_to_bottom();
        }
    }

    /// The currently visible window: the lines from the viewport start,
    /// one viewport height's worth.
    pub fn get_lines(&self) -> (r: Vec<String>)
        ensures
            r@ == window_spec(
                self.lines.lines@,
                self.line_num as int,
                self.last_frame_height as int,
            ),
    {
        self.lines.get_lines(self.line_num, self.last_frame_height)
    }

    /// Scrolls up by `amount`, as `scroll_up_spec` says.
    pub fn scroll_up_by(&mut self, amount: u16)
        ensures
            *final(self) == scroll_up_spec(*old(self), amount),
            old(self).wf() ==> final(self).wf(),
    {
        self.attached_to_bottom = false;
        if amount >= self.line_num {
            self.line_num = 1;
        } else {
            self.line_num = self.line_num - amount;
        }
    }

    /// Scrolls down by `amount`, as `scroll_down_spec` says.
    pub fn scroll_down_by(&mut self, amount: u16)
        ensures
            *final(self) == scroll_down_spec(*old(self), amount),
            old(self).wf() ==> final(self).wf(),
    {
        let lim = self.top_limit();
        self.attached_to_bottom = false;
        if (self.line_num as u32) + (amount as u32) > (lim as u32) {
            self.line_num = lim;
        } else {
            self.line_num = self.line_num + amount;
        }
    }

    /// Attaches to the bottom, as `attach_to_bottom_spec` says: with no
    /// intervening line arrivals or height changes, doing it again lands
    /// on the same viewport start.
    pub fn attach_to_bottom(&mut self)
        ensures
            *final(self) == attach_to_bottom_spec(*old(self)),
            old(self).wf() ==> final(self).wf(),
    {
        let l = self.stored_len16();
        let h = self.last_frame_height;
        let raw: u16 = if l > h {
            l - h
        } else {
            0
        };
        let lim = self.top_limit();
        self.attached_to_bottom = true;
        self.line_num = if raw < 1 {
            1
        } else if raw > lim {
            lim
        } else {
            raw
        };
    }

    /// Jumps the viewport start to line `n`, clamped into the valid range,
    /// as `set_line_spec` says.
    pub fn set_line_number(&mut self, n: u16)
        ensures
            *final(self) == set_line_spec(*old(self), n),
            old(self).wf() ==> final(self).wf(),
    {
        let lim = self.top_limit();
        self.line_num = if n == 0 {
            1
        } else if n > lim {
            lim
        } else {
            n
        };
    }

    /// Flips the line-number gutter; purely a presentation flag.
    pub fn toggle_line_numbers(&mut self)
        ensures
            *final(self) == (AppState {
                show_line_numbers: !old(self).show_line_numbers,
                ..*old(self)
            }),
            old(self).wf() ==> final(self).wf(),
    {
        self.show_line_numbers = !self.show_line_numbers;
    }

    /// Opens the search modal, seeded with the retained search text.
    pub fn open_search(&mut self)
        ensures
            opened_search(*old(self), *final(self)),
            old(self).wf() ==> final(self).wf(),
    {
        let editor = match &self.search {
            Some(s) => TextInputState::from_str(s.as_str()),
            None => TextInputState::default(),
        };
        self.focused_input = Focus::SearchFocus(
            MessageTranslator::new(editor, MessageMap::Search),
        );
    }

    /// Closes the search modal; the retained search text stays.
    pub fn close_search(&mut self)
        ensures
            *final(self) == close_modal_spec(*old(self)),
            old(self).wf() ==> final(self).wf(),
    {
        self.focused_input = Focus::NoFocus;
    }

    /// Opens the go-to-line modal with a fresh, empty editor.
    pub fn open_go_to_line(&mut self)
        ensures
            opened_go_to_line(*old(self), *final(self)),
            old(self).wf() ==> final(self).wf(),
    {
        self.focused_input = Focus::GoToLineFocus(
            MessageTranslator::new(TextInputState::default(), MessageMap::GoToLine),
        );
    }

    /// Closes the go-to-line modal.
    pub fn close_go_to_line(&mut self)
        ensures
            *final(self) == close_modal_spec(*old(self)),
            old(self).wf() ==> final(self).wf(),
    {
        self.focused_input = Focus::NoFocus;
    }

    /// Applies one action. Every arithmetic clamp and every modal
    /// transition is pinned by the named spec function for its case.
    pub fn handle_action(&mut self, action: AppAction)
        ensures
            old(self).wf() ==> final(self).wf(),
            action matches AppAction::ScrollUp(n) ==> *final(self) == scroll_up_spec(
                *old(self),
                n,
            ),
            action matches AppAction::ScrollDown(n) ==> *final(self) == scroll_down_spec(
                *old(self),
                n,
            ),
            action matches AppAction::ScrollToLine(n) ==> *final(self) == set_line_spec(
                *old(self),
                n,
            ),
            action is AttachToBottom ==> *final(self) == attach_to_bottom_spec(*old(self)),
            action is ToggleLineNumbers ==> *final(self) == (AppState {
                show_line_numbers: !old(self).show_line_numbers,
                ..*old(self)
            }),
            action is OpenSearch ==> opened_search(*old(self), *final(self)),
            action is CloseSearch ==> *final(self) == close_modal_spec(*old(self)),
            action matches AppAction::AcceptSearch(q) ==> *final(self) == accept_search_spec(
                *old(self),
                q,
            ),
            action is OpenGoToLine ==> opened_go_to_line(*old(self), *final(self)),
            action is CloseGoToLine ==> *final(self) == close_modal_spec(*old(self)),
            action matches AppAction::AcceptGoToLine(t) ==> *final(self)
                == accept_go_to_line_spec(*old(self), t),
            action is Quit ==> *final(self) == (AppState { quit: true, ..*old(self) }),
    {
        match action {
            AppAction::ScrollUp(amount) => self.scroll_up_by(amount),
            AppAction::ScrollDown(amount) => self.scroll_down_by(amount),
            AppAction::ScrollToLine(line_number) => self.set_line_number(line_number),
            AppAction::AttachToBottom => self.attach_to_bottom(),
            AppAction::ToggleLineNumbers => self.toggle_line_numbers(),
            AppAction::OpenSearch => self.open_search(),
            AppAction::CloseSearch => self.close_search(),
            AppAction::OpenGoToLine => self.open_go_to_line(),
            AppAction::CloseGoToLine => self.close_go_to_line(),
            AppAction::Quit => {
                self.quit = true;
            },
            AppAction::AcceptSearch(query) => {
                self.search = Some(query);
                self.close_search();
            },
            AppAction::AcceptGoToLine(line_number) => {
                match parse_u16(line_number.as_str()) {
                    Some(n) => {
                        self.set_line_number(n);
                        self.close_go_to_line();
                    },
                    None => {},
                }
            },
        }
    }
}

/// One scroll step, for stating how sequences of scrolls behave.
pub enum ScrollOp {
    UpBy(u16),
    DownBy(u16),
}

/// The state after one scroll step.
pub open spec fn apply_scroll_op(s: AppState, op: ScrollOp) -> AppState {
    match op {
        ScrollOp::UpBy(n) => scroll_up_spec(s, n),
        ScrollOp::DownBy(n) => scroll_down_spec(s, n),
    }
}

/// The state after a whole sequence of scroll steps, applied in order.
pub open spec fn apply_scroll_ops(s: AppState, ops: Seq<ScrollOp>) -> AppState
    decreases ops.len(),
{
    if ops.len() == 0 {
        s
    } else {
        apply_scroll_ops(apply_scroll_op(s, ops[0]), ops.subrange(1, ops.len() as int))
    }
}

/// Under any sequence of scroll-up and scroll-down steps, the viewport
/// start stays within `[1, top_line_limit]`, and the state stays well
/// formed.
pub proof fn lemma_scrolls_stay_in_bounds(s: AppState, ops: Seq<ScrollOp>)
    requires
        s.wf(),
    ensures
        apply_scroll_ops(s, ops).wf(),
        1 <= apply_scroll_ops(s, ops).line_num <= top_line_limit(
            stored_len(apply_scroll_ops(s, ops)),
        ),
    decreases ops.len(),
{
    if ops.len() > 0 {
        lemma_scrolls_stay_in_bounds(apply_scroll_op(s, ops[0]), ops.subrange(1, ops.len() as int));
    }
}

/// Attaching to the bottom is idempotent: with no line arrivals and no
/// height change in between, attaching again lands on the same state.
pub proof fn lemma_attach_to_bottom_idempotent(s: AppState)
    ensures
        attach_to_bottom_spec(attach_to_bottom_spec(s)) == attach_to_bottom_spec(s),
{
}

} // verus!
