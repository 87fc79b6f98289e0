//! Abstract key events and their interpretation into application actions.

use vstd::prelude::*;
use crate::state::{ActionView, AppAction, AppState, Focus, opt_action_view};
use crate::ui::focusable_input::{MessageTranslator, remap_spec};
use crate::ui::text_input::text_input_step;

verus! {

/// One key event, reduced to what the interpretation logic reads: the
/// terminal backend's richer event type is converted to this at the edge.
/// `Ctrl(c)` is a character key struck together with the control modifier;
/// `Other` is any event the application never reacts to.
#[derive(Clone, Copy, Debug)]
pub enum Key {
    Up,
    Down,
    Left,
    Right,
    Home,
    End,
    Backspace,
    Delete,
    Esc,
    Enter,
    Char(char),
    Ctrl(char),
    Other,
}

/// The general (no modal focused) key map: arrows scroll by one, space by
/// half the viewport, `t` jumps to the top, `b` attaches to the bottom,
/// `N` toggles the gutter, `g` and `/` open the modals, and escape or `q`
/// quits. Every other key produces nothing.
pub open spec fn general_step(height: u16, key: Key) -> Option<ActionView> {
    match key {
        Key::Down => Some(ActionView::ScrollDown(1)),
        Key::Up => Some(ActionView::ScrollUp(1)),
        Key::Esc => Some(ActionView::Quit),
        Key::Char(c) => if c == 'q' {
            Some(ActionView::Quit)
        } else if c == 't' {
            Some(ActionView::ScrollToLine(1))
        } else if c == ' ' {
            Some(ActionView::ScrollDown((height / 2) as u16))
        } else if c == 'b' {
            Some(ActionView::AttachToBottom)
        } else if c == 'N' {
            Some(ActionView::ToggleLineNumbers)
        } else if c == 'g' {
            Some(ActionView::OpenGoToLine)
        } else if c == '/' {
            Some(ActionView::OpenSearch)
        } else {
            None
        },
        _ => None,
    }
}

/// The focused editor of `f`, if a modal is focused.
pub open spec fn focus_translator(f: Focus) -> Option<MessageTranslator> {
    match f {
        Focus::NoFocus => None,
        Focus::SearchFocus(t) => Some(t),
        Focus::GoToLineFocus(t) => Some(t),
    }
}

/// Whether `a` and `b` are the same kind of focus.
pub open spec fn same_focus_kind(a: Focus, b: Focus) -> bool {
    match (a, b) {
        (Focus::NoFocus, Focus::NoFocus) => true,
        (Focus::SearchFocus(_), Focus::SearchFocus(_)) => true,
        (Focus::GoToLineFocus(_), Focus::GoToLineFocus(_)) => true,
        _ => false,
    }
}

/// Interprets `key` under the general key map, reading only the viewport
/// height (for the half-page scroll).
pub fn handle_general_events(state: &AppState, key: Key) -> (r: Option<AppAction>)
    ensures
        opt_action_view(r) == general_step(state.last_frame_height, key),
{
    match key {
        Key::Down => Some(AppAction::ScrollDown(1)),
        Key::Up => Some(AppAction::ScrollUp(1)),
        Key::Esc => Some(AppAction::Quit),
        Key::Char(c) => {
            if c == 'q' {
                Some(AppAction::Quit)
            } else if c == 't' {
                Some(AppAction::ScrollToLine(1))
            } else if c == ' ' {
                Some(AppAction::ScrollDown(state.last_frame_height / 2))
            } else if c == 'b' {
                Some(AppAction::AttachToBottom)
            } else if c == 'N' {
                Some(AppAction::ToggleLineNumbers)
            } else if c == 'g' {
                Some(AppAction::OpenGoToLine)
            } else if c == '/' {
                Some(AppAction::OpenSearch)
            } else {
                None
            }
        },
        _ => None,
    }
}

/// Routes one key event: while a modal is focused every key goes to its
/// editor and only the remapped message comes out; otherwise the general
/// key map decides and the state is untouched. The produced action is not
/// applied here — the caller hands it to `AppState::handle_action`.
pub fn interpret_key(state: &mut AppState, key: Key) -> (r: Option<AppAction>)
    requires
        old(state).wf(),
    ensures
        final(state).wf(),
        final(state).lines == old(state).lines,
        final(state).line_num == old(state).line_num,
        final(state).attached_to_bottom == old(state).attached_to_bottom,
        final(state).search == old(state).search,
        final(state).show_line_numbers == old(state).show_line_numbers,
        final(state).last_frame_height == old(state).last_frame_height,
        final(state).quit == old(state).quit,
        same_focus_kind(old(state).focused_input, final(state).focused_input),
        old(state).focused_input is NoFocus ==> final(state).focused_input == old(
            state,
        ).focused_input && opt_action_view(r) == general_step(old(state).last_frame_height, key),
        focus_translator(old(state).focused_input) matches Some(t) ==> (
        focus_translator(final(state).focused_input) matches Some(t2) && t2.mapper == t.mapper
            && t2.input_handler.text() == text_input_step(
            t.input_handler.text(),
            t.input_handler.cursor_at(),
            key,
        ).text && t2.input_handler.cursor_at() == text_input_step(
            t.input_handler.text(),
            t.input_handler.cursor_at(),
            key,
        ).cursor && opt_action_view(r) == remap_spec(
            t.mapper,
            text_input_step(t.input_handler.text(), t.input_handler.cursor_at(), key).msg,
        )),
{
    let focused = match &state.focused_input {
        Focus::NoFocus => false,
        Focus::SearchFocus(_) => true,
        Focus::GoToLineFocus(_) => true,
    };
    if !focused {
        return handle_general_events(state, key);
    }
    match &mut state.focused_input {
        Focus::NoFocus => None,
        Focus::SearchFocus(tr) => tr.handle_input(key),
        Focus::GoToLineFocus(tr) => tr.handle_input(key),
    }
}

} // verus!
