//! A message remapper: wraps the text editor and rewrites the messages it
//! emits into application actions, so one generic editor serves several
//! purposes without knowing any of them.

use vstd::prelude::*;
use crate::events::Key;
use crate::state::{ActionView, AppAction, opt_action_view};
use crate::ui::text_input::{MsgView, TextInputMsg, TextInputState, text_input_step};

verus! {

/// Which application meaning the wrapped editor's messages get. A tagged
/// mapping rather than a stored function, so contracts can name it.
#[derive(Debug, Clone, Copy)]
pub enum MessageMap {
    Search,
    GoToLine,
}

/// What a remapped editor message becomes. A message the mapping sends to
/// `None` is swallowed: the editor's state still advanced, but the outer
/// caller sees no action.
pub open spec fn remap_spec(m: MessageMap, msg: MsgView) -> Option<ActionView> {
    match m {
        MessageMap::Search => match msg {
            MsgView::CloseMsg => Some(ActionView::CloseSearch),
            MsgView::AcceptMsg(t) => Some(ActionView::AcceptSearch(t)),
            MsgView::ChangeMsg(t) => None,
            MsgView::NoMsg => None,
        },
        MessageMap::GoToLine => match msg {
            MsgView::CloseMsg => Some(ActionView::CloseGoToLine),
            MsgView::AcceptMsg(t) => Some(ActionView::AcceptGoToLine(t)),
            MsgView::ChangeMsg(t) => None,
            MsgView::NoMsg => None,
        },
    }
}

/// An input handler that owns an inner text editor and translates every
/// message the editor emits through its `mapper`.
#[derive(Debug, Clone)]
pub struct MessageTranslator {
    pub input_handler: TextInputState,
    pub mapper: MessageMap,
}

impl MessageTranslator {
    /// The wrapped editor keeps its cursor invariant.
    pub open spec fn wf(&self) -> bool {
        self.input_handler.wf()
    }

    /// Wraps `input_handler` so its messages are rewritten by `mapper`.
    pub fn new(input_handler: TextInputState, mapper: MessageMap) -> (r: Self)
        ensures
            r.input_handler == input_handler,
            r.mapper == mapper,
    {
        Self { input_handler, mapper }
    }

    /// Direct access to the wrapped editor, for the renderer.
    pub fn input_handler_mut(&mut self) -> (r: &mut TextInputState)
        ensures
            *r == old(self).input_handler,
            final(self).input_handler == *final(r),
            final(self).mapper == old(self).mapper,
    {
        &mut self.input_handler
    }

    /// Hands `key` to the wrapped editor, then translates the message it
    /// emitted, if any, through the mapping.
    pub fn handle_input(&mut self, key: Key) -> (r: Option<AppAction>)
        requires
            old(self).wf(),
        ensures
            final(self).wf(),
            final(self).mapper == old(self).mapper,
            final(self).input_handler.text() == text_input_step(
                old(self).input_handler.text(),
                old(self).input_handler.cursor_at(),
                key,
            ).text,
            final(self).input_handler.cursor_at() == text_input_step(
                old(self).input_handler.text(),
                old(self).input_handler.cursor_at(),
                key,
            ).cursor,
            opt_action_view(r) == remap_spec(
                old(self).mapper,
                text_input_step(
                    old(self).input_handler.text(),
                    old(self).input_handler.cursor_at(),
                    key,
                ).msg,
            ),
    {
        let msg = self.input_handler.handle_input(key);
        match msg {
            None => None,
            Some(m) => match self.mapper {
                MessageMap::Search => match m {
                    TextInputMsg::Close => Some(AppAction::CloseSearch),
                    TextInputMsg::Accept(s) => Some(AppAction::AcceptSearch(s)),
                    TextInputMsg::Change(_) => None,
                },
                MessageMap::GoToLine => match m {
                    TextInputMsg::Close => Some(AppAction::CloseGoToLine),
                    TextInputMsg::Accept(s) => Some(AppAction::AcceptGoToLine(s)),
                    TextInputMsg::Change(_) => None,
                },
            },
        }
    }
}

} // verus!
