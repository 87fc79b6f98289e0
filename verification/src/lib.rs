//! A terminal pager for streaming line-oriented text.
//!
//! The library holds the verified core: an append-only line store with
//! windowed retrieval, a cursor-based text editor for the modal overlays,
//! a message remapper that turns editor messages into application actions,
//! and the scroll/focus state machine that interprets those actions.

pub mod events;
pub mod state;
pub mod ui;
