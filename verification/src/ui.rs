//! View-layer logic: the modal text-input widget state, the message
//! remapper, and the arithmetic the renderer needs for the gutter.

pub mod focusable_input;
pub mod text_input;

use vstd::prelude::*;

verus! {

/// The number of decimal digits of `n` (one digit for zero).
pub open spec fn digit_count(n: int) -> int
    decreases n,
{
    if n < 10 {
        1
    } else {
        1 + digit_count(n / 10)
    }
}

/// How many columns the largest line number in the gutter needs.
pub fn line_number_width(n: u16) -> (w: u16)
    ensures
        w == digit_count(n as int),
{
    proof {
        reveal_with_fuel(digit_count, 6);
    }
    if n < 10 {
        1
    } else if n < 100 {
        2
    } else if n < 1000 {
        3
    } else if n < 10000 {
        4
    } else {
        5
    }
}

} // verus!
