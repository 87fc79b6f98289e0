//! Append-only store of text lines with windowed retrieval.

use vstd::prelude::*;

verus! {

/// Append-only sequence of text lines; insertion order is display order.
/// Lines are never removed or reordered, so indices are stable.
pub struct LogBuffer {
    pub lines: Vec<String>,
}

/// The window of `lines` that starts at index `start` and holds at most
/// `count` lines, clipped to the stored range on both sides.
pub open spec fn window_spec(lines: Seq<String>, start: int, count: int) -> Seq<String> {
    let lo = if start < lines.len() {
        start
    } else {
        lines.len() as int
    };
    let hi = if start + count < lines.len() {
        start + count
    } else {
        lines.len() as int
    };
    lines.subrange(lo, hi)
}

/// The number of lines a window holds: `count`, or however many lines remain
/// past `start`, whichever is smaller, and never less than zero.
pub open spec fn window_len_spec(stored: int, start: int, count: int) -> int {
    let avail = if stored - start > 0 {
        stored - start
    } else {
        0
    };
    if count < avail {
        count
    } else {
        avail
    }
}

/// The length of a clipped window is `min(count, max(0, stored - start))`:
/// it never exceeds the request and never reaches past the stored lines.
pub proof fn lemma_window_within_bounds(lines: Seq<String>, start: int, count: int)
    requires
        start >= 0,
        count >= 0,
    ensures
        window_spec(lines, start, count).len() == window_len_spec(lines.len() as int, start, count),
        window_spec(lines, start, count).len() <= count,
        window_spec(lines, start, count).len() <= lines.len(),
{
}

impl LogBuffer {
    /// Creates an empty store.
    pub fn new() -> (r: Self)
        ensures
            r.lines@ == Seq::<String>::empty(),
    {
        Self { lines: Vec::new() }
    }

    /// Appends one line at the end; existing lines keep their indices.
    pub fn add_line(&mut self, line: String)
        ensures
            final(self).lines@ == old(self).lines@.push(line),
    {
        self.lines.push(line);
    }

    /// Returns the lines in `[start, start + count)`, clipped to the stored
    /// range: a `start` past the end yields an empty vector, and the window
    /// ends no later than the last stored line.
    pub fn get_lines(&self, start: u16, count: u16) -> (r: Vec<String>)
        ensures
            r@ == window_spec(self.lines@, start as int, count as int),
            r@.len() == window_len_spec(self.lines@.len() as int, start as int, count as int),
    {
        proof {
            lemma_window_within_bounds(self.lines@, start as int, count as int);
        }
        let n = self.lines.len();
        if n == 0 {
            let r: Vec<String> = Vec::new();
            assert(r@ =~= window_spec(self.lines@, start as int, count as int));
            return r;
        }
        let s = start as usize;
        let lo = if s < n {
            s
        } else {
            n
        };
        let c = count as usize;
        let hi = if s + c < n {
            s + c
        } else {
            n
        };
        let mut r: Vec<String> = Vec::new();
        let mut i = lo;
        while i < hi
            invariant
                lo <= i <= hi <= self.lines@.len(),
                r@ == self.lines@.subrange(lo as int, i as int),
            decreases hi - i,
        {
            r.push(self.lines[i].clone());
            assert(r@ =~= self.lines@.subrange(lo as int, i as int + 1));
            i += 1;
        }
        assert(r@ =~= window_spec(self.lines@, start as int, count as int));
        r
    }

    /// The current number of stored lines.
    pub fn len(&self) -> (n: usize)
        ensures
            n == self.lines@.len(),
    {
        self.lines.len()
    }
}

} // verus!
