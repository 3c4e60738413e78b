//! Character ranges in the source text.
use vstd::prelude::*;

verus! {

/// Half-open range `[start, stop)` of character positions in the source text.
#[derive(Debug, Clone, Copy, PartialEq, Eq, Hash, Structural)]
pub struct Span {
    pub start: usize,
    pub stop: usize,
}

impl Span {
    /// Creates a span from its two bounds.
    pub fn new(start: usize, stop: usize) -> (r: Span)
        ensures
            r.start == start,
            r.stop == stop,
    {
        Span { start, stop }
    }
}

/// A sequence of spans is ordered by `start` (ties allowed).
pub open spec fn spans_sorted_by_start(s: Seq<Span>) -> bool {
    forall|i: int, j: int| 0 <= i <= j < s.len() ==> s[i].start <= s[j].start
}

} // verus!
