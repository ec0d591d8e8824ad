//! Byte ranges in the source text.

use vstd::prelude::*;

verus! {

/// A range of the source text, from `start` (inclusive) to `end`
/// (exclusive), in bytes.
#[derive(Clone, Copy, Debug, PartialEq, Eq, Structural)]
pub struct Span {
    pub start: u32,
    pub end: u32,
}

impl Span {
    /// A span from `start` to `end`; `start` must not lie after `end`.
    pub fn new(start: u32, end: u32) -> (r: Span)
        requires
            start <= end,
        ensures
            r.start == start,
            r.end == end,
    {
        Span { start, end }
    }

    /// The span with its start moved right and its end moved left by
    /// `offset`, each saturating at the bounds of `u32`.
    pub open spec fn spec_shrink(self, offset: u32) -> Span {
        Span {
            start: if self.start + offset > u32::MAX { u32::MAX } else { (self.start + offset) as u32 },
            end: if self.end - offset < 0 { 0 } else { (self.end - offset) as u32 },
        }
    }

    /// Shrinking by `offset` does not move the start past the end.
    pub open spec fn can_shrink(self, offset: u32) -> bool {
        self.spec_shrink(offset).start <= self.spec_shrink(offset).end
    }

    /// The span shrunk by `offset` on both sides. Shrinking the start past
    /// the end is a logical error, left out here.
    pub fn shrink(self, offset: u32) -> (r: Span)
        requires
            self.can_shrink(offset),
        ensures
            r == self.spec_shrink(offset),
    {
        let start = self.start.saturating_add(offset);
        let end = self.end.saturating_sub(offset);
        Span::new(start, end)
    }
}

} // verus!
