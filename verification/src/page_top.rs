//! `PageTop`: a page position as one value — a buffer line plus the pixel
//! offset into that line's first display row. The offset is 0 for a
//! line-aligned page and non-zero only where a pinned prose page begins
//! mid-paragraph. The two halves always travel together, so the fields are
//! private and the only constructors name whether an offset is present.

use vstd::prelude::*;

verus! {

/// The top of a rendered page: a buffer line plus the pixel offset into that
/// line's first display row.
#[derive(Clone, Copy, PartialEq, Eq, Debug, Structural)]
pub struct PageTop {
    line: usize,
    offset: i32,
}

impl PageTop {
    /// The buffer line of this position.
    pub closed spec fn top_line(self) -> usize {
        self.line
    }

    /// The pixel offset of this position.
    pub closed spec fn top_offset(self) -> i32 {
        self.offset
    }

    /// A page starting at the very top of `line` (offset 0).
    pub fn at_line_start(line: usize) -> (r: Self)
        ensures
            r.top_line() == line,
            r.top_offset() == 0,
    {
        Self { line, offset: 0 }
    }

    /// A page position with a known offset, typically read from a pinned table.
    pub fn new(line: usize, offset: i32) -> (r: Self)
        ensures
            r.top_line() == line,
            r.top_offset() == offset,
    {
        Self { line, offset }
    }

    /// The buffer line this page starts at.
    pub fn line(self) -> (r: usize)
        ensures
            r == self.top_line(),
    {
        self.line
    }

    /// Pixels scrolled past `line`'s pixel top.
    pub fn offset(self) -> (r: i32)
        ensures
            r == self.top_offset(),
    {
        self.offset
    }

    /// True when this position carries no sub-line offset.
    pub fn is_line_aligned(self) -> (r: bool)
        ensures
            r == (self.top_offset() == 0),
    {
        self.offset == 0
    }

    /// Two positions are the same exactly when both halves agree: the same
    /// line with a different offset is a different page.
    pub proof fn equality_uses_both_halves(a: Self, b: Self)
        ensures
            (a == b) <==> (a.top_line() == b.top_line() && a.top_offset() == b.top_offset()),
    {
    }
}

impl Default for PageTop {
    /// The document start: line 0, no offset.
    fn default() -> (r: Self)
        ensures
            r.top_line() == 0,
            r.top_offset() == 0,
    {
        Self { line: 0, offset: 0 }
    }
}

} // verus!
