//! Offsets and ranges in a source text.
//!
//! Offsets count UTF-8 bytes from the start of the text.
use vstd::prelude::*;

verus! {

/// A byte offset into a text.
pub type TextSize = u32;

/// A half-open range `start..end` of byte offsets.
///
/// A range is well formed when `start <= end`; [`TextRange::new`] only builds
/// well formed ranges.
#[derive(Clone, Copy, Debug, PartialEq, Eq, Structural)]
pub struct TextRange {
    pub start: TextSize,
    pub end: TextSize,
}

impl TextRange {
    /// `start <= end`.
    pub open spec fn wf(self) -> bool {
        self.start <= self.end
    }

    /// The number of bytes the range covers.
    pub open spec fn spec_len(self) -> int {
        self.end - self.start
    }

    /// Whether `offset` lies in the range (the end is excluded).
    pub open spec fn spec_contains(self, offset: TextSize) -> bool {
        self.start <= offset && offset < self.end
    }

    /// Whether `other` lies entirely inside this range.
    pub open spec fn spec_contains_range(self, other: TextRange) -> bool {
        self.start <= other.start && other.end <= self.end
    }

    /// Creates the range `start..end`.
    pub fn new(start: TextSize, end: TextSize) -> (r: TextRange)
        requires
            start <= end,
        ensures
            r.start == start,
            r.end == end,
    {
        TextRange { start, end }
    }

    /// The empty range at `offset`.
    pub fn empty(offset: TextSize) -> (r: TextRange)
        ensures
            r.start == offset,
            r.end == offset,
    {
        TextRange { start: offset, end: offset }
    }

    pub fn start(&self) -> (r: TextSize)
        ensures
            r == self.start,
    {
        self.start
    }

    pub fn end(&self) -> (r: TextSize)
        ensures
            r == self.end,
    {
        self.end
    }

    /// The number of bytes the range covers.
    pub fn len(&self) -> (r: TextSize)
        requires
            self.wf(),
        ensures
            r == self.spec_len(),
    {
        self.end - self.start
    }

    pub fn is_empty(&self) -> (r: bool)
        ensures
            r == (self.start == self.end),
    {
        self.start == self.end
    }

    /// Whether `offset` lies in the range; the end is excluded.
    pub fn contains(&self, offset: TextSize) -> (r: bool)
        ensures
            r == self.spec_contains(offset),
    {
        self.start <= offset && offset < self.end
    }

    /// Whether `other` lies entirely inside this range.
    pub fn contains_range(&self, other: TextRange) -> (r: bool)
        ensures
            r == self.spec_contains_range(other),
    {
        self.start <= other.start && other.end <= self.end
    }

    /// The range moved towards the start of the text by `amount` bytes.
    pub fn shifted_back(&self, amount: TextSize) -> (r: TextRange)
        requires
            amount <= self.start,
            self.wf(),
        ensures
            r.start == self.start - amount,
            r.end == self.end - amount,
    {
        TextRange { start: self.start - amount, end: self.end - amount }
    }

    /// The range moved towards the end of the text by `amount` bytes.
    pub fn shifted_forward(&self, amount: TextSize) -> (r: TextRange)
        requires
            self.end + amount <= u32::MAX,
            self.wf(),
        ensures
            r.start == self.start + amount,
            r.end == self.end + amount,
    {
        TextRange { start: self.start + amount, end: self.end + amount }
    }
}

} // verus!
