//! Spans and source locations, and the containment and size comparisons the
//! resolution scans are built on.

use vstd::prelude::*;

verus! {

/// A contiguous range of positions within one source file.
#[derive(Clone, Copy, PartialEq, Eq, Structural, Debug)]
pub struct Span {
    pub start: u32,
    pub end: u32,
}

impl Span {
    /// A span is well formed when its start does not lie past its end.
    pub open spec fn wf(self) -> bool {
        self.start <= self.end
    }

    /// How many source positions the span covers.
    pub open spec fn spec_size(self) -> int {
        self.end - self.start
    }

    /// Whether `other` lies fully within this span.
    pub open spec fn spec_contains(self, other: Span) -> bool {
        self.start <= other.start && other.end <= self.end
    }

    /// Whether `other` lies fully within this span.
    pub fn contains(&self, other: &Span) -> (r: bool)
        ensures
            r == self.spec_contains(*other),
    {
        self.start <= other.start && other.end <= self.end
    }

    /// The number of source positions the span covers.
    pub fn size(&self) -> (r: u32)
        requires
            self.wf(),
        ensures
            r == self.spec_size(),
    {
        self.end - self.start
    }

    /// Whether this span covers strictly fewer positions than `other`.
    /// Used only for tie-breaking between nested candidates; it is not
    /// equivalent to containment.
    pub fn is_smaller(&self, other: &Span) -> (r: bool)
        requires
            self.wf(),
            other.wf(),
        ensures
            r == (self.spec_size() < other.spec_size()),
    {
        self.size() < other.size()
    }
}

/// A span together with the file it lies in.
#[derive(Clone, Copy, PartialEq, Eq, Structural, Debug)]
pub struct Location {
    pub file: u32,
    pub span: Span,
}

impl Location {
    /// A location is well formed when its span is.
    pub open spec fn wf(self) -> bool {
        self.span.wf()
    }

    /// Whether `other` lies fully within this location: the same file, and a
    /// contained span.
    pub open spec fn spec_contains(self, other: Location) -> bool {
        self.file == other.file && self.span.spec_contains(other.span)
    }

    /// Whether `other` lies fully within this location.
    pub fn contains(&self, other: &Location) -> (r: bool)
        ensures
            r == self.spec_contains(*other),
    {
        self.file == other.file && self.span.contains(&other.span)
    }

    /// Builds the location for `span` inside `file`.
    pub fn new(span: Span, file: u32) -> (r: Location)
        ensures
            r.span == span,
            r.file == file,
    {
        Location { file, span }
    }
}

} // verus!
