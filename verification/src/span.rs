//! Places in source text.

use vstd::prelude::*;

verus! {

/// A range of bytes in one source.
#[derive(Clone, Copy, Debug, PartialEq, Eq, Structural, Hash)]
pub struct Span {
    /// Offset of the first byte.
    pub start: u32,
    /// Offset after the last byte.
    pub end: u32,
}

impl Span {
    /// The span from `start` to `end`.
    pub fn new(start: u32, end: u32) -> (span: Span)
        ensures
            span == (Span { start, end }),
    {
        Span { start, end }
    }

    /// The span that covers nothing.
    pub fn empty() -> (span: Span)
        ensures
            span == (Span { start: 0, end: 0 }),
    {
        Span { start: 0, end: 0 }
    }
}

/// The number of a source.
#[derive(Clone, Copy, Debug, PartialEq, Eq, Structural, Hash)]
pub struct SourceId(pub usize);

impl SourceId {
    /// The source with the given number.
    pub fn new(index: usize) -> (id: SourceId)
        ensures
            id == SourceId(index),
    {
        SourceId(index)
    }

    /// The identifier that names no source.
    pub fn empty() -> (id: SourceId)
        ensures
            id == SourceId(usize::MAX),
    {
        SourceId(usize::MAX)
    }

    /// The number of the source.
    pub fn into_index(self) -> (index: usize)
        ensures
            index == self.0,
    {
        self.0
    }
}

/// A span in a given source.
#[derive(Clone, Copy, Debug, PartialEq, Eq, Structural, Hash)]
pub struct Location {
    /// The source.
    pub source_id: SourceId,
    /// The span in it.
    pub span: Span,
}

impl Location {
    /// The location of `span` in `source_id`.
    pub fn new(source_id: SourceId, span: Span) -> (location: Location)
        ensures
            location == (Location { source_id, span }),
    {
        Location { source_id, span }
    }
}

} // verus!
