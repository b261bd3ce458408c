//! The sink that collects what went wrong without stopping the work.

use vstd::prelude::*;
use crate::error::{Error, ErrorView};
use crate::span::SourceId;
use crate::unit_builder::{LinkerError, LinkerErrorView};

verus! {

/// What a diagnostic reports, as a mathematical value.
pub enum DiagnosticKindView {
    Error(ErrorView),
    Internal(Seq<char>),
    Link(LinkerErrorView),
}

/// What a diagnostic reports.
#[derive(Debug, PartialEq, Eq)]
pub enum DiagnosticKind {
    /// An operation on a source failed.
    Error(Error),
    /// The bookkeeping of the compiler itself is inconsistent.
    Internal(&'static str),
    /// The unit could not be linked.
    Link(LinkerError),
}

impl View for DiagnosticKind {
    type V = DiagnosticKindView;

    open spec fn view(&self) -> DiagnosticKindView {
        match self {
            DiagnosticKind::Error(e) => DiagnosticKindView::Error(e@),
            DiagnosticKind::Internal(m) => DiagnosticKindView::Internal(m@),
            DiagnosticKind::Link(e) => DiagnosticKindView::Link(e@),
        }
    }
}

/// What a diagnostic holds.
pub struct DiagnosticView {
    pub source_id: SourceId,
    pub kind: DiagnosticKindView,
}

/// One record of the sink: a source and what was found there.
#[derive(Debug, PartialEq, Eq)]
pub struct Diagnostic {
    /// The source that the record is about.
    pub source_id: SourceId,
    /// What was found.
    pub kind: DiagnosticKind,
}

impl View for Diagnostic {
    type V = DiagnosticView;

    open spec fn view(&self) -> DiagnosticView {
        DiagnosticView { source_id: self.source_id, kind: self.kind@ }
    }
}

/// An append-only list of diagnostics.
#[derive(Debug, PartialEq, Eq)]
pub struct Diagnostics {
    /// The records in the order they were made.
    pub diagnostics: Vec<Diagnostic>,
}

impl View for Diagnostics {
    type V = Seq<DiagnosticView>;

    open spec fn view(&self) -> Seq<DiagnosticView> {
        self.diagnostics@.map_values(|d: Diagnostic| d@)
    }
}

impl Diagnostics {
    /// An empty sink.
    pub fn new() -> (sink: Diagnostics)
        ensures
            sink@ == Seq::<DiagnosticView>::empty(),
    {
        let sink = Diagnostics { diagnostics: Vec::new() };
        assert(sink@ =~= Seq::<DiagnosticView>::empty());
        sink
    }

    /// Appends a record.
    pub fn push(&mut self, source_id: SourceId, kind: DiagnosticKind)
        ensures
            final(self)@ == old(self)@.push(DiagnosticView { source_id, kind: kind@ }),
    {
        self.diagnostics.push(Diagnostic { source_id, kind });
        assert(self@ =~= old(self)@.push(DiagnosticView { source_id, kind: kind@ }));
    }

    /// Records that an operation on a source failed.
    pub fn error(&mut self, source_id: SourceId, error: Error)
        ensures
            final(self)@ == old(self)@.push(
                DiagnosticView { source_id, kind: DiagnosticKindView::Error(error@) },
            ),
    {
        self.push(source_id, DiagnosticKind::Error(error));
    }

    /// Records an inconsistency of the compiler's own bookkeeping.
    pub fn internal(&mut self, source_id: SourceId, message: &'static str)
        ensures
            final(self)@ == old(self)@.push(
                DiagnosticView { source_id, kind: DiagnosticKindView::Internal(message@) },
            ),
    {
        self.push(source_id, DiagnosticKind::Internal(message));
    }

    /// Records that the unit could not be linked.
    pub fn link_error(&mut self, source_id: SourceId, error: LinkerError)
        ensures
            final(self)@ == old(self)@.push(
                DiagnosticView { source_id, kind: DiagnosticKindView::Link(error@) },
            ),
    {
        self.push(source_id, DiagnosticKind::Link(error));
    }

    /// The number of records.
    pub fn len(&self) -> (n: usize)
        ensures
            n == self@.len(),
    {
        self.diagnostics.len()
    }

    /// Whether nothing was recorded.
    pub fn is_empty(&self) -> (b: bool)
        ensures
            b == (self@.len() == 0),
    {
        self.diagnostics.len() == 0
    }

    /// The record with the given number.
    pub fn get(&self, index: usize) -> (r: Option<&Diagnostic>)
        ensures
            index < self@.len() <==> r is Some,
            r matches Some(d) ==> d@ == self@[index as int],
    {
        if index < self.diagnostics.len() {
            Some(&self.diagnostics[index])
        } else {
            None
        }
    }
}

} // verus!
