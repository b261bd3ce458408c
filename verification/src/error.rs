//! Errors that abort one operation of the assembler or of the resolver.

use vstd::prelude::*;
use crate::debug::{DebugSignature, DebugSignatureView};
use crate::hash::texts;
use crate::span::{Location, Span};

verus! {

/// What an error kind holds.
#[allow(inconsistent_fields)]
pub enum ErrorKindView {
    FunctionConflictHash { hash: crate::hash::Hash },
    ConstantConflict { hash: crate::hash::Hash },
    MissingFunctionHash { hash: crate::hash::Hash },
    StaticStringHashConflict { hash: crate::hash::Hash, current: Seq<char>, existing: Seq<char> },
    StaticBytesHashConflict { hash: crate::hash::Hash, current: Seq<u8>, existing: Seq<u8> },
    StaticObjectKeysHashConflict {
        hash: crate::hash::Hash,
        current: Seq<Seq<char>>,
        existing: Seq<Seq<char>>,
    },
    TypeRttiConflict { hash: crate::hash::Hash },
    VariantRttiConflict { hash: crate::hash::Hash },
    FunctionConflict { hash: crate::hash::Hash, existing: DebugSignatureView },
    FunctionReExportConflict { hash: crate::hash::Hash },
    MissingLabelLocation { name: Seq<char>, index: usize },
    DuplicateLabel { name: Seq<char>, index: usize },
    MissingConstant { hash: crate::hash::Hash },
    ParseError,
    ModAlreadyLoaded { name: crate::hash::Hash, existing: Location },
    ItemConflict { name: crate::hash::Hash, existing: Location },
    MissingModule { module: crate::hash::Hash },
    MissingItem { module: crate::hash::Hash, name: crate::hash::Hash },
    UnsupportedGenerics,
}

/// Why an operation failed.
#[derive(Debug, PartialEq, Eq)]
#[non_exhaustive]
#[allow(inconsistent_fields)]
pub enum ErrorKind {
    /// A re-export's own fingerprint is already that of a function.
    FunctionConflictHash { hash: crate::hash::Hash },
    /// A re-export's own fingerprint is already that of a constant.
    ConstantConflict { hash: crate::hash::Hash },
    /// A re-export names a target that is neither a function nor a constant.
    MissingFunctionHash { hash: crate::hash::Hash },
    /// Two different strings have the same fingerprint.
    StaticStringHashConflict { hash: crate::hash::Hash, current: String, existing: String },
    /// Two different byte strings have the same fingerprint.
    StaticBytesHashConflict { hash: crate::hash::Hash, current: Vec<u8>, existing: Vec<u8> },
    /// Two different sets of object keys have the same fingerprint.
    StaticObjectKeysHashConflict {
        hash: crate::hash::Hash,
        current: Vec<String>,
        existing: Vec<String>,
    },
    /// A type descriptor with this fingerprint is already registered.
    TypeRttiConflict { hash: crate::hash::Hash },
    /// A variant descriptor with this fingerprint is already registered.
    VariantRttiConflict { hash: crate::hash::Hash },
    /// A function with this fingerprint is already registered; `existing`
    /// is the signature of the function that is there.
    FunctionConflict { hash: crate::hash::Hash, existing: DebugSignature },
    /// A re-export with this fingerprint is already registered.
    FunctionReExportConflict { hash: crate::hash::Hash },
    /// A jump names a label that was never bound.
    MissingLabelLocation { name: &'static str, index: usize },
    /// A label was bound twice.
    DuplicateLabel { name: &'static str, index: usize },
    /// A constant was declared but never evaluated.
    MissingConstant { hash: crate::hash::Hash },
    /// A source could not be parsed.
    ParseError,
    /// A module was declared twice in one scope.
    ModAlreadyLoaded { name: crate::hash::Hash, existing: Location },
    /// A name was declared twice in one scope.
    ItemConflict { name: crate::hash::Hash, existing: Location },
    /// A path names a module that is not known.
    MissingModule { module: crate::hash::Hash },
    /// A path names an item that is not known.
    MissingItem { module: crate::hash::Hash, name: crate::hash::Hash },
    /// The self type of an implementation block uses generic parameters.
    UnsupportedGenerics,
}

impl View for ErrorKind {
    type V = ErrorKindView;

    open spec fn view(&self) -> ErrorKindView {
        match self {
            ErrorKind::FunctionConflictHash { hash } => ErrorKindView::FunctionConflictHash { hash: *hash },
            ErrorKind::ConstantConflict { hash } => ErrorKindView::ConstantConflict { hash: *hash },
            ErrorKind::MissingFunctionHash { hash } => ErrorKindView::MissingFunctionHash { hash: *hash },
            ErrorKind::StaticStringHashConflict { hash, current, existing } => ErrorKindView::StaticStringHashConflict {
                hash: *hash,
                current: current@,
                existing: existing@,
            },
            ErrorKind::StaticBytesHashConflict { hash, current, existing } => ErrorKindView::StaticBytesHashConflict {
                hash: *hash,
                current: current@,
                existing: existing@,
            },
            ErrorKind::StaticObjectKeysHashConflict { hash, current, existing } => ErrorKindView::StaticObjectKeysHashConflict {
                hash: *hash,
                current: texts(current@),
                existing: texts(existing@),
            },
            ErrorKind::TypeRttiConflict { hash } => ErrorKindView::TypeRttiConflict { hash: *hash },
            ErrorKind::VariantRttiConflict { hash } => ErrorKindView::VariantRttiConflict { hash: *hash },
            ErrorKind::FunctionConflict { hash, existing } => ErrorKindView::FunctionConflict {
                hash: *hash,
                existing: existing@,
            },
            ErrorKind::FunctionReExportConflict { hash } => ErrorKindView::FunctionReExportConflict { hash: *hash },
            ErrorKind::MissingLabelLocation { name, index } => ErrorKindView::MissingLabelLocation {
                name: name@,
                index: *index,
            },
            ErrorKind::DuplicateLabel { name, index } => ErrorKindView::DuplicateLabel {
                name: name@,
                index: *index,
            },
            ErrorKind::MissingConstant { hash } => ErrorKindView::MissingConstant { hash: *hash },
            ErrorKind::ParseError => ErrorKindView::ParseError,
            ErrorKind::ModAlreadyLoaded { name, existing } => ErrorKindView::ModAlreadyLoaded {
                name: *name,
                existing: *existing,
            },
            ErrorKind::ItemConflict { name, existing } => ErrorKindView::ItemConflict {
                name: *name,
                existing: *existing,
            },
            ErrorKind::MissingModule { module } => ErrorKindView::MissingModule { module: *module },
            ErrorKind::MissingItem { module, name } => ErrorKindView::MissingItem {
                module: *module,
                name: *name,
            },
            ErrorKind::UnsupportedGenerics => ErrorKindView::UnsupportedGenerics,
        }
    }
}

/// What an error holds.
pub struct ErrorView {
    pub span: Span,
    pub kind: ErrorKindView,
}

/// An error at a span.
#[derive(Debug, PartialEq, Eq)]
pub struct Error {
    /// Where the error was found.
    pub span: Span,
    /// What was found.
    pub kind: ErrorKind,
}

impl View for Error {
    type V = ErrorView;

    open spec fn view(&self) -> ErrorView {
        ErrorView { span: self.span, kind: self.kind@ }
    }
}

impl Error {
    /// An error of the given kind at the given span.
    pub fn new(span: Span, kind: ErrorKind) -> (error: Error)
        ensures
            error == (Error { span, kind }),
    {
        Error { span, kind }
    }
}

} // verus!
