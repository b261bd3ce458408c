//! Debug information of a unit.

use vstd::prelude::*;
use std::collections::HashMap;
use crate::hash::texts;
use crate::item::{item_text, ComponentView, ItemBuf};
use crate::span::{SourceId, Span};
use crate::text::clone_strings;

verus! {

/// A label bound at an instruction.
#[derive(Clone, Copy, Debug, PartialEq, Eq)]
pub struct DebugLabel {
    /// The name of the label.
    pub name: &'static str,
    /// The number of the label in its unit.
    pub index: usize,
}

impl View for DebugLabel {
    type V = (Seq<char>, usize);

    open spec fn view(&self) -> (Seq<char>, usize) {
        (self.name@, self.index)
    }
}

/// What the debug record of an instruction holds.
pub struct DebugInstView {
    pub source_id: SourceId,
    pub span: Span,
    pub comment: Option<Seq<char>>,
    pub labels: Seq<(Seq<char>, usize)>,
}

/// The debug record of one instruction.
#[derive(Debug, PartialEq, Eq)]
pub struct DebugInst {
    /// The source that the instruction comes from.
    pub source_id: SourceId,
    /// The span of the instruction in that source.
    pub span: Span,
    /// A comment on the instruction.
    pub comment: Option<String>,
    /// The labels bound at the instruction.
    pub labels: Vec<DebugLabel>,
}

impl View for DebugInst {
    type V = DebugInstView;

    open spec fn view(&self) -> DebugInstView {
        DebugInstView {
            source_id: self.source_id,
            span: self.span,
            comment: match self.comment {
                Some(c) => Some(c@),
                None => None,
            },
            labels: self.labels@.map_values(|l: DebugLabel| l@),
        }
    }
}

impl DebugInst {
    /// A debug record.
    pub fn new(source_id: SourceId, span: Span, comment: Option<String>, labels: Vec<DebugLabel>) -> (inst: DebugInst)
        ensures
            inst == (DebugInst { source_id, span, comment, labels }),
    {
        DebugInst { source_id, span, comment, labels }
    }
}

/// What the description of arguments holds.
pub enum DebugArgsView {
    EmptyArgs,
    TupleArgs(usize),
    Named(Seq<Seq<char>>),
}

/// The arguments of a function, as described to a reader.
#[derive(Debug, PartialEq, Eq)]
pub enum DebugArgs {
    /// No arguments.
    EmptyArgs,
    /// The given number of positional arguments.
    TupleArgs(usize),
    /// Arguments with the given names.
    Named(Vec<String>),
}

impl View for DebugArgs {
    type V = DebugArgsView;

    open spec fn view(&self) -> DebugArgsView {
        match self {
            DebugArgs::EmptyArgs => DebugArgsView::EmptyArgs,
            DebugArgs::TupleArgs(n) => DebugArgsView::TupleArgs(*n),
            DebugArgs::Named(names) => DebugArgsView::Named(texts(names@)),
        }
    }
}

impl DebugArgs {
    /// A copy of the description.
    pub fn to_owned(&self) -> (args: DebugArgs)
        ensures
            args@ == self@,
    {
        match self {
            DebugArgs::EmptyArgs => DebugArgs::EmptyArgs,
            DebugArgs::TupleArgs(n) => DebugArgs::TupleArgs(*n),
            DebugArgs::Named(names) => DebugArgs::Named(clone_strings(names)),
        }
    }
}

/// What a signature holds.
pub struct DebugSignatureView {
    pub path: Seq<ComponentView>,
    pub args: DebugArgsView,
}

/// The signature of a function, as described to a reader.
#[derive(Debug, PartialEq, Eq)]
pub struct DebugSignature {
    /// The path of the function.
    pub path: ItemBuf,
    /// Its arguments.
    pub args: DebugArgs,
}

impl View for DebugSignature {
    type V = DebugSignatureView;

    open spec fn view(&self) -> DebugSignatureView {
        DebugSignatureView { path: self.path@, args: self.args@ }
    }
}

impl DebugSignature {
    /// A signature.
    pub fn new(path: ItemBuf, args: DebugArgs) -> (signature: DebugSignature)
        ensures
            signature == (DebugSignature { path, args }),
    {
        DebugSignature { path, args }
    }

    /// A copy of the signature.
    pub fn to_owned(&self) -> (signature: DebugSignature)
        ensures
            signature@ == self@,
    {
        DebugSignature { path: self.path.to_owned(), args: self.args.to_owned() }
    }
}

/// What the debug information holds.
pub struct DebugInfoView {
    /// The debug record of the instruction at each offset.
    pub instructions: Map<usize, DebugInstView>,
    /// The signature of each function, by fingerprint.
    pub functions: Map<u64, DebugSignatureView>,
    /// The fingerprint of the function at each offset.
    pub functions_rev: Map<usize, crate::hash::Hash>,
    /// The identifier behind each fingerprint.
    pub hash_to_ident: Map<u64, Seq<char>>,
}

/// Debug information of a unit.
pub struct DebugInfo {
    /// The debug record of the instruction at each offset.
    pub instructions: HashMap<usize, DebugInst>,
    /// The signature of each function, by fingerprint.
    pub functions: HashMap<u64, DebugSignature>,
    /// The fingerprint of the function at each offset.
    pub functions_rev: HashMap<usize, crate::hash::Hash>,
    /// The identifier behind each fingerprint.
    pub hash_to_ident: HashMap<u64, String>,
}

impl View for DebugInfo {
    type V = DebugInfoView;

    open spec fn view(&self) -> DebugInfoView {
        DebugInfoView {
            instructions: self.instructions@.map_values(|i: DebugInst| i@),
            functions: self.functions@.map_values(|s: DebugSignature| s@),
            functions_rev: self.functions_rev@,
            hash_to_ident: self.hash_to_ident@.map_values(|s: String| s@),
        }
    }
}

/// Debug information that holds nothing.
pub open spec fn empty_debug() -> DebugInfoView {
    DebugInfoView {
        instructions: Map::empty(),
        functions: Map::empty(),
        functions_rev: Map::empty(),
        hash_to_ident: Map::empty(),
    }
}

impl DebugInfo {
    /// Debug information that holds nothing.
    pub fn new() -> (info: DebugInfo)
        ensures
            info@ == empty_debug(),
    {
        let info = DebugInfo {
            instructions: HashMap::new(),
            functions: HashMap::new(),
            functions_rev: HashMap::new(),
            hash_to_ident: HashMap::new(),
        };
        assert(info@.instructions =~= Map::empty());
        assert(info@.functions =~= Map::empty());
        assert(info@.hash_to_ident =~= Map::empty());
        info
    }
}

/// The text of a signature's path.
pub open spec fn signature_text(signature: DebugSignatureView) -> Seq<char> {
    item_text(signature.path)
}

} // verus!
