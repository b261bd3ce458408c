//! Parsed sources: the items of each file, as the parser hands them over.

use vstd::prelude::*;
use crate::span::{SourceId, Span};

verus! {

/// What an import brings in.
#[derive(Clone, Copy, Debug, PartialEq, Eq, Structural)]
pub enum UseTarget {
    /// The item with the given name.
    Name(crate::hash::Hash),
    /// Every name of the module.
    Wildcard,
}

/// An import: `use module::name` or `use module::*`.
#[derive(Clone, Copy, Debug, PartialEq, Eq, Structural)]
pub struct ItemUse {
    /// The module that is imported from.
    pub module: crate::query::ModId,
    /// What is imported from it.
    pub target: UseTarget,
    /// The span of the import.
    pub span: Span,
}

/// A function of an implementation block.
#[derive(Debug, PartialEq, Eq)]
pub struct ItemFn {
    /// The name of the function.
    pub name: crate::hash::Hash,
    /// The span of the function.
    pub span: Span,
    /// The imports in the body of the function.
    pub uses: Vec<ItemUse>,
}

/// An implementation block for a type that is declared elsewhere.
#[derive(Debug, PartialEq, Eq)]
pub struct ItemImpl {
    /// The module of the type.
    pub module: crate::query::ModId,
    /// The name of the type.
    pub name: crate::hash::Hash,
    /// The spans of the generic parameters that the block gives the type.
    pub generics: Vec<Span>,
    /// The span of the block.
    pub span: Span,
    /// The functions of the block.
    pub functions: Vec<ItemFn>,
}

/// An item of a file.
#[derive(Debug, PartialEq, Eq)]
pub enum AstItem {
    /// The declaration of a name: a struct, an enum, a function or a
    /// constant.
    Decl { name: crate::hash::Hash, span: Span },
    /// A module whose items are in another source.
    Mod { name: crate::hash::Hash, source_id: SourceId, span: Span },
    /// An import.
    Use(ItemUse),
    /// An implementation block.
    Impl(ItemImpl),
}

/// One source: its items, or nothing where it could not be parsed.
#[derive(Debug, PartialEq, Eq)]
pub struct Source {
    /// The items of the source.
    pub ast: Option<Vec<AstItem>>,
}

/// The sources of a build, by number.
#[derive(Debug, PartialEq, Eq)]
pub struct Sources {
    /// The sources.
    pub sources: Vec<Source>,
}

/// The span of the first generic parameter of a block, if it has one.
pub open spec fn first_generic(block: &ItemImpl) -> Option<Span> {
    if block.generics@.len() > 0 {
        Some(block.generics@[0])
    } else {
        None
    }
}

impl ItemImpl {
    /// The span of the first generic parameter of the block, if it has
    /// one.
    pub fn first_generic(&self) -> (r: Option<Span>)
        ensures
            r == first_generic(self),
    {
        if self.generics.len() > 0 {
            Some(self.generics[0])
        } else {
            None
        }
    }
}

impl Sources {
    /// No sources.
    pub fn new() -> (sources: Sources)
        ensures
            sources.sources@.len() == 0,
    {
        Sources { sources: Vec::new() }
    }

    /// Adds a source and returns its number.
    pub fn insert(&mut self, source: Source) -> (id: SourceId)
        ensures
            id == SourceId(old(self).sources@.len() as usize),
            final(self).sources@ == old(self).sources@.push(source),
    {
        let id = SourceId(self.sources.len());
        self.sources.push(source);
        id
    }

    /// The source with the given number.
    pub fn get(&self, id: SourceId) -> (r: Option<&Source>)
        ensures
            r == self.source(id),
    {
        if id.0 < self.sources.len() {
            Some(&self.sources[id.0])
        } else {
            None
        }
    }

    /// The number of sources.
    pub fn len(&self) -> (n: usize)
        ensures
            n == self.sources@.len(),
    {
        self.sources.len()
    }

    /// The source with the given number.
    pub open spec fn source(&self, id: SourceId) -> Option<&Source> {
        if id.0 < self.sources@.len() {
            Some(&self.sources@[id.0 as int])
        } else {
            None
        }
    }

    /// The items of the source with the given number, if it is there and
    /// was parsed.
    pub open spec fn items(&self, id: SourceId) -> Option<Seq<AstItem>> {
        match self.source(id) {
            Some(source) => match source.ast {
                Some(items) => Some(items@),
                None => None,
            },
            None => None,
        }
    }

    /// The implementation block at the given place of a source.
    pub open spec fn impl_at(&self, id: SourceId, index: usize) -> Option<ItemImpl> {
        match self.items(id) {
            Some(items) => if index < items.len() {
                match items[index as int] {
                    AstItem::Impl(block) => Some(block),
                    _ => None,
                }
            } else {
                None
            },
            None => None,
        }
    }
}

} // verus!
