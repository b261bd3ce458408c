//! Visitors of the declarations that a build registers.

use vstd::prelude::*;
use crate::item::{ComponentView, ItemBuf};
use crate::meta::{Kind, Meta};

verus! {

/// A visitor refused a declaration.
#[derive(Debug, PartialEq, Eq)]
pub struct MetaError {}

/// A visitor of the declarations that a build registers.
pub trait CompileVisitor {
    /// Called for every declaration that is registered.
    fn register_meta(&mut self, meta: &Meta) -> Result<(), MetaError>;
}

/// Attribute to collect.
#[derive(Debug, Clone, Copy, PartialEq, Eq, Structural)]
pub enum Attribute {
    /// Do not collect any functions.
    Skip,
    /// Collect `#[test]` functions.
    Test,
    /// Collect `#[bench]` functions.
    Bench,
}

/// Whether a visitor for `attribute` collects a declaration of the given
/// kind.
pub open spec fn collects(attribute: Attribute, kind: Kind) -> bool {
    match (attribute, kind) {
        (Attribute::Test, Kind::Function { is_test, is_bench }) => is_test,
        (Attribute::Bench, Kind::Function { is_test, is_bench }) => is_bench,
        _ => false,
    }
}

/// What a function that was collected holds.
pub open spec fn collected(entry: (crate::hash::Hash, ItemBuf)) -> (crate::hash::Hash, Seq<ComponentView>) {
    (entry.0, entry.1@)
}

/// A compile visitor that collects functions with a specific attribute.
#[derive(Debug, PartialEq, Eq)]
pub struct FunctionVisitor {
    /// The attribute of the functions to collect.
    pub attribute: Attribute,
    /// The functions that were collected.
    pub functions: Vec<(crate::hash::Hash, ItemBuf)>,
}

impl View for FunctionVisitor {
    type V = Seq<(crate::hash::Hash, Seq<ComponentView>)>;

    open spec fn view(&self) -> Seq<(crate::hash::Hash, Seq<ComponentView>)> {
        self.functions@.map_values(|e: (crate::hash::Hash, ItemBuf)| collected(e))
    }
}

impl FunctionVisitor {
    /// A visitor that collects the functions with the given attribute.
    pub fn new(kind: Attribute) -> (visitor: FunctionVisitor)
        ensures
            visitor.attribute == kind,
            visitor@ == Seq::<(crate::hash::Hash, Seq<ComponentView>)>::empty(),
    {
        let visitor = FunctionVisitor { attribute: kind, functions: Vec::new() };
        assert(visitor@ =~= Seq::<(crate::hash::Hash, Seq<ComponentView>)>::empty());
        visitor
    }

    /// Convert visitor into test functions.
    pub fn into_functions(self) -> (functions: Vec<(crate::hash::Hash, ItemBuf)>)
        ensures
            functions == self.functions,
    {
        self.functions
    }
}

impl CompileVisitor for FunctionVisitor {
    /// Collects the declaration if it is a function with the attribute of
    /// the visitor. The visitor never refuses a declaration.
    fn register_meta(&mut self, meta: &Meta) -> (r: Result<(), MetaError>)
        ensures
            r is Ok,
            final(self).attribute == old(self).attribute,
            final(self)@ == if collects(old(self).attribute, meta.kind) {
                old(self)@.push((meta.hash, meta.item@))
            } else {
                old(self)@
            },
    {
        let collect = match (self.attribute, &meta.kind) {
            (Attribute::Test, Kind::Function { is_test, is_bench }) => *is_test,
            (Attribute::Bench, Kind::Function { is_test, is_bench }) => *is_bench,
            _ => false,
        };
        if collect {
            self.functions.push((meta.hash, meta.item.to_owned()));
            assert(self@ =~= old(self)@.push((meta.hash, meta.item@)));
        }
        Ok(())
    }
}

} // verus!
