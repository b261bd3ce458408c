//! Declarations as the resolver hands them to the assembler.

use vstd::prelude::*;
use crate::item::ItemBuf;

verus! {

/// The fields of a struct or of a variant.
#[derive(Debug, PartialEq, Eq)]
pub enum Fields {
    /// Fields with the given names.
    Named(Vec<String>),
    /// The given number of positional fields.
    Unnamed(usize),
    /// No fields.
    Empty,
}

/// The kind of a declaration.
#[derive(Debug, PartialEq, Eq)]
pub enum Kind {
    /// A type that is declared elsewhere.
    Type,
    /// A struct.
    Struct { fields: Fields },
    /// A variant of the enum with the fingerprint `enum_hash`.
    Variant { enum_hash: crate::hash::Hash, fields: Fields },
    /// An enum.
    Enum,
    /// A macro.
    Macro,
    /// An attribute macro.
    AttributeMacro,
    /// A function.
    Function { is_test: bool, is_bench: bool },
    /// A closure.
    Closure,
    /// An async block.
    AsyncBlock,
    /// A constant.
    Const,
    /// A constant function.
    ConstFn,
    /// An import.
    Import,
    /// A module.
    Module,
}

/// A declaration: its fingerprint, its path and its kind.
#[derive(Debug, PartialEq, Eq)]
pub struct Meta {
    /// The fingerprint of the declaration.
    pub hash: crate::hash::Hash,
    /// The path of the declaration.
    pub item: ItemBuf,
    /// The kind of the declaration.
    pub kind: Kind,
}

} // verus!
