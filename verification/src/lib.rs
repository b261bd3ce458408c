//! Lowering of resolved source items into one linked bytecode unit.
//!
//! The crate has two halves. The resolver ([`worker`], over [`query`] and
//! [`ast`]) drains a queue of indexing tasks over parsed sources and
//! registers every declaration, import and out-of-line implementation it
//! finds. The assembler ([`unit_builder`], over [`assembly`], [`inst`],
//! [`debug`] and [`unit`]) collects declarations, static data and function
//! bodies into fingerprint-keyed tables and a linear instruction stream,
//! and its linker checks that every call can be resolved. The laws that
//! hold between the operations of the assembler are proved in
//! [`unit_laws`], those of the resolver in [`worker_laws`].
//!
//! Around them stand the fingerprints ([`hash`]), item paths ([`item`]),
//! constant values ([`const_value`]), the metadata of native modules
//! ([`module`], [`type_of`], [`context`]), and small utilities of the
//! runtime ([`fmt`], [`io`], [`try_clone`], [`memory`], [`text`],
//! [`visitor`], [`markdown`]).
//!
//! Every executable function carries a contract that is checked by Verus.

pub mod hash;
pub mod text;
pub mod span;
pub mod memory;
pub mod try_clone;
pub mod item;
pub mod const_value;
pub mod inst;
pub mod debug;
pub mod meta;
pub mod error;
pub mod assembly;
pub mod unit;
pub mod context;
pub mod diagnostics;
pub mod ast;
pub mod query;
pub mod unit_builder;
pub mod unit_laws;
pub mod worker;
pub mod worker_laws;
pub mod type_of;
pub mod module;
pub mod fmt;
pub mod io;
pub mod visitor;
pub mod markdown;
