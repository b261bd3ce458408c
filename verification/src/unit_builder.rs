//! The assembler of a unit: lookup tables for declarations and static
//! data, and the lowering of symbolic assembly into the instruction stream.

use vstd::prelude::*;
use std::collections::HashMap;
use crate::const_value::{ConstValue, ConstView};
use crate::debug::{DebugInfo, DebugInfoView, DebugSignature, DebugSignatureView};
use crate::error::{Error, ErrorKind, ErrorKindView, ErrorView};
use crate::hash::texts;
use crate::inst::{Call, Inst, UnitFn};
use crate::context::{Context, FunctionHandler};
use crate::diagnostics::{DiagnosticKindView, DiagnosticView, Diagnostics};
use crate::hash::ident_hash;
use crate::unit::{Unit, UnitView};
use crate::assembly::{bound_at, comment_of, debug_labels, label_of, resolve, target_label, Assembly, BoundLabel};
use crate::debug::{DebugInst, DebugInstView};
use crate::span::Location;
use crate::unit::ArrayUnit;
use crate::span::{SourceId, Span};
use crate::hash::{associated_function_hash, key_bytes, object_keys_hash, static_bytes_hash, static_string_hash};
use crate::item::{item_text, type_hash_of, ComponentView, ItemBuf};
use crate::debug::{empty_debug, DebugArgs, DebugArgsView};
use crate::meta::{Fields, Kind, Meta};
use crate::text::{bytes_eq, clone_bytes, clone_strings, hex, push_hex, push_text, strings_eq};
use vstd::utf8::encode_utf8;
use crate::query::{const_value_of, QueryInner};
use crate::unit::{byte_strings, key_lists, Rtti, RttiView, VariantRtti, VariantRttiView};

verus! {

/// A place where a function is called: a span and its source.
#[derive(Clone, Copy, Debug, PartialEq, Eq, Structural)]
pub struct CallSite {
    /// The span of the call.
    pub span: Span,
    /// The source of the call.
    pub source_id: SourceId,
}

/// What a linker error holds.
pub enum LinkerErrorView {
    MissingFunction { hash: crate::hash::Hash, spans: Seq<CallSite> },
}

/// Errors that can be raised when linking units.
#[derive(Debug, PartialEq, Eq)]
#[non_exhaustive]
pub enum LinkerError {
    /// A function is called that neither the unit nor the host provides.
    MissingFunction {
        /// The fingerprint of the function.
        hash: crate::hash::Hash,
        /// Every place where it is called.
        spans: Vec<CallSite>,
    },
}

impl View for LinkerError {
    type V = LinkerErrorView;

    open spec fn view(&self) -> LinkerErrorView {
        match self {
            LinkerError::MissingFunction { hash, spans } => LinkerErrorView::MissingFunction {
                hash: *hash,
                spans: spans@,
            },
        }
    }
}

/// The message of a linker error.
pub open spec fn linker_error_text(error: LinkerErrorView) -> Seq<char> {
    match error {
        LinkerErrorView::MissingFunction { hash, spans } => "Missing function with hash "@ + hex(
            hash.0 as nat,
        ),
    }
}

impl LinkerError {
    /// The message of the error.
    pub fn to_string(&self) -> (s: String)
        ensures
            s@ == linker_error_text(self@),
    {
        match self {
            LinkerError::MissingFunction { hash, spans } => {
                let mut s = String::new();
                push_text(&mut s, "Missing function with hash ");
                push_hex(&mut s, hash.0);
                assert(s@ =~= linker_error_text(self@));
                s
            },
        }
    }
}

/// A function that assembled code calls without knowing its offset, and
/// every place where it does.
#[derive(Debug, PartialEq, Eq)]
pub struct RequiredFunction {
    /// The fingerprint of the function.
    pub hash: crate::hash::Hash,
    /// The places of the calls, in the order they were assembled.
    pub spans: Vec<CallSite>,
}

/// What a required function holds.
pub struct RequiredView {
    pub hash: crate::hash::Hash,
    pub spans: Seq<CallSite>,
}

impl View for RequiredFunction {
    type V = RequiredView;

    open spec fn view(&self) -> RequiredView {
        RequiredView { hash: self.hash, spans: self.spans@ }
    }
}

/// A re-export: the fingerprint `from` stands for the entry of `to`.
#[derive(Clone, Copy, Debug, PartialEq, Eq, Structural)]
pub struct ReExport {
    /// The fingerprint of the alias.
    pub from: crate::hash::Hash,
    /// The fingerprint of its target.
    pub to: crate::hash::Hash,
}

/// Where following a fingerprint through the re-exports ends.
#[derive(Clone, Copy, Debug, PartialEq, Eq, Structural)]
pub enum AliasEnd {
    /// At the function with this fingerprint.
    Function(crate::hash::Hash),
    /// At the constant with this fingerprint.
    Constant(crate::hash::Hash),
    /// At this fingerprint, which is neither function, constant nor alias.
    Missing(crate::hash::Hash),
}

/// What a resolved re-export holds.
pub enum ResolutionView {
    Function { from: crate::hash::Hash, info: UnitFn, signature: DebugSignatureView },
    Constant { from: crate::hash::Hash, value: ConstView },
}

/// What a re-export resolved to: the entry to copy under the fingerprint
/// of the alias.
#[derive(Debug, PartialEq, Eq)]
pub enum Resolution {
    /// A function with its signature.
    Function { from: crate::hash::Hash, info: UnitFn, signature: DebugSignature },
    /// A constant.
    Constant { from: crate::hash::Hash, value: ConstValue },
}

impl View for Resolution {
    type V = ResolutionView;

    open spec fn view(&self) -> ResolutionView {
        match self {
            Resolution::Function { from, info, signature } => ResolutionView::Function {
                from: *from,
                info: *info,
                signature: signature@,
            },
            Resolution::Constant { from, value } => ResolutionView::Constant { from: *from, value: value@ },
        }
    }
}

/// The target of the re-export whose alias is `hash`, if there is one.
pub open spec fn alias_target(reexports: Seq<ReExport>, hash: crate::hash::Hash) -> Option<
    crate::hash::Hash,
> {
    match crate::query::position(reexports, |r: ReExport| r.from == hash) {
        Some(i) => Some(reexports[i].to),
        None => None,
    }
}

/// What the assembler holds.
pub struct BuilderView {
    /// The re-exports, in the order they were registered.
    pub reexports: Seq<ReExport>,
    /// The function table.
    pub functions: Map<u64, UnitFn>,
    /// The fingerprint of the function at each offset.
    pub functions_rev: Map<usize, crate::hash::Hash>,
    /// The static strings, by slot.
    pub static_strings: Seq<Seq<char>>,
    /// The slot of the static string with each fingerprint.
    pub static_string_rev: Map<u64, usize>,
    /// The static byte strings, by slot.
    pub static_bytes: Seq<Seq<u8>>,
    /// The slot of the static byte string with each fingerprint.
    pub static_bytes_rev: Map<u64, usize>,
    /// The static object key lists, by slot.
    pub static_object_keys: Seq<Seq<Seq<char>>>,
    /// The slot of the object key list with each fingerprint.
    pub static_object_keys_rev: Map<u64, usize>,
    /// The type descriptors.
    pub rtti: Map<u64, RttiView>,
    /// The variant descriptors.
    pub variant_rtti: Map<u64, VariantRttiView>,
    /// The number of the next label.
    pub label_count: usize,
    /// The functions that assembled code calls by fingerprint, in the order
    /// of their first call.
    pub required_functions: Seq<RequiredView>,
    /// The debug information.
    pub debug: Option<DebugInfoView>,
    /// The constants.
    pub constants: Map<u64, ConstView>,
    /// The identifier behind each fingerprint.
    pub hash_to_ident: Map<u64, Seq<char>>,
}

/// The assembler of one unit.
pub struct UnitBuilder {
    /// Registered re-exports.
    pub reexports: Vec<ReExport>,
    /// Where functions are located in the collection of instructions.
    pub functions: HashMap<u64, UnitFn>,
    /// Function by address.
    pub functions_rev: HashMap<usize, crate::hash::Hash>,
    /// The static strings.
    pub static_strings: Vec<String>,
    /// Reverse lookup for static strings.
    pub static_string_rev: HashMap<u64, usize>,
    /// The static byte strings.
    pub static_bytes: Vec<Vec<u8>>,
    /// Reverse lookup for static byte strings.
    pub static_bytes_rev: HashMap<u64, usize>,
    /// Slots used for object keys.
    pub static_object_keys: Vec<Vec<String>>,
    /// Used to detect duplicates in the collection of static object keys.
    pub static_object_keys_rev: HashMap<u64, usize>,
    /// Runtime type information for types.
    pub rtti: HashMap<u64, Rtti>,
    /// Runtime type information for variants.
    pub variant_rtti: HashMap<u64, VariantRtti>,
    /// The current label count.
    pub label_count: usize,
    /// A collection of required function hashes.
    pub required_functions: Vec<RequiredFunction>,
    /// Debug info if available for unit.
    pub debug: Option<DebugInfo>,
    /// Constant values.
    pub constants: HashMap<u64, ConstValue>,
    /// Hash to identifiers.
    pub hash_to_ident: HashMap<u64, String>,
}

impl View for UnitBuilder {
    type V = BuilderView;

    open spec fn view(&self) -> BuilderView {
        BuilderView {
            reexports: self.reexports@,
            functions: self.functions@,
            functions_rev: self.functions_rev@,
            static_strings: texts(self.static_strings@),
            static_string_rev: self.static_string_rev@,
            static_bytes: byte_strings(self.static_bytes@),
            static_bytes_rev: self.static_bytes_rev@,
            static_object_keys: key_lists(self.static_object_keys@),
            static_object_keys_rev: self.static_object_keys_rev@,
            rtti: self.rtti@.map_values(|r: Rtti| r@),
            variant_rtti: self.variant_rtti@.map_values(|r: VariantRtti| r@),
            label_count: self.label_count,
            required_functions: self.required_functions@.map_values(|r: RequiredFunction| r@),
            debug: match self.debug {
                Some(d) => Some(d@),
                None => None,
            },
            constants: self.constants@.map_values(|c: ConstValue| c@),
            hash_to_ident: self.hash_to_ident@.map_values(|s: String| s@),
        }
    }
}

/// Every fingerprint of a pool's reverse table names a slot of the pool.
pub open spec fn pool_wf(slots: nat, rev: Map<u64, usize>) -> bool {
    forall|h: u64| #[trigger] rev.contains_key(h) ==> rev[h] < slots
}

/// Whether each static string is indexed under the fingerprint of its
/// content.
pub open spec fn strings_indexed(slots: Seq<Seq<char>>, rev: Map<u64, usize>) -> bool {
    forall|i: int|
        0 <= i < slots.len() ==> rev.contains_key(static_string_hash(encode_utf8(#[trigger] slots[i])))
            && rev[static_string_hash(encode_utf8(slots[i]))] == i
}

/// Whether each static byte string is indexed under the fingerprint of
/// its content.
pub open spec fn bytes_indexed(slots: Seq<Seq<u8>>, rev: Map<u64, usize>) -> bool {
    forall|i: int|
        0 <= i < slots.len() ==> rev.contains_key(static_bytes_hash(#[trigger] slots[i]))
            && rev[static_bytes_hash(slots[i])] == i
}

/// Whether each list of object keys is indexed under the fingerprint of
/// its content.
pub open spec fn keys_indexed(slots: Seq<Seq<Seq<char>>>, rev: Map<u64, usize>) -> bool {
    forall|i: int|
        0 <= i < slots.len() ==> rev.contains_key(object_keys_hash(key_bytes(#[trigger] slots[i])))
            && rev[object_keys_hash(key_bytes(slots[i]))] == i
}

/// Whether the function `hash` has a signature in the debug information.
pub open spec fn has_signature(debug: Option<DebugInfoView>, hash: u64) -> bool {
    debug matches Some(d) && d.functions.contains_key(hash)
}

impl BuilderView {
    /// Whether every slot of the three pools is indexed under the
    /// fingerprint of its content. It holds of a new assembler, and
    /// interning a value under the fingerprint of its content keeps it;
    /// then no two slots of a pool hold the same content.
    pub open spec fn pools_indexed(self) -> bool {
        &&& strings_indexed(self.static_strings, self.static_string_rev)
        &&& bytes_indexed(self.static_bytes, self.static_bytes_rev)
        &&& keys_indexed(self.static_object_keys, self.static_object_keys_rev)
    }

    /// The invariant of the assembler: the reverse table of each pool
    /// names slots of that pool; no re-export is registered twice; no
    /// required function is listed twice; and every function of the table
    /// has a signature in the debug information.
    pub open spec fn wf(self) -> bool {
        &&& pool_wf(self.static_strings.len(), self.static_string_rev)
        &&& pool_wf(self.static_bytes.len(), self.static_bytes_rev)
        &&& pool_wf(self.static_object_keys.len(), self.static_object_keys_rev)
        &&& forall|i: int, j: int|
            0 <= i < j < self.reexports.len() ==> (#[trigger] self.reexports[i]).from != (
            #[trigger] self.reexports[j]).from
        &&& forall|i: int, j: int|
            0 <= i < j < self.required_functions.len() ==> (
            #[trigger] self.required_functions[i]).hash != (#[trigger] self.required_functions[j]).hash
        &&& forall|h: u64| #[trigger] self.functions.contains_key(h) ==> has_signature(self.debug, h)
    }
}

/// The fingerprint of the protocol that gives the name of a type.
pub const INTO_TYPE_NAME: u64 = 0xbffd_08b8_16c2_4682;

/// The fingerprint under which the name of the type `type_hash` is kept
/// as a constant.
pub open spec fn type_name_hash(type_hash: u64) -> u64 {
    associated_function_hash(type_hash, INTO_TYPE_NAME)
}

impl BuilderView {
    /// The debug information, or empty debug information if there is none.
    pub open spec fn debug_or_empty(self) -> DebugInfoView {
        match self.debug {
            Some(d) => d,
            None => empty_debug(),
        }
    }

    /// The signature that the debug information holds for a function.
    pub open spec fn signature(self, hash: u64) -> DebugSignatureView {
        self.debug_or_empty().functions[hash]
    }

    /// The assembler with the signature of a function added.
    pub open spec fn with_signature(self, hash: u64, signature: DebugSignatureView) -> BuilderView {
        BuilderView {
            debug: Some(
                DebugInfoView {
                    functions: self.debug_or_empty().functions.insert(hash, signature),
                    ..self.debug_or_empty()
                },
            ),
            ..self
        }
    }

    /// The assembler with an entry of the function table added.
    pub open spec fn with_function(self, hash: u64, info: UnitFn) -> BuilderView {
        BuilderView { functions: self.functions.insert(hash, info), ..self }
    }

    /// The assembler with the name of a type added as a constant.
    pub open spec fn with_type_name(self, type_hash: u64, item: Seq<ComponentView>) -> BuilderView {
        BuilderView {
            constants: self.constants.insert(type_name_hash(type_hash), ConstView::String(item_text(item))),
            ..self
        }
    }

    /// The assembler with a type descriptor added.
    pub open spec fn with_rtti(self, hash: crate::hash::Hash, item: Seq<ComponentView>) -> BuilderView {
        BuilderView { rtti: self.rtti.insert(hash.0, RttiView { hash, item }), ..self }
    }

    /// The assembler with a variant descriptor added.
    pub open spec fn with_variant_rtti(
        self,
        enum_hash: crate::hash::Hash,
        hash: crate::hash::Hash,
        item: Seq<ComponentView>,
    ) -> BuilderView {
        BuilderView {
            variant_rtti: self.variant_rtti.insert(hash.0, VariantRttiView { enum_hash, hash, item }),
            ..self
        }
    }

    /// Declares a type without a constructor: a type descriptor and the
    /// constant of its name. A descriptor under the same fingerprint is a
    /// conflict.
    pub open spec fn declare_type(self, hash: crate::hash::Hash, item: Seq<ComponentView>) -> Result<
        BuilderView,
        ErrorKindView,
    > {
        if self.rtti.contains_key(hash.0) {
            Err(ErrorKindView::TypeRttiConflict { hash })
        } else {
            Ok(self.with_rtti(hash, item).with_type_name(hash.0, item))
        }
    }

    /// Declares a struct with a constructor: a type descriptor, an entry
    /// of the function table with its signature, and the constant of its
    /// name. A descriptor or a function under the same fingerprint is a
    /// conflict that names the fingerprint; that of a function also holds
    /// the signature of the function that is there.
    pub open spec fn declare_struct(
        self,
        hash: crate::hash::Hash,
        item: Seq<ComponentView>,
        info: UnitFn,
        args: DebugArgsView,
    ) -> Result<BuilderView, ErrorKindView> {
        if self.rtti.contains_key(hash.0) {
            Err(ErrorKindView::TypeRttiConflict { hash })
        } else if self.functions.contains_key(hash.0) {
            Err(ErrorKindView::FunctionConflict { hash, existing: self.signature(hash.0) })
        } else {
            Ok(
                self.with_rtti(hash, item).with_function(hash.0, info).with_type_name(
                    hash.0,
                    item,
                ).with_signature(hash.0, DebugSignatureView { path: item, args }),
            )
        }
    }

    /// Declares a variant without a constructor: a variant descriptor. A
    /// descriptor under the same fingerprint is a conflict.
    pub open spec fn declare_variant(
        self,
        enum_hash: crate::hash::Hash,
        hash: crate::hash::Hash,
        item: Seq<ComponentView>,
    ) -> Result<BuilderView, ErrorKindView> {
        if self.variant_rtti.contains_key(hash.0) {
            Err(ErrorKindView::VariantRttiConflict { hash })
        } else {
            Ok(self.with_variant_rtti(enum_hash, hash, item))
        }
    }

    /// Declares a variant with a constructor: a variant descriptor and an
    /// entry of the function table with its signature. A descriptor or a
    /// function under the same fingerprint is a conflict.
    pub open spec fn declare_variant_constructor(
        self,
        enum_hash: crate::hash::Hash,
        hash: crate::hash::Hash,
        item: Seq<ComponentView>,
        info: UnitFn,
        args: DebugArgsView,
    ) -> Result<BuilderView, ErrorKindView> {
        if self.variant_rtti.contains_key(hash.0) {
            Err(ErrorKindView::VariantRttiConflict { hash })
        } else if self.functions.contains_key(hash.0) {
            Err(ErrorKindView::FunctionConflict { hash, existing: self.signature(hash.0) })
        } else {
            Ok(
                self.with_variant_rtti(enum_hash, hash, item).with_function(hash.0, info).with_signature(
                    hash.0,
                    DebugSignatureView { path: item, args },
                ),
            )
        }
    }

    /// What a declaration does to the assembler, by its kind.
    ///
    /// - A type declared elsewhere, a struct with named fields and an enum
    ///   get a type descriptor and the constant of their name. The first
    ///   two go under the fingerprint of their path, the enum under its own.
    /// - An empty struct and a tuple struct also get a constructor.
    /// - An empty variant and a tuple variant get a variant descriptor and
    ///   a constructor; a variant with named fields only the descriptor,
    ///   under the fingerprint of its path.
    /// - A constant gets the value that was evaluated for it; without one
    ///   the declaration fails.
    /// - Every other kind leaves the assembler as it is.
    pub open spec fn insert_meta(self, meta: &Meta, constant: Option<ConstView>) -> Result<
        BuilderView,
        ErrorKindView,
    > {
        let item = meta.item@;
        let hash = meta.hash;
        let path_hash = crate::hash::Hash(type_hash_of(item));
        match meta.kind {
            Kind::Type => self.declare_type(path_hash, item),
            Kind::Struct { fields: Fields::Empty } => self.declare_struct(
                hash,
                item,
                UnitFn::EmptyStruct { hash },
                DebugArgsView::EmptyArgs,
            ),
            Kind::Struct { fields: Fields::Unnamed(args) } => self.declare_struct(
                hash,
                item,
                UnitFn::TupleStruct { hash, args },
                DebugArgsView::TupleArgs(args),
            ),
            Kind::Struct { fields: Fields::Named(_) } => self.declare_type(path_hash, item),
            Kind::Variant { enum_hash, fields: Fields::Empty } => self.declare_variant_constructor(
                enum_hash,
                hash,
                item,
                UnitFn::UnitVariant { hash },
                DebugArgsView::EmptyArgs,
            ),
            Kind::Variant { enum_hash, fields: Fields::Unnamed(args) } => self.declare_variant_constructor(
                enum_hash,
                hash,
                item,
                UnitFn::TupleVariant { hash, args },
                DebugArgsView::TupleArgs(args),
            ),
            Kind::Variant { enum_hash, fields: Fields::Named(_) } => self.declare_variant(
                enum_hash,
                path_hash,
                item,
            ),
            Kind::Enum => self.declare_type(hash, item),
            Kind::Const => match constant {
                Some(value) => Ok(BuilderView { constants: self.constants.insert(hash.0, value), ..self }),
                None => Err(ErrorKindView::MissingConstant { hash }),
            },
            _ => Ok(self),
        }
    }
}

/// Whether a function is among the required ones.
pub open spec fn listed(required: Seq<RequiredView>, hash: crate::hash::Hash) -> bool {
    exists|i: int| 0 <= i < required.len() && (#[trigger] required[i]).hash == hash
}

/// The required functions after a call to `hash` at `site`: the site is
/// added to the function's entry, or a new entry is added at the end.
pub open spec fn record_call(required: Seq<RequiredView>, hash: crate::hash::Hash, site: CallSite) -> Seq<
    RequiredView,
> {
    if listed(required, hash) {
        required.map_values(
            |r: RequiredView|
                if r.hash == hash {
                    RequiredView { hash, spans: r.spans.push(site) }
                } else {
                    r
                },
        )
    } else {
        required.push(RequiredView { hash, spans: seq![site] })
    }
}

/// The required functions after the first `n` instructions of an
/// assembly: every call that is not lowered to a call by offset is
/// recorded with its place.
pub open spec fn calls_recorded(
    required: Seq<RequiredView>,
    functions: Map<u64, UnitFn>,
    body: &Assembly,
    base: usize,
    n: int,
) -> Seq<RequiredView>
    decreases n,
{
    if n <= 0 {
        required
    } else {
        let prev = calls_recorded(required, functions, body, base, n - 1);
        match body.lowered_inst(functions, base, n - 1) {
            Inst::Call { hash, args } => record_call(
                prev,
                hash,
                CallSite { span: body.instructions@[n - 1].span, source_id: body.location.source_id },
            ),
            _ => prev,
        }
    }
}

/// The debug records after the first `n` instructions of an assembly that
/// starts at the offset `base`: the instruction at position `i` has its
/// record at `base + i`.
pub open spec fn debug_records(
    instructions: Map<usize, DebugInstView>,
    body: &Assembly,
    source_id: SourceId,
    base: usize,
    n: int,
) -> Map<usize, DebugInstView> {
    Map::new(
        |k: usize| instructions.contains_key(k) || base <= k < base + n,
        |k: usize|
            if base <= k < base + n {
                body.debug_record(source_id, k - base)
            } else {
                instructions[k]
            },
    )
}

impl BuilderView {
    /// The assembler after the first `n` instructions of an assembly were
    /// lowered at the offset `base`.
    pub open spec fn with_assembly(self, body: &Assembly, source_id: SourceId, base: usize, n: int) -> BuilderView {
        BuilderView {
            required_functions: calls_recorded(self.required_functions, self.functions, body, base, n),
            debug: Some(
                DebugInfoView {
                    instructions: debug_records(self.debug_or_empty().instructions, body, source_id, base, n),
                    ..self.debug_or_empty()
                },
            ),
            ..self
        }
    }

    /// The assembler after an assembly was lowered at the offset `base`:
    /// its calls are recorded, its instructions have their debug records,
    /// and labels are numbered on from where the assembly stopped.
    pub open spec fn add_assembly(self, body: &Assembly, source_id: SourceId, base: usize) -> BuilderView {
        BuilderView {
            label_count: body.label_count,
            ..self.with_assembly(body, source_id, base, body.instructions@.len() as int)
        }
    }

    /// The assembler with the debug record of an instruction added.
    pub open spec fn with_debug_inst(self, at: usize, inst: DebugInstView) -> BuilderView {
        BuilderView {
            debug: Some(
                DebugInfoView {
                    instructions: self.debug_or_empty().instructions.insert(at, inst),
                    ..self.debug_or_empty()
                },
            ),
            ..self
        }
    }
}

/// The fingerprint of the function `name` of the type `type_hash`.
pub open spec fn instance_hash(type_hash: crate::hash::Hash, name: Seq<char>) -> u64 {
    associated_function_hash(type_hash.0, ident_hash(encode_utf8(name)))
}

/// Whether a fingerprint is registered as a re-export.
pub open spec fn is_reexported(reexports: Seq<ReExport>, from: crate::hash::Hash) -> bool {
    exists|i: int| 0 <= i < reexports.len() && (#[trigger] reexports[i]).from == from
}

impl BuilderView {
    /// Declares a function at an offset: an entry of the function table
    /// with its signature, the constant of its name, and the offset in the
    /// reverse table. A function under the same fingerprint is a conflict
    /// that names the fingerprint and holds the signature of the function
    /// that is there.
    pub open spec fn declare_function(
        self,
        hash: u64,
        item: Seq<ComponentView>,
        info: UnitFn,
        signature: DebugSignatureView,
        offset: usize,
    ) -> Result<BuilderView, ErrorKindView> {
        if self.functions.contains_key(hash) {
            Err(
                ErrorKindView::FunctionConflict {
                    hash: crate::hash::Hash(hash),
                    existing: self.signature(hash),
                },
            )
        } else {
            let next = self.with_function(hash, info).with_type_name(hash, item).with_signature(
                hash,
                signature,
            );
            Ok(
                BuilderView {
                    functions_rev: next.functions_rev.insert(offset, crate::hash::Hash(hash)),
                    ..next
                },
            )
        }
    }

    /// Declares a function at an offset under the fingerprint of its path
    /// and, where it is a method, also under the fingerprint of its name
    /// in its type. The method's fingerprint is taken first.
    pub open spec fn new_function(
        self,
        item: Seq<ComponentView>,
        instance: Option<(crate::hash::Hash, Seq<char>)>,
        args: usize,
        call: Call,
        debug_args: Seq<Seq<char>>,
        offset: usize,
    ) -> Result<BuilderView, ErrorKindView> {
        let info = UnitFn::Offset { offset, call, args };
        let signature = DebugSignatureView { path: item, args: DebugArgsView::Named(debug_args) };
        let hash = type_hash_of(item);
        match instance {
            Some((type_hash, name)) => {
                let instance_fn = instance_hash(type_hash, name);
                if self.functions.contains_key(instance_fn) {
                    Err(
                        ErrorKindView::FunctionConflict {
                            hash: crate::hash::Hash(instance_fn),
                            existing: self.signature(instance_fn),
                        },
                    )
                } else {
                    self.with_function(instance_fn, info).with_signature(
                        instance_fn,
                        signature,
                    ).declare_function(hash, item, info, signature, offset)
                }
            },
            None => self.declare_function(hash, item, info, signature, offset),
        }
    }

    /// Where a fingerprint leads: to itself if it is a function or a
    /// constant, else through the re-export that it is the alias of, to
    /// where the target of that leads. A fingerprint that is neither
    /// function, constant nor alias is missing; so is one at which `fuel`
    /// steps are used up, which happens only where aliases form a circle
    /// if `fuel` is the number of re-exports.
    pub open spec fn alias_end(self, hash: crate::hash::Hash, fuel: nat) -> AliasEnd
        decreases fuel,
    {
        if self.functions.contains_key(hash.0) {
            AliasEnd::Function(hash)
        } else if self.constants.contains_key(hash.0) {
            AliasEnd::Constant(hash)
        } else if fuel > 0 {
            match alias_target(self.reexports, hash) {
                Some(to) => self.alias_end(to, (fuel - 1) as nat),
                None => AliasEnd::Missing(hash),
            }
        } else {
            AliasEnd::Missing(hash)
        }
    }

    /// What a re-export resolves to: the entry that its target leads to,
    /// through any number of aliases, to be copied under its own
    /// fingerprint. A target that leads to a missing fingerprint fails and
    /// names that fingerprint; an own fingerprint that is a function or a
    /// constant already is a conflict.
    pub open spec fn resolution(self, reexport: ReExport) -> Result<ResolutionView, ErrorKindView> {
        let from = reexport.from;
        match self.alias_end(reexport.to, self.reexports.len()) {
            AliasEnd::Function(end) => if self.functions.contains_key(from.0) {
                Err(ErrorKindView::FunctionConflictHash { hash: from })
            } else if self.constants.contains_key(from.0) {
                Err(ErrorKindView::ConstantConflict { hash: from })
            } else {
                Ok(
                    ResolutionView::Function {
                        from,
                        info: self.functions[end.0],
                        signature: self.signature(end.0),
                    },
                )
            },
            AliasEnd::Constant(end) => if self.constants.contains_key(from.0) {
                Err(ErrorKindView::ConstantConflict { hash: from })
            } else if self.functions.contains_key(from.0) {
                Err(ErrorKindView::FunctionConflictHash { hash: from })
            } else {
                Ok(ResolutionView::Constant { from, value: self.constants[end.0] })
            },
            AliasEnd::Missing(end) => Err(ErrorKindView::MissingFunctionHash { hash: end }),
        }
    }

    /// The assembler with what a re-export resolved to: the entry under
    /// the fingerprint of the alias, a function with its signature.
    pub open spec fn with_resolution(self, resolution: ResolutionView) -> BuilderView {
        match resolution {
            ResolutionView::Function { from, info, signature } => self.with_function(
                from.0,
                info,
            ).with_signature(from.0, signature),
            ResolutionView::Constant { from, value } => BuilderView {
                constants: self.constants.insert(from.0, value),
                ..self
            },
        }
    }

    /// The assembler with the first `n` re-exports of `registered`
    /// resolved: each is resolved against the tables as `registered` has
    /// them, so that the order of the re-exports does not matter to what
    /// an alias stands for. The first re-export that fails ends the
    /// resolving with its error.
    pub open spec fn resolved(self, registered: BuilderView, n: int) -> Result<BuilderView, ErrorKindView>
        decreases n,
    {
        if n <= 0 {
            Ok(self)
        } else {
            match self.resolved(registered, n - 1) {
                Ok(next) => match registered.resolution(registered.reexports[n - 1]) {
                    Ok(resolution) => Ok(next.with_resolution(resolution)),
                    Err(kind) => Err(kind),
                },
                Err(kind) => Err(kind),
            }
        }
    }

    /// The assembler with its first `n` re-exports resolved.
    pub open spec fn resolve_reexports(self, n: int) -> Result<BuilderView, ErrorKindView> {
        self.resolved(self, n)
    }

    /// The unit that the assembler comes to with the given instruction
    /// stream, once its re-exports are resolved.
    pub open spec fn finished(self, instructions: Seq<Inst>) -> UnitView {
        UnitView {
            instructions,
            functions: self.functions,
            static_strings: self.static_strings,
            static_bytes: self.static_bytes,
            static_object_keys: self.static_object_keys,
            rtti: self.rtti,
            variant_rtti: self.variant_rtti,
            debug: match self.debug {
                Some(d) => Some(
                    DebugInfoView { functions_rev: self.functions_rev, hash_to_ident: self.hash_to_ident, ..d },
                ),
                None => None,
            },
            constants: self.constants,
        }
    }
}

/// The diagnostic for a required function that nobody provides.
pub open spec fn missing_function(required: RequiredView) -> DiagnosticView {
    DiagnosticView {
        source_id: SourceId(usize::MAX),
        kind: DiagnosticKindView::Link(
            LinkerErrorView::MissingFunction { hash: required.hash, spans: required.spans },
        ),
    }
}

/// Whether neither the unit nor the host provides a function.
pub open spec fn is_missing(
    functions: Map<u64, UnitFn>,
    context: Map<u64, FunctionHandler>,
    hash: crate::hash::Hash,
) -> bool {
    !functions.contains_key(hash.0) && !context.contains_key(hash.0)
}

/// The diagnostics of linking: one for each required function that
/// neither the unit nor the host provides, in the order of the list.
pub open spec fn missing_functions(
    required: Seq<RequiredView>,
    functions: Map<u64, UnitFn>,
    context: Map<u64, FunctionHandler>,
) -> Seq<DiagnosticView>
    decreases required.len(),
{
    if required.len() == 0 {
        Seq::empty()
    } else {
        let rest = missing_functions(required.drop_last(), functions, context);
        if is_missing(functions, context, required.last().hash) {
            rest.push(missing_function(required.last()))
        } else {
            rest
        }
    }
}

/// An assembler that holds nothing.
pub open spec fn empty_builder() -> BuilderView {
    BuilderView {
        reexports: Seq::empty(),
        functions: Map::empty(),
        functions_rev: Map::empty(),
        static_strings: Seq::empty(),
        static_string_rev: Map::empty(),
        static_bytes: Seq::empty(),
        static_bytes_rev: Map::empty(),
        static_object_keys: Seq::empty(),
        static_object_keys_rev: Map::empty(),
        rtti: Map::empty(),
        variant_rtti: Map::empty(),
        label_count: 0,
        required_functions: Seq::empty(),
        debug: None,
        constants: Map::empty(),
        hash_to_ident: Map::empty(),
    }
}

/// What interning a value under a fingerprint comes to.
pub enum Interned<V> {
    /// The value is in the pool already, in this slot.
    Existing(usize),
    /// Another value is in the pool under the same fingerprint.
    Conflict(V),
    /// The value is new and goes to this slot.
    Fresh(usize),
}

/// What interning `value` under `hash` comes to in a pool with the given
/// slots and reverse table.
pub open spec fn interned<V>(slots: Seq<V>, rev: Map<u64, usize>, hash: u64, value: V) -> Interned<V> {
    if rev.contains_key(hash) {
        if slots[rev[hash] as int] == value {
            Interned::Existing(rev[hash])
        } else {
            Interned::Conflict(slots[rev[hash] as int])
        }
    } else {
        Interned::Fresh(slots.len() as usize)
    }
}

impl UnitBuilder {
    /// The invariant of the assembler.
    pub open spec fn wf(&self) -> bool {
        self@.wf()
    }

    /// An assembler that holds nothing.
    pub fn new() -> (builder: UnitBuilder)
        ensures
            builder.wf(),
            builder@.pools_indexed(),
            builder@ == empty_builder(),
    {
        let builder = UnitBuilder {
            reexports: Vec::new(),
            functions: HashMap::new(),
            functions_rev: HashMap::new(),
            static_strings: Vec::new(),
            static_string_rev: HashMap::new(),
            static_bytes: Vec::new(),
            static_bytes_rev: HashMap::new(),
            static_object_keys: Vec::new(),
            static_object_keys_rev: HashMap::new(),
            rtti: HashMap::new(),
            variant_rtti: HashMap::new(),
            label_count: 0,
            required_functions: Vec::new(),
            debug: None,
            constants: HashMap::new(),
            hash_to_ident: HashMap::new(),
        };
        proof {
            let v = builder@;
            let e = empty_builder();
            assert(v.static_strings =~= e.static_strings);
            assert(v.static_bytes =~= e.static_bytes);
            assert(v.static_object_keys =~= e.static_object_keys);
            assert(v.rtti =~= e.rtti);
            assert(v.variant_rtti =~= e.variant_rtti);
            assert(v.required_functions =~= e.required_functions);
            assert(v.constants =~= e.constants);
            assert(v.hash_to_ident =~= e.hash_to_ident);
        }
        builder
    }

    /// Interns a static string under a given fingerprint and returns its slot.
    ///
    /// A value that is in the pool under the fingerprint keeps its slot;
    /// another value under the same fingerprint is a conflict that names
    /// both; a new fingerprint gets the next slot.
    pub fn insert_static_string(&mut self, span: Span, hash: crate::hash::Hash, current: &str) -> (r: Result<
        usize,
        Error,
    >)
        requires
            old(self).wf(),
        ensures
            final(self).wf(),
            match interned(old(self)@.static_strings, old(self)@.static_string_rev, hash.0, current@) {
                Interned::Existing(slot) => r == Ok::<usize, Error>(slot) && final(self)@ == old(self)@,
                Interned::Conflict(existing) => ({
                    &&& r matches Err(e)
                    &&& e@ == (ErrorView {
                        span,
                        kind: ErrorKindView::StaticStringHashConflict { hash, current: current@, existing },
                    })
                    &&& final(self)@ == old(self)@
                }),
                Interned::Fresh(slot) => r == Ok::<usize, Error>(slot) && final(self)@ == (BuilderView {
                    static_strings: old(self)@.static_strings.push(current@),
                    static_string_rev: old(self)@.static_string_rev.insert(hash.0, slot),
                    ..old(self)@
                }),
            },
    {
        let found = match self.static_string_rev.get(&hash.0) {
            Some(slot) => Some(*slot),
            None => None,
        };
        let current = current.to_owned();
        if let Some(existing_slot) = found {
            let existing = &self.static_strings[existing_slot];
            if !(*existing == current) {
                return Err(
                    Error::new(
                        span,
                        ErrorKind::StaticStringHashConflict { hash, current, existing: existing.clone() },
                    ),
                );
            }
            return Ok(existing_slot);
        }
        let new_slot = self.static_strings.len();
        self.static_strings.push(current);
        self.static_string_rev.insert(hash.0, new_slot);
        proof {
            assert(self@.static_strings =~= old(self)@.static_strings.push(current@));
        }
        Ok(new_slot)
    }

    /// Interns a static byte string under a given fingerprint and returns its slot.
    ///
    /// A value that is in the pool under the fingerprint keeps its slot;
    /// another value under the same fingerprint is a conflict that names
    /// both; a new fingerprint gets the next slot.
    pub fn insert_static_bytes(&mut self, span: Span, hash: crate::hash::Hash, current: &[u8]) -> (r: Result<
        usize,
        Error,
    >)
        requires
            old(self).wf(),
        ensures
            final(self).wf(),
            match interned(old(self)@.static_bytes, old(self)@.static_bytes_rev, hash.0, current@) {
                Interned::Existing(slot) => r == Ok::<usize, Error>(slot) && final(self)@ == old(self)@,
                Interned::Conflict(existing) => ({
                    &&& r matches Err(e)
                    &&& e@ == (ErrorView {
                        span,
                        kind: ErrorKindView::StaticBytesHashConflict { hash, current: current@, existing },
                    })
                    &&& final(self)@ == old(self)@
                }),
                Interned::Fresh(slot) => r == Ok::<usize, Error>(slot) && final(self)@ == (BuilderView {
                    static_bytes: old(self)@.static_bytes.push(current@),
                    static_bytes_rev: old(self)@.static_bytes_rev.insert(hash.0, slot),
                    ..old(self)@
                }),
            },
    {
        let found = match self.static_bytes_rev.get(&hash.0) {
            Some(slot) => Some(*slot),
            None => None,
        };
        let current = clone_bytes(current);
        if let Some(existing_slot) = found {
            let existing = &self.static_bytes[existing_slot];
            if !(bytes_eq(existing.as_slice(), current.as_slice())) {
                return Err(
                    Error::new(
                        span,
                        ErrorKind::StaticBytesHashConflict { hash, current, existing: clone_bytes(existing.as_slice()) },
                    ),
                );
            }
            return Ok(existing_slot);
        }
        let new_slot = self.static_bytes.len();
        self.static_bytes.push(current);
        self.static_bytes_rev.insert(hash.0, new_slot);
        proof {
            assert(self@.static_bytes =~= old(self)@.static_bytes.push(current@));
        }
        Ok(new_slot)
    }

    /// Interns a list of object keys under a given fingerprint and returns its slot.
    ///
    /// A value that is in the pool under the fingerprint keeps its slot;
    /// another value under the same fingerprint is a conflict that names
    /// both; a new fingerprint gets the next slot.
    pub fn insert_static_object_keys(&mut self, span: Span, hash: crate::hash::Hash, current: Vec<String>) -> (r: Result<
        usize,
        Error,
    >)
        requires
            old(self).wf(),
        ensures
            final(self).wf(),
            match interned(old(self)@.static_object_keys, old(self)@.static_object_keys_rev, hash.0, texts(current@)) {
                Interned::Existing(slot) => r == Ok::<usize, Error>(slot) && final(self)@ == old(self)@,
                Interned::Conflict(existing) => ({
                    &&& r matches Err(e)
                    &&& e@ == (ErrorView {
                        span,
                        kind: ErrorKindView::StaticObjectKeysHashConflict { hash, current: texts(current@), existing },
                    })
                    &&& final(self)@ == old(self)@
                }),
                Interned::Fresh(slot) => r == Ok::<usize, Error>(slot) && final(self)@ == (BuilderView {
                    static_object_keys: old(self)@.static_object_keys.push(texts(current@)),
                    static_object_keys_rev: old(self)@.static_object_keys_rev.insert(hash.0, slot),
                    ..old(self)@
                }),
            },
    {
        let found = match self.static_object_keys_rev.get(&hash.0) {
            Some(slot) => Some(*slot),
            None => None,
        };
        let current = current;
        if let Some(existing_slot) = found {
            let existing = &self.static_object_keys[existing_slot];
            if !(strings_eq(existing, &current)) {
                return Err(
                    Error::new(
                        span,
                        ErrorKind::StaticObjectKeysHashConflict { hash, current, existing: clone_strings(existing) },
                    ),
                );
            }
            return Ok(existing_slot);
        }
        let new_slot = self.static_object_keys.len();
        self.static_object_keys.push(current);
        self.static_object_keys_rev.insert(hash.0, new_slot);
        proof {
            assert(self@.static_object_keys =~= old(self)@.static_object_keys.push(texts(current@)));
        }
        Ok(new_slot)
    }

    /// Insert a static string and return its associated slot that can later be
    /// looked up through [`lookup_string`](crate::unit::Unit::lookup_string).
    ///
    /// Only uses up space if the static string is unique. The string is
    /// interned under the fingerprint of its content, so that a pool
    /// whose slots are all indexed by their content stays so.
    pub fn new_static_string(&mut self, span: Span, current: &str) -> (r: Result<usize, Error>)
        requires
            old(self).wf(),
        ensures
            final(self).wf(),
            old(self)@.pools_indexed() ==> final(self)@.pools_indexed(),
            match interned(
                old(self)@.static_strings,
                old(self)@.static_string_rev,
                static_string_hash(encode_utf8(current@)),
                current@,
            ) {
                Interned::Existing(slot) => r == Ok::<usize, Error>(slot) && final(self)@ == old(self)@,
                Interned::Conflict(existing) => ({
                    &&& r matches Err(e)
                    &&& e@ == (ErrorView {
                        span,
                        kind: ErrorKindView::StaticStringHashConflict {
                            hash: crate::hash::Hash(static_string_hash(encode_utf8(current@))),
                            current: current@,
                            existing,
                        },
                    })
                    &&& final(self)@ == old(self)@
                }),
                Interned::Fresh(slot) => r == Ok::<usize, Error>(slot) && final(self)@ == (BuilderView {
                    static_strings: old(self)@.static_strings.push(current@),
                    static_string_rev: old(self)@.static_string_rev.insert(
                        static_string_hash(encode_utf8(current@)),
                        slot,
                    ),
                    ..old(self)@
                }),
            },
    {
        let hash = crate::hash::Hash::static_string(current);
        let r = self.insert_static_string(span, hash, current);
        proof {
            if old(self)@.pools_indexed() && !old(self)@.static_string_rev.contains_key(hash.0) {
                assert(old(self)@.static_strings.len() == old(self).static_strings.len());
                lemma_strings_stay_indexed(old(self)@.static_strings, old(self)@.static_string_rev, current@);
            }
        }
        r
    }

    /// Insert a static byte string and return its associated slot that can
    /// later be looked up through [`lookup_bytes`](crate::unit::Unit::lookup_bytes).
    ///
    /// Only uses up space if the static byte string is unique. The byte
    /// string is interned under the fingerprint of its content.
    pub fn new_static_bytes(&mut self, span: Span, current: &[u8]) -> (r: Result<usize, Error>)
        requires
            old(self).wf(),
        ensures
            final(self).wf(),
            old(self)@.pools_indexed() ==> final(self)@.pools_indexed(),
            match interned(
                old(self)@.static_bytes,
                old(self)@.static_bytes_rev,
                static_bytes_hash(current@),
                current@,
            ) {
                Interned::Existing(slot) => r == Ok::<usize, Error>(slot) && final(self)@ == old(self)@,
                Interned::Conflict(existing) => ({
                    &&& r matches Err(e)
                    &&& e@ == (ErrorView {
                        span,
                        kind: ErrorKindView::StaticBytesHashConflict {
                            hash: crate::hash::Hash(static_bytes_hash(current@)),
                            current: current@,
                            existing,
                        },
                    })
                    &&& final(self)@ == old(self)@
                }),
                Interned::Fresh(slot) => r == Ok::<usize, Error>(slot) && final(self)@ == (BuilderView {
                    static_bytes: old(self)@.static_bytes.push(current@),
                    static_bytes_rev: old(self)@.static_bytes_rev.insert(static_bytes_hash(current@), slot),
                    ..old(self)@
                }),
            },
    {
        let hash = crate::hash::Hash::static_bytes(current);
        let r = self.insert_static_bytes(span, hash, current);
        proof {
            if old(self)@.pools_indexed() && !old(self)@.static_bytes_rev.contains_key(hash.0) {
                assert(old(self)@.static_bytes.len() == old(self).static_bytes.len());
                lemma_bytes_stay_indexed(old(self)@.static_bytes, old(self)@.static_bytes_rev, current@);
            }
        }
        r
    }

    /// Insert a new collection of static object keys, given as string
    /// slices, or return one already existing.
    pub fn new_static_object_keys_iter(&mut self, span: Span, current: &Vec<&str>) -> (r: Result<usize, Error>)
        requires
            old(self).wf(),
        ensures
            final(self).wf(),
            old(self)@.pools_indexed() ==> final(self)@.pools_indexed(),
            match interned(
                old(self)@.static_object_keys,
                old(self)@.static_object_keys_rev,
                object_keys_hash(key_bytes(slices(current@))),
                slices(current@),
            ) {
                Interned::Existing(slot) => r == Ok::<usize, Error>(slot) && final(self)@ == old(self)@,
                Interned::Conflict(existing) => ({
                    &&& r matches Err(e)
                    &&& e@ == (ErrorView {
                        span,
                        kind: ErrorKindView::StaticObjectKeysHashConflict {
                            hash: crate::hash::Hash(object_keys_hash(key_bytes(slices(current@)))),
                            current: slices(current@),
                            existing,
                        },
                    })
                    &&& final(self)@ == old(self)@
                }),
                Interned::Fresh(slot) => r == Ok::<usize, Error>(slot) && final(self)@ == (BuilderView {
                    static_object_keys: old(self)@.static_object_keys.push(slices(current@)),
                    static_object_keys_rev: old(self)@.static_object_keys_rev.insert(
                        object_keys_hash(key_bytes(slices(current@))),
                        slot,
                    ),
                    ..old(self)@
                }),
            },
    {
        let mut owned: Vec<String> = Vec::with_capacity(current.len());
        let mut i: usize = 0;
        while i < current.len()
            invariant
                i <= current.len(),
                owned.len() == i,
                forall|j: int| 0 <= j < i ==> owned@[j]@ == current@[j]@,
            decreases current.len() - i,
        {
            owned.push(current[i].to_owned());
            i += 1;
        }
        assert(texts(owned@) =~= slices(current@));
        self.new_static_object_keys(span, owned)
    }

    /// Insert a new collection of static object keys, or return one already
    /// existing. The keys are interned under the fingerprint of their
    /// contents, in the order given.
    pub fn new_static_object_keys(&mut self, span: Span, current: Vec<String>) -> (r: Result<usize, Error>)
        requires
            old(self).wf(),
        ensures
            final(self).wf(),
            old(self)@.pools_indexed() ==> final(self)@.pools_indexed(),
            match interned(
                old(self)@.static_object_keys,
                old(self)@.static_object_keys_rev,
                object_keys_hash(key_bytes(texts(current@))),
                texts(current@),
            ) {
                Interned::Existing(slot) => r == Ok::<usize, Error>(slot) && final(self)@ == old(self)@,
                Interned::Conflict(existing) => ({
                    &&& r matches Err(e)
                    &&& e@ == (ErrorView {
                        span,
                        kind: ErrorKindView::StaticObjectKeysHashConflict {
                            hash: crate::hash::Hash(object_keys_hash(key_bytes(texts(current@)))),
                            current: texts(current@),
                            existing,
                        },
                    })
                    &&& final(self)@ == old(self)@
                }),
                Interned::Fresh(slot) => r == Ok::<usize, Error>(slot) && final(self)@ == (BuilderView {
                    static_object_keys: old(self)@.static_object_keys.push(texts(current@)),
                    static_object_keys_rev: old(self)@.static_object_keys_rev.insert(
                        object_keys_hash(key_bytes(texts(current@))),
                        slot,
                    ),
                    ..old(self)@
                }),
            },
    {
        let hash = crate::hash::Hash::object_keys(&current);
        let ghost keys = texts(current@);
        let r = self.insert_static_object_keys(span, hash, current);
        proof {
            if old(self)@.pools_indexed() && !old(self)@.static_object_keys_rev.contains_key(hash.0) {
                assert(old(self)@.static_object_keys.len() == old(self).static_object_keys.len());
                lemma_keys_stay_indexed(old(self)@.static_object_keys, old(self)@.static_object_keys_rev, keys);
            }
        }
        r
    }
}

/// The contents of a list of string slices.
pub open spec fn slices(list: Seq<&str>) -> Seq<Seq<char>> {
    list.map_values(|s: &str| s@)
}

impl UnitBuilder {
    /// Adds the signature of a function to the debug information, which
    /// is made if there was none.
    fn insert_signature(&mut self, hash: crate::hash::Hash, signature: DebugSignature)
        ensures
            final(self)@ == old(self)@.with_signature(hash.0, signature@),
    {
        let mut debug = match self.debug.take() {
            Some(d) => d,
            None => DebugInfo::new(),
        };
        debug.functions.insert(hash.0, signature);
        proof {
            assert(debug@.functions =~= old(self)@.debug_or_empty().functions.insert(hash.0, signature@));
        }
        self.debug = Some(debug);
    }

    /// Adds the name of a type as a constant.
    fn insert_type_name(&mut self, type_hash: crate::hash::Hash, item: &ItemBuf)
        ensures
            final(self)@ == old(self)@.with_type_name(type_hash.0, item@),
    {
        let key = crate::hash::Hash::associated_function(type_hash, crate::hash::Hash(INTO_TYPE_NAME));
        let value = ConstValue::String(item.to_string());
        self.constants.insert(key.0, value);
        proof {
            assert(self@.constants =~= old(self)@.constants.insert(
                type_name_hash(type_hash.0),
                ConstView::String(item_text(item@)),
            ));
        }
    }

    /// Adds a type descriptor.
    fn insert_rtti(&mut self, hash: crate::hash::Hash, item: &ItemBuf)
        ensures
            final(self)@ == old(self)@.with_rtti(hash, item@),
    {
        self.rtti.insert(hash.0, Rtti { hash, item: item.to_owned() });
        proof {
            assert(self@.rtti =~= old(self)@.rtti.insert(hash.0, RttiView { hash, item: item@ }));
        }
    }

    /// Adds a variant descriptor.
    fn insert_variant_rtti(&mut self, enum_hash: crate::hash::Hash, hash: crate::hash::Hash, item: &ItemBuf)
        ensures
            final(self)@ == old(self)@.with_variant_rtti(enum_hash, hash, item@),
    {
        self.variant_rtti.insert(hash.0, VariantRtti { enum_hash, hash, item: item.to_owned() });
        proof {
            assert(self@.variant_rtti =~= old(self)@.variant_rtti.insert(
                hash.0,
                VariantRttiView { enum_hash, hash, item: item@ },
            ));
        }
    }

    /// The signature of a function of the table.
    fn existing_signature(&self, hash: crate::hash::Hash) -> (signature: DebugSignature)
        requires
            self.wf(),
            self@.functions.contains_key(hash.0),
        ensures
            signature@ == self@.signature(hash.0),
    {
        proof {
            assert(has_signature(self@.debug, hash.0));
        }
        match &self.debug {
            Some(debug) => match debug.functions.get(&hash.0) {
                Some(signature) => signature.to_owned(),
                None => vstd::pervasive::unreached(),
            },
            None => vstd::pervasive::unreached(),
        }
    }

    /// Declares a type without a constructor.
    fn declare_type(&mut self, span: Span, hash: crate::hash::Hash, item: &ItemBuf) -> (r: Result<(), Error>)
        requires
            old(self).wf(),
        ensures
            final(self).wf(),
            outcome(old(self)@, final(self)@, r, span, old(self)@.declare_type(hash, item@)),
    {
        if self.rtti.get(&hash.0).is_some() {
            return Err(Error::new(span, ErrorKind::TypeRttiConflict { hash }));
        }
        self.insert_rtti(hash, item);
        self.insert_type_name(hash, item);
        Ok(())
    }

    /// Declares a struct with a constructor.
    fn declare_struct(
        &mut self,
        span: Span,
        hash: crate::hash::Hash,
        item: &ItemBuf,
        info: UnitFn,
        args: DebugArgs,
    ) -> (r: Result<(), Error>)
        requires
            old(self).wf(),
        ensures
            final(self).wf(),
            outcome(old(self)@, final(self)@, r, span, old(self)@.declare_struct(hash, item@, info, args@)),
    {
        if self.rtti.get(&hash.0).is_some() {
            return Err(Error::new(span, ErrorKind::TypeRttiConflict { hash }));
        }
        if self.functions.get(&hash.0).is_some() {
            let existing = self.existing_signature(hash);
            return Err(Error::new(span, ErrorKind::FunctionConflict { hash, existing }));
        }
        self.insert_rtti(hash, item);
        self.functions.insert(hash.0, info);
        self.insert_type_name(hash, item);
        self.insert_signature(hash, DebugSignature::new(item.to_owned(), args));
        Ok(())
    }

    /// Declares a variant without a constructor.
    fn declare_variant(
        &mut self,
        span: Span,
        enum_hash: crate::hash::Hash,
        hash: crate::hash::Hash,
        item: &ItemBuf,
    ) -> (r: Result<(), Error>)
        requires
            old(self).wf(),
        ensures
            final(self).wf(),
            outcome(old(self)@, final(self)@, r, span, old(self)@.declare_variant(enum_hash, hash, item@)),
    {
        if self.variant_rtti.get(&hash.0).is_some() {
            return Err(Error::new(span, ErrorKind::VariantRttiConflict { hash }));
        }
        self.insert_variant_rtti(enum_hash, hash, item);
        Ok(())
    }

    /// Declares a variant with a constructor.
    fn declare_variant_constructor(
        &mut self,
        span: Span,
        enum_hash: crate::hash::Hash,
        hash: crate::hash::Hash,
        item: &ItemBuf,
        info: UnitFn,
        args: DebugArgs,
    ) -> (r: Result<(), Error>)
        requires
            old(self).wf(),
        ensures
            final(self).wf(),
            outcome(
                old(self)@,
                final(self)@,
                r,
                span,
                old(self)@.declare_variant_constructor(enum_hash, hash, item@, info, args@),
            ),
    {
        if self.variant_rtti.get(&hash.0).is_some() {
            return Err(Error::new(span, ErrorKind::VariantRttiConflict { hash }));
        }
        if self.functions.get(&hash.0).is_some() {
            let existing = self.existing_signature(hash);
            return Err(Error::new(span, ErrorKind::FunctionConflict { hash, existing }));
        }
        self.insert_variant_rtti(enum_hash, hash, item);
        self.functions.insert(hash.0, info);
        self.insert_signature(hash, DebugSignature::new(item.to_owned(), args));
        Ok(())
    }

    /// Registers a declaration.
    ///
    /// What is registered depends on the kind of the declaration, as
    /// [`BuilderView::insert_meta`] says. A declaration whose fingerprint is
    /// taken fails with a conflict, and a constant without a value fails;
    /// the assembler is then left as it was.
    pub fn insert_meta(&mut self, span: Span, meta: &Meta, query: &QueryInner) -> (r: Result<(), Error>)
        requires
            old(self).wf(),
        ensures
            final(self).wf(),
            outcome(
                old(self)@,
                final(self)@,
                r,
                span,
                old(self)@.insert_meta(meta, const_value_of(query@, meta.hash.0)),
            ),
    {
        match &meta.kind {
            Kind::Type => {
                let hash = crate::hash::Hash::type_hash(&meta.item);
                self.declare_type(span, hash, &meta.item)
            },
            Kind::Struct { fields: Fields::Empty } => self.declare_struct(
                span,
                meta.hash,
                &meta.item,
                UnitFn::EmptyStruct { hash: meta.hash },
                DebugArgs::EmptyArgs,
            ),
            Kind::Struct { fields: Fields::Unnamed(args) } => self.declare_struct(
                span,
                meta.hash,
                &meta.item,
                UnitFn::TupleStruct { hash: meta.hash, args: *args },
                DebugArgs::TupleArgs(*args),
            ),
            Kind::Struct { fields: Fields::Named(_) } => {
                let hash = crate::hash::Hash::type_hash(&meta.item);
                self.declare_type(span, hash, &meta.item)
            },
            Kind::Variant { enum_hash, fields: Fields::Empty } => self.declare_variant_constructor(
                span,
                *enum_hash,
                meta.hash,
                &meta.item,
                UnitFn::UnitVariant { hash: meta.hash },
                DebugArgs::EmptyArgs,
            ),
            Kind::Variant { enum_hash, fields: Fields::Unnamed(args) } => self.declare_variant_constructor(
                span,
                *enum_hash,
                meta.hash,
                &meta.item,
                UnitFn::TupleVariant { hash: meta.hash, args: *args },
                DebugArgs::TupleArgs(*args),
            ),
            Kind::Variant { enum_hash, fields: Fields::Named(_) } => {
                let hash = crate::hash::Hash::type_hash(&meta.item);
                self.declare_variant(span, *enum_hash, hash, &meta.item)
            },
            Kind::Enum => self.declare_type(span, meta.hash, &meta.item),
            Kind::Const => {
                match query.get_const_value(meta.hash) {
                    Some(value) => {
                        let value = value.duplicate();
                        self.constants.insert(meta.hash.0, value);
                        proof {
                            assert(self@.constants =~= old(self)@.constants.insert(meta.hash.0, value@));
                        }
                        Ok(())
                    },
                    None => Err(Error::new(span, ErrorKind::MissingConstant { hash: meta.hash })),
                }
            },
            _ => Ok(()),
        }
    }
}

impl Default for UnitBuilder {
    fn default() -> (builder: UnitBuilder)
        ensures
            builder.wf(),
            builder@ == empty_builder(),
    {
        UnitBuilder::new()
    }
}

/// How an operation that may fail relates the assembler before and after
/// it to what the operation comes to: on success the assembler is the new
/// one; on failure the error is the expected one at the given span, and
/// the assembler is as it was.
pub open spec fn outcome(
    before: BuilderView,
    after: BuilderView,
    r: Result<(), Error>,
    span: Span,
    expected: Result<BuilderView, ErrorKindView>,
) -> bool {
    match expected {
        Ok(next) => r is Ok && after == next,
        Err(kind) => r matches Err(e) && e@ == (ErrorView { span, kind }) && after == before,
    }
}

impl UnitBuilder {
    /// Records a call to a function whose offset is not known.
    fn record_required(&mut self, hash: crate::hash::Hash, site: CallSite)
        requires
            old(self).wf(),
        ensures
            final(self).wf(),
            final(self)@ == (BuilderView {
                required_functions: record_call(old(self)@.required_functions, hash, site),
                ..old(self)@
            }),
    {
        let mut i: usize = 0;
        while i < self.required_functions.len()
            invariant
                i <= self.required_functions.len(),
                *self == *old(self),
                old(self).wf(),
                forall|j: int| 0 <= j < i ==> (#[trigger] self.required_functions@[j]).hash != hash,
            decreases self.required_functions.len() - i,
        {
            if self.required_functions[i].hash == hash {
                let ghost before = self@.required_functions;
                assert(before[i as int].hash == hash);
                self.required_functions[i].spans.push(site);
                proof {
                    let after = self@.required_functions;
                    assert(after.len() == before.len());
                    assert forall|j: int| 0 <= j < before.len() implies #[trigger] after[j]
                        == record_call(before, hash, site)[j] by {
                        if j != i {
                            assert(before[j].hash != before[i as int].hash);
                        }
                    }
                    assert(after =~= record_call(before, hash, site));
                }
                return ;
            }
            i += 1;
        }
        let ghost before = self@.required_functions;
        let mut spans: Vec<CallSite> = Vec::new();
        spans.push(site);
        self.required_functions.push(RequiredFunction { hash, spans });
        proof {
            assert(!listed(before, hash)) by {
                if listed(before, hash) {
                    let k = choose|k: int| 0 <= k < before.len() && (#[trigger] before[k]).hash == hash;
                    assert(old(self).required_functions@[k].hash == hash);
                }
            }
            assert(spans@ =~= seq![site]);
            assert(self@.required_functions =~= record_call(before, hash, site));
        }
    }

    /// Adds the debug record of the instruction at the offset `at`.
    fn insert_debug_inst(&mut self, at: usize, inst: DebugInst)
        ensures
            final(self)@ == old(self)@.with_debug_inst(at, inst@),
    {
        let mut debug = match self.debug.take() {
            Some(d) => d,
            None => DebugInfo::new(),
        };
        debug.instructions.insert(at, inst);
        proof {
            assert(debug@.instructions =~= old(self)@.debug_or_empty().instructions.insert(at, inst@));
        }
        self.debug = Some(debug);
    }

    /// Lowers the given assembly into instructions.
    ///
    /// Every jump gets the absolute offset of its label. A call to a
    /// function that the table holds at an offset becomes a call by
    /// offset; any other call is recorded as required. Each instruction
    /// gets a debug record.
    ///
    /// Where a jump names a label that is bound nowhere, the first such
    /// jump is reported at its span, and neither the assembler nor the
    /// instruction stream changes.
    pub fn add_assembly(&mut self, location: Location, assembly: Assembly, storage: &mut ArrayUnit) -> (r: Result<
        (),
        Error,
    >)
        requires
            old(self).wf(),
            assembly.wf(),
            old(storage)@.len() + assembly.instructions@.len() <= usize::MAX,
        ensures
            final(self).wf(),
            match assembly.first_unbound(0) {
                Some(i) => ({
                    &&& r matches Err(e)
                    &&& e@ == missing_label(&assembly, i)
                    &&& final(self)@ == old(self)@
                    &&& final(storage)@ == old(storage)@
                }),
                None => ({
                    &&& r is Ok
                    &&& final(self)@ == old(self)@.add_assembly(
                        &assembly,
                        location.source_id,
                        old(storage)@.len() as usize,
                    )
                    &&& final(storage)@ == old(storage)@ + assembly.lowered(
                        old(self)@.functions,
                        old(storage)@.len() as usize,
                    )
                }),
            },
    {
        match check_labels(&assembly) {
            Ok(()) => {},
            Err(e) => {
                return Err(e);
            },
        }
        let n = assembly.instructions.len();
        let base = storage.offset();
        if self.debug.is_none() {
            self.debug = Some(DebugInfo::new());
        }
        proof {
            let v = old(self)@.with_assembly(&assembly, location.source_id, base, 0);
            assert(v.debug->0.instructions =~= old(self)@.debug_or_empty().instructions);
            assert(storage@ =~= old(storage)@ + assembly.lowered(old(self)@.functions, base).take(0));
        }
        let mut pos: usize = 0;
        while pos < n
            invariant
                pos <= n,
                n == assembly.instructions@.len(),
                assembly.wf(),
                assembly.first_unbound(0) is None,
                self.wf(),
                base == old(storage)@.len(),
                base + n <= usize::MAX,
                self@ == old(self)@.with_assembly(&assembly, location.source_id, base, pos as int),
                storage@ == old(storage)@ + assembly.lowered(old(self)@.functions, base).take(pos as int),
            decreases n - pos,
        {
            let entry = &assembly.instructions[pos];
            proof {
                lemma_no_unbound(&assembly, 0, pos as int);
            }
            let jump = match label_of(&entry.inst) {
                Some(label) => match assembly.jump_of(label) {
                    Some(position) => {
                        proof {
                            lemma_bound_in_range(assembly.labels@, label.index, n as int);
                        }
                        base + position
                    },
                    None => 0,
                },
                None => 0,
            };
            let inst = resolve(&self.functions, &entry.inst, jump);
            assert(inst == assembly.lowered_inst(old(self)@.functions, base, pos as int));
            storage.encode(inst);
            if let Inst::Call { hash, args } = inst {
                self.record_required(
                    hash,
                    CallSite { span: entry.span, source_id: assembly.location.source_id },
                );
            }
            let labels = debug_labels(&assembly.labels, pos);
            let comment = comment_of(entry);
            let record = DebugInst::new(location.source_id, entry.span, comment, labels);
            assert(record@ == assembly.debug_record(location.source_id, pos as int));
            self.insert_debug_inst(base + pos, record);
            proof {
                let next = old(self)@.with_assembly(&assembly, location.source_id, base, pos + 1);
                assert(self@.debug->0.instructions =~= next.debug->0.instructions);
                assert(self@.required_functions == next.required_functions);
                assert(storage@ =~= old(storage)@ + assembly.lowered(old(self)@.functions, base).take(
                    pos + 1,
                ));
            }
            pos += 1;
        }
        self.label_count = assembly.label_count;
        proof {
            assert(assembly.lowered(old(self)@.functions, base).take(n as int) =~= assembly.lowered(
                old(self)@.functions,
                base,
            ));
        }
        Ok(())
    }
}

/// The error for the jump at `i` of an assembly, whose label is bound
/// nowhere: it names the label, at the span of the jump.
pub open spec fn missing_label(body: &Assembly, i: int) -> ErrorView {
    let label = target_label(body.instructions@[i].inst)->0;
    ErrorView {
        span: body.instructions@[i].span,
        kind: ErrorKindView::MissingLabelLocation { name: label.name@, index: label.index },
    }
}

/// Where no jump from `from` on lacks its label, the jump at `i` has its
/// label.
pub proof fn lemma_no_unbound(body: &Assembly, from: int, i: int)
    requires
        0 <= from <= i < body.instructions@.len(),
        body.first_unbound(from) is None,
    ensures
        !body.is_unbound(i),
    decreases i - from,
{
    if from < i {
        lemma_no_unbound(body, from + 1, i);
    }
}

/// A label that is bound is bound to a position that some binding holds.
pub proof fn lemma_bound_in_range(labels: Seq<BoundLabel>, index: usize, limit: int)
    requires
        forall|i: int| 0 <= i < labels.len() ==> (#[trigger] labels[i]).position <= limit,
        bound_at(labels, index) is Some,
    ensures
        bound_at(labels, index)->0 <= limit,
    decreases labels.len(),
{
    if labels.len() > 0 && labels[0].label.index != index {
        assert forall|i: int| 0 <= i < labels.drop_first().len() implies (
        #[trigger] labels.drop_first()[i]).position <= limit by {
            assert(labels.drop_first()[i] == labels[i + 1]);
        }
        lemma_bound_in_range(labels.drop_first(), index, limit);
    }
}

/// Checks that every jump of an assembly has its label.
pub fn check_labels(assembly: &Assembly) -> (r: Result<(), Error>)
    ensures
        match assembly.first_unbound(0) {
            Some(i) => r matches Err(e) && e@ == missing_label(assembly, i),
            None => r is Ok,
        },
{
    let n = assembly.instructions.len();
    let mut i: usize = 0;
    while i < n
        invariant
            i <= n,
            n == assembly.instructions@.len(),
            assembly.first_unbound(0) == assembly.first_unbound(i as int),
        decreases n - i,
    {
        if let Some(label) = label_of(&assembly.instructions[i].inst) {
            if assembly.jump_of(label).is_none() {
                return Err(
                    Error::new(
                        assembly.instructions[i].span,
                        ErrorKind::MissingLabelLocation { name: label.name, index: label.index },
                    ),
                );
            }
        }
        i += 1;
    }
    Ok(())
}

impl UnitBuilder {
    /// Insert an identifier for debug purposes.
    pub fn insert_debug_ident(&mut self, ident: &str)
        ensures
            final(self)@ == (BuilderView {
                hash_to_ident: old(self)@.hash_to_ident.insert(ident_hash(encode_utf8(ident@)), ident@),
                ..old(self)@
            }),
    {
        let hash = crate::hash::Hash::ident(ident);
        self.hash_to_ident.insert(hash.0, ident.to_owned());
        proof {
            assert(self@.hash_to_ident =~= old(self)@.hash_to_ident.insert(
                ident_hash(encode_utf8(ident@)),
                ident@,
            ));
        }
    }

    /// Construct a new empty assembly associated with the current unit.
    pub fn new_assembly(&self, location: Location) -> (assembly: Assembly)
        ensures
            assembly.wf(),
            assembly.location == location,
            assembly.labels@ == Seq::<BoundLabel>::empty(),
            assembly.instructions@.len() == 0,
            assembly.label_count == self@.label_count,
    {
        Assembly::new(location, self.label_count)
    }

    /// Register a new function re-export: the path `item` stands for the
    /// function or constant at the path `target`. A path that is a
    /// re-export already is refused, and nothing changes.
    pub fn new_function_reexport(&mut self, location: Location, item: &ItemBuf, target: &ItemBuf) -> (r: Result<
        (),
        Error,
    >)
        requires
            old(self).wf(),
        ensures
            final(self).wf(),
            outcome(
                old(self)@,
                final(self)@,
                r,
                location.span,
                if is_reexported(old(self)@.reexports, crate::hash::Hash(type_hash_of(item@))) {
                    Err(
                        ErrorKindView::FunctionReExportConflict {
                            hash: crate::hash::Hash(type_hash_of(item@)),
                        },
                    )
                } else {
                    Ok(
                        BuilderView {
                            reexports: old(self)@.reexports.push(
                                ReExport {
                                    from: crate::hash::Hash(type_hash_of(item@)),
                                    to: crate::hash::Hash(type_hash_of(target@)),
                                },
                            ),
                            ..old(self)@
                        },
                    )
                },
            ),
    {
        let hash = crate::hash::Hash::type_hash(item);
        let target = crate::hash::Hash::type_hash(target);
        let mut i: usize = 0;
        while i < self.reexports.len()
            invariant
                i <= self.reexports.len(),
                *self == *old(self),
                old(self).wf(),
                forall|j: int| 0 <= j < i ==> (#[trigger] self.reexports@[j]).from != hash,
                hash.0 == type_hash_of(item@),
            decreases self.reexports.len() - i,
        {
            if self.reexports[i].from == hash {
                assert(self@.reexports[i as int].from == hash);
                return Err(Error::new(location.span, ErrorKind::FunctionReExportConflict { hash }));
            }
            i += 1;
        }
        self.reexports.push(ReExport { from: hash, to: target });
        Ok(())
    }

    /// Declare a new function at the current instruction pointer.
    ///
    /// The function is registered under the fingerprint of its path and,
    /// where `instance` gives its type and name, also under the
    /// fingerprint of that method. Its body is then lowered as
    /// [`add_assembly`](Self::add_assembly) says, with the function
    /// itself in the table.
    ///
    /// Where a fingerprint is taken, or a jump of the body has no label,
    /// the error says so and neither the assembler nor the instruction
    /// stream changes.
    pub fn new_function(
        &mut self,
        location: Location,
        item: &ItemBuf,
        instance: Option<(crate::hash::Hash, &str)>,
        args: usize,
        assembly: Assembly,
        call: Call,
        debug_args: Vec<String>,
        unit_storage: &mut ArrayUnit,
    ) -> (r: Result<(), Error>)
        requires
            old(self).wf(),
            assembly.wf(),
            old(unit_storage)@.len() + assembly.instructions@.len() <= usize::MAX,
        ensures
            final(self).wf(),
            match old(self)@.new_function(
                item@,
                instance_view(instance),
                args,
                call,
                texts(debug_args@),
                old(unit_storage)@.len() as usize,
            ) {
                Err(kind) => ({
                    &&& r matches Err(e)
                    &&& e@ == (ErrorView { span: location.span, kind })
                    &&& final(self)@ == old(self)@
                    &&& final(unit_storage)@ == old(unit_storage)@
                }),
                Ok(next) => match assembly.first_unbound(0) {
                    Some(i) => ({
                        &&& r matches Err(e)
                        &&& e@ == missing_label(&assembly, i)
                        &&& final(self)@ == old(self)@
                        &&& final(unit_storage)@ == old(unit_storage)@
                    }),
                    None => ({
                        &&& r is Ok
                        &&& final(self)@ == next.add_assembly(
                            &assembly,
                            location.source_id,
                            old(unit_storage)@.len() as usize,
                        )
                        &&& final(unit_storage)@ == old(unit_storage)@ + assembly.lowered(
                            next.functions,
                            old(unit_storage)@.len() as usize,
                        )
                    }),
                },
            },
    {
        let offset = unit_storage.offset();
        let info = UnitFn::Offset { offset, call, args };
        let signature = DebugSignature::new(item.to_owned(), DebugArgs::Named(debug_args));
        let hash = crate::hash::Hash::type_hash(item);
        let instance_fn = match instance {
            Some((type_hash, name)) => Some(
                crate::hash::Hash::associated_function(type_hash, crate::hash::Hash::ident(name)),
            ),
            None => None,
        };
        if let Some(instance_fn) = instance_fn {
            if self.functions.get(&instance_fn.0).is_some() {
                let existing = self.existing_signature(instance_fn);
                return Err(
                    Error::new(location.span, ErrorKind::FunctionConflict { hash: instance_fn, existing }),
                );
            }
            if instance_fn.0 == hash.0 {
                return Err(
                    Error::new(location.span, ErrorKind::FunctionConflict { hash, existing: signature }),
                );
            }
        }
        if self.functions.get(&hash.0).is_some() {
            let existing = self.existing_signature(hash);
            return Err(Error::new(location.span, ErrorKind::FunctionConflict { hash, existing }));
        }
        match check_labels(&assembly) {
            Ok(()) => {},
            Err(e) => {
                return Err(e);
            },
        }
        if let Some(instance_fn) = instance_fn {
            self.functions.insert(instance_fn.0, info);
            self.insert_signature(instance_fn, signature.to_owned());
        }
        self.functions.insert(hash.0, info);
        self.insert_type_name(hash, item);
        self.insert_signature(hash, signature);
        self.functions_rev.insert(offset, hash);
        self.add_assembly(location, assembly, unit_storage)
    }

    /// Try to link the unit with the context, checking that all necessary
    /// functions are provided.
    ///
    /// Every required function that neither the unit nor the context
    /// provides gets one diagnostic with its fingerprint and every place
    /// where it is called. Linking never fails: the caller decides what
    /// the diagnostics mean.
    pub fn link(&self, context: &Context, diagnostics: &mut Diagnostics)
        ensures
            final(diagnostics)@ == old(diagnostics)@ + missing_functions(
                self@.required_functions,
                self@.functions,
                context@,
            ),
    {
        let mut i: usize = 0;
        proof {
            assert(self@.required_functions.take(0) =~= Seq::<RequiredView>::empty());
            assert(diagnostics@ =~= old(diagnostics)@ + missing_functions(
                self@.required_functions.take(0),
                self@.functions,
                context@,
            ));
        }
        while i < self.required_functions.len()
            invariant
                i <= self.required_functions.len(),
                diagnostics@ == old(diagnostics)@ + missing_functions(
                    self@.required_functions.take(i as int),
                    self@.functions,
                    context@,
                ),
            decreases self.required_functions.len() - i,
        {
            let required = &self.required_functions[i];
            proof {
                assert(self@.required_functions.take(i + 1).drop_last() =~= self@.required_functions.take(
                    i as int,
                ));
                assert(self@.required_functions.take(i + 1).last() == required@);
            }
            if self.functions.get(&required.hash.0).is_none() && context.lookup_function(
                required.hash,
            ).is_none() {
                let mut spans: Vec<CallSite> = Vec::with_capacity(required.spans.len());
                let mut j: usize = 0;
                while j < required.spans.len()
                    invariant
                        j <= required.spans.len(),
                        spans@ == required.spans@.take(j as int),
                    decreases required.spans.len() - j,
                {
                    spans.push(required.spans[j]);
                    assert(spans@ =~= required.spans@.take(j + 1));
                    j += 1;
                }
                assert(spans@ =~= required.spans@);
                diagnostics.link_error(
                    SourceId::empty(),
                    LinkerError::MissingFunction { hash: required.hash, spans },
                );
                assert(diagnostics@ =~= old(diagnostics)@ + missing_functions(
                    self@.required_functions.take(i + 1),
                    self@.functions,
                    context@,
                ));
            }
            i += 1;
        }
        proof {
            assert(self@.required_functions.take(self.required_functions.len() as int)
                =~= self@.required_functions);
        }
    }

    /// The target of the re-export whose alias is `hash`.
    fn alias_target(&self, hash: crate::hash::Hash) -> (r: Option<crate::hash::Hash>)
        ensures
            r == alias_target(self@.reexports, hash),
    {
        let mut i: usize = 0;
        while i < self.reexports.len()
            invariant
                i <= self.reexports.len(),
                forall|j: int| 0 <= j < i ==> self.reexports@[j].from != hash,
            decreases self.reexports.len() - i,
        {
            if self.reexports[i].from == hash {
                proof {
                    crate::query::lemma_position(self.reexports@, |r: ReExport| r.from == hash, i as int);
                }
                return Some(self.reexports[i].to);
            }
            i += 1;
        }
        proof {
            crate::query::lemma_position(self.reexports@, |r: ReExport| r.from == hash, i as int);
        }
        None
    }

    /// Where a fingerprint leads through the re-exports.
    pub fn alias_end(&self, hash: crate::hash::Hash) -> (r: AliasEnd)
        ensures
            r == self@.alias_end(hash, self@.reexports.len()),
    {
        let mut current = hash;
        let mut fuel = self.reexports.len();
        loop
            invariant
                self@.alias_end(hash, self@.reexports.len()) == self@.alias_end(current, fuel as nat),
            decreases fuel,
        {
            if self.functions.get(&current.0).is_some() {
                return AliasEnd::Function(current);
            }
            if self.constants.get(&current.0).is_some() {
                return AliasEnd::Constant(current);
            }
            if fuel == 0 {
                return AliasEnd::Missing(current);
            }
            match self.alias_target(current) {
                Some(to) => {
                    current = to;
                    fuel = fuel - 1;
                },
                None => {
                    return AliasEnd::Missing(current);
                },
            }
        }
    }

    /// What a re-export resolves to.
    fn resolution(&self, span: Span, reexport: ReExport) -> (r: Result<Resolution, Error>)
        requires
            self.wf(),
        ensures
            match self@.resolution(reexport) {
                Ok(resolution) => r matches Ok(found) && found@ == resolution,
                Err(kind) => r matches Err(e) && e@ == (ErrorView { span, kind }),
            },
    {
        let from = reexport.from;
        proof {
            lemma_alias_end_is_there(self@, reexport.to, self@.reexports.len());
        }
        match self.alias_end(reexport.to) {
            AliasEnd::Function(end) => {
                if self.functions.get(&from.0).is_some() {
                    return Err(Error::new(span, ErrorKind::FunctionConflictHash { hash: from }));
                }
                if self.constants.get(&from.0).is_some() {
                    return Err(Error::new(span, ErrorKind::ConstantConflict { hash: from }));
                }
                let info = match self.functions.get(&end.0) {
                    Some(info) => *info,
                    None => vstd::pervasive::unreached(),
                };
                Ok(Resolution::Function { from, info, signature: self.existing_signature(end) })
            },
            AliasEnd::Constant(end) => {
                if self.constants.get(&from.0).is_some() {
                    return Err(Error::new(span, ErrorKind::ConstantConflict { hash: from }));
                }
                if self.functions.get(&from.0).is_some() {
                    return Err(Error::new(span, ErrorKind::FunctionConflictHash { hash: from }));
                }
                let value = match self.constants.get(&end.0) {
                    Some(value) => value.duplicate(),
                    None => vstd::pervasive::unreached(),
                };
                Ok(Resolution::Constant { from, value })
            },
            AliasEnd::Missing(end) => Err(Error::new(span, ErrorKind::MissingFunctionHash { hash: end })),
        }
    }

    /// Copies the entry that a re-export resolved to under the fingerprint
    /// of the alias.
    fn apply_resolution(&mut self, resolution: &Resolution)
        ensures
            final(self)@ == old(self)@.with_resolution(resolution@),
    {
        match resolution {
            Resolution::Function { from, info, signature } => {
                self.functions.insert(from.0, *info);
                self.insert_signature(*from, signature.to_owned());
            },
            Resolution::Constant { from, value } => {
                let value = value.duplicate();
                self.constants.insert(from.0, value);
                proof {
                    assert(self@.constants =~= old(self)@.constants.insert(from.0, value@));
                }
            },
        }
    }

    /// Convert into a runtime unit, shedding our build metadata in the
    /// process.
    ///
    /// Every re-export is resolved against the tables as they were
    /// registered: its target is followed through any number of aliases
    /// to a function or a constant, whose entry is copied under the
    /// fingerprint of the alias. In which order the re-exports were
    /// registered does not matter to that. The first re-export that fails
    /// ends the build with its error at `span`.
    pub fn build(self, span: Span, storage: ArrayUnit) -> (r: Result<Unit, Error>)
        requires
            self.wf(),
        ensures
            match self@.resolve_reexports(self@.reexports.len() as int) {
                Ok(resolved) => r matches Ok(unit) && unit@ == resolved.finished(storage@),
                Err(kind) => r matches Err(e) && e@ == (ErrorView { span, kind }),
            },
    {
        let ghost start = self@;
        let mut resolutions: Vec<Resolution> = Vec::with_capacity(self.reexports.len());
        let mut i: usize = 0;
        while i < self.reexports.len()
            invariant
                i <= self.reexports.len(),
                self.wf(),
                start == self@,
                resolutions@.len() == i,
                forall|j: int|
                    0 <= j < i ==> start.resolution(start.reexports[j]) == Ok::<
                        ResolutionView,
                        ErrorKindView,
                    >((#[trigger] resolutions@[j])@),
            decreases self.reexports.len() - i,
        {
            match self.resolution(span, self.reexports[i]) {
                Ok(resolution) => {
                    resolutions.push(resolution);
                },
                Err(e) => {
                    proof {
                        lemma_resolved_prefix(start, start, i as int, resolutions@);
                        lemma_resolve_stops(start, start, i + 1, start.reexports.len() as int);
                    }
                    return Err(e);
                },
            }
            i += 1;
        }
        let mut this = self;
        let mut k: usize = 0;
        while k < resolutions.len()
            invariant
                k <= resolutions.len(),
                resolutions@.len() == start.reexports.len(),
                forall|j: int|
                    0 <= j < resolutions@.len() ==> start.resolution(start.reexports[j]) == Ok::<
                        ResolutionView,
                        ErrorKindView,
                    >((#[trigger] resolutions@[j])@),
                start.resolved(start, k as int) == Ok::<BuilderView, ErrorKindView>(this@),
            decreases resolutions.len() - k,
        {
            this.apply_resolution(&resolutions[k]);
            k += 1;
        }
        let UnitBuilder {
            reexports,
            functions,
            functions_rev,
            static_strings,
            static_string_rev,
            static_bytes,
            static_bytes_rev,
            static_object_keys,
            static_object_keys_rev,
            rtti,
            variant_rtti,
            label_count,
            required_functions,
            debug,
            constants,
            hash_to_ident,
        } = this;
        let debug = match debug {
            Some(d) => {
                let DebugInfo { instructions, functions, functions_rev: _, hash_to_ident: _ } = d;
                Some(DebugInfo { instructions, functions, functions_rev, hash_to_ident })
            },
            None => None,
        };
        Ok(
            Unit::new(
                storage,
                functions,
                static_strings,
                static_bytes,
                static_object_keys,
                rtti,
                variant_rtti,
                debug,
                constants,
            ),
        )
    }
}

/// What `instance` holds.
pub open spec fn instance_view(instance: Option<(crate::hash::Hash, &str)>) -> Option<
    (crate::hash::Hash, Seq<char>),
> {
    match instance {
        Some((type_hash, name)) => Some((type_hash, name@)),
        None => None,
    }
}

/// A pool of strings that is indexed by content stays so when a new
/// string goes to the next slot under the fingerprint of its content.
pub proof fn lemma_strings_stay_indexed(slots: Seq<Seq<char>>, rev: Map<u64, usize>, value: Seq<char>)
    requires
        strings_indexed(slots, rev),
        slots.len() <= usize::MAX,
        !rev.contains_key(static_string_hash(encode_utf8(value))),
    ensures
        strings_indexed(
            slots.push(value),
            rev.insert(static_string_hash(encode_utf8(value)), slots.len() as usize),
        ),
{
    let after = slots.push(value);
    assert forall|i: int| 0 <= i < after.len() implies rev.insert(
        static_string_hash(encode_utf8(value)),
        slots.len() as usize,
    ).contains_key(static_string_hash(encode_utf8(#[trigger] after[i]))) && rev.insert(
        static_string_hash(encode_utf8(value)),
        slots.len() as usize,
    )[static_string_hash(encode_utf8(after[i]))] == i by {
        if i < slots.len() {
            assert(after[i] == slots[i]);
        }
    }
}

/// A pool of byte strings that is indexed by content stays so when a new
/// byte string goes to the next slot under the fingerprint of its content.
pub proof fn lemma_bytes_stay_indexed(slots: Seq<Seq<u8>>, rev: Map<u64, usize>, value: Seq<u8>)
    requires
        bytes_indexed(slots, rev),
        slots.len() <= usize::MAX,
        !rev.contains_key(static_bytes_hash(value)),
    ensures
        bytes_indexed(slots.push(value), rev.insert(static_bytes_hash(value), slots.len() as usize)),
{
    let after = slots.push(value);
    assert forall|i: int| 0 <= i < after.len() implies rev.insert(
        static_bytes_hash(value),
        slots.len() as usize,
    ).contains_key(static_bytes_hash(#[trigger] after[i])) && rev.insert(
        static_bytes_hash(value),
        slots.len() as usize,
    )[static_bytes_hash(after[i])] == i by {
        if i < slots.len() {
            assert(after[i] == slots[i]);
        }
    }
}

/// A pool of key lists that is indexed by content stays so when a new
/// list goes to the next slot under the fingerprint of its content.
pub proof fn lemma_keys_stay_indexed(slots: Seq<Seq<Seq<char>>>, rev: Map<u64, usize>, value: Seq<Seq<char>>)
    requires
        keys_indexed(slots, rev),
        slots.len() <= usize::MAX,
        !rev.contains_key(object_keys_hash(key_bytes(value))),
    ensures
        keys_indexed(slots.push(value), rev.insert(object_keys_hash(key_bytes(value)), slots.len() as usize)),
{
    let after = slots.push(value);
    assert forall|i: int| 0 <= i < after.len() implies rev.insert(
        object_keys_hash(key_bytes(value)),
        slots.len() as usize,
    ).contains_key(object_keys_hash(key_bytes(#[trigger] after[i]))) && rev.insert(
        object_keys_hash(key_bytes(value)),
        slots.len() as usize,
    )[object_keys_hash(key_bytes(after[i]))] == i by {
        if i < slots.len() {
            assert(after[i] == slots[i]);
        }
    }
}

/// Where following a fingerprint ends at a function, the function table
/// holds it; where it ends at a constant, the constants hold it.
pub proof fn lemma_alias_end_is_there(b: BuilderView, hash: crate::hash::Hash, fuel: nat)
    ensures
        b.alias_end(hash, fuel) matches AliasEnd::Function(end) ==> b.functions.contains_key(end.0),
        b.alias_end(hash, fuel) matches AliasEnd::Constant(end) ==> b.constants.contains_key(end.0),
    decreases fuel,
{
    if !b.functions.contains_key(hash.0) && !b.constants.contains_key(hash.0) && fuel > 0 {
        match alias_target(b.reexports, hash) {
            Some(to) => lemma_alias_end_is_there(b, to, (fuel - 1) as nat),
            None => {},
        }
    }
}

/// Once a re-export has failed, resolving more of them fails in the same
/// way.
pub proof fn lemma_resolve_stops(b: BuilderView, registered: BuilderView, n: int, m: int)
    requires
        0 <= n <= m,
        b.resolved(registered, n) is Err,
    ensures
        b.resolved(registered, m) == b.resolved(registered, n),
    decreases m - n,
{
    if n < m {
        lemma_resolve_stops(b, registered, n, m - 1);
    }
}

/// Where each of the first `n` re-exports resolves, resolving them
/// succeeds, and the next one decides what resolving one more comes to.
pub proof fn lemma_resolved_prefix(b: BuilderView, registered: BuilderView, n: int, resolutions: Seq<Resolution>)
    requires
        0 <= n <= resolutions.len(),
        n <= registered.reexports.len(),
        forall|j: int|
            0 <= j < n ==> registered.resolution(registered.reexports[j]) == Ok::<
                ResolutionView,
                ErrorKindView,
            >((#[trigger] resolutions[j])@),
    ensures
        b.resolved(registered, n) is Ok,
    decreases n,
{
    if n > 0 {
        lemma_resolved_prefix(b, registered, n - 1, resolutions);
        assert(registered.resolution(registered.reexports[n - 1]) == Ok::<ResolutionView, ErrorKindView>(
            resolutions[n - 1]@,
        ));
    }
}

} // verus!
