//! The finished unit and the parts it is made of.

use vstd::prelude::*;
use std::collections::HashMap;
use crate::const_value::{ConstValue, ConstView};
use crate::debug::{DebugInfo, DebugInfoView};
use crate::hash::texts;
use crate::inst::{Inst, UnitFn};
use crate::item::{ComponentView, ItemBuf};

verus! {

/// What a type descriptor holds.
pub struct RttiView {
    pub hash: crate::hash::Hash,
    pub item: Seq<ComponentView>,
}

/// The runtime descriptor of a type.
#[derive(Debug, PartialEq, Eq)]
pub struct Rtti {
    /// The fingerprint of the type.
    pub hash: crate::hash::Hash,
    /// The path of the type.
    pub item: ItemBuf,
}

impl View for Rtti {
    type V = RttiView;

    open spec fn view(&self) -> RttiView {
        RttiView { hash: self.hash, item: self.item@ }
    }
}

/// What a variant descriptor holds.
pub struct VariantRttiView {
    pub enum_hash: crate::hash::Hash,
    pub hash: crate::hash::Hash,
    pub item: Seq<ComponentView>,
}

/// The runtime descriptor of an enum variant.
#[derive(Debug, PartialEq, Eq)]
pub struct VariantRtti {
    /// The fingerprint of the enum that owns the variant.
    pub enum_hash: crate::hash::Hash,
    /// The fingerprint of the variant.
    pub hash: crate::hash::Hash,
    /// The path of the variant.
    pub item: ItemBuf,
}

impl View for VariantRtti {
    type V = VariantRttiView;

    open spec fn view(&self) -> VariantRttiView {
        VariantRttiView { enum_hash: self.enum_hash, hash: self.hash, item: self.item@ }
    }
}

/// The contents of a list of byte strings.
pub open spec fn byte_strings(list: Seq<Vec<u8>>) -> Seq<Seq<u8>> {
    list.map_values(|b: Vec<u8>| b@)
}

/// The contents of a list of key lists.
pub open spec fn key_lists(list: Seq<Vec<String>>) -> Seq<Seq<Seq<char>>> {
    list.map_values(|k: Vec<String>| texts(k@))
}

/// The instruction stream of a unit, as an array of instructions. The
/// offset of an instruction is its index.
#[derive(Debug, PartialEq, Eq)]
pub struct ArrayUnit {
    /// The instructions.
    pub instructions: Vec<Inst>,
}

impl View for ArrayUnit {
    type V = Seq<Inst>;

    open spec fn view(&self) -> Seq<Inst> {
        self.instructions@
    }
}

impl ArrayUnit {
    /// An empty instruction stream.
    pub fn new() -> (unit: ArrayUnit)
        ensures
            unit@ == Seq::<Inst>::empty(),
    {
        ArrayUnit { instructions: Vec::new() }
    }

    /// The offset of the next instruction.
    pub fn offset(&self) -> (offset: usize)
        ensures
            offset == self@.len(),
    {
        self.instructions.len()
    }

    /// Appends an instruction.
    pub fn encode(&mut self, inst: Inst)
        ensures
            final(self)@ == old(self)@.push(inst),
    {
        self.instructions.push(inst);
    }

    /// The instruction at the given offset.
    pub fn get(&self, offset: usize) -> (r: Option<Inst>)
        ensures
            r == if offset < self@.len() {
                Some(self@[offset as int])
            } else {
                None
            },
    {
        if offset < self.instructions.len() {
            Some(self.instructions[offset])
        } else {
            None
        }
    }
}

/// What a unit holds.
pub struct UnitView {
    /// The instruction stream.
    pub instructions: Seq<Inst>,
    /// The function table.
    pub functions: Map<u64, UnitFn>,
    /// The static strings, by slot.
    pub static_strings: Seq<Seq<char>>,
    /// The static byte strings, by slot.
    pub static_bytes: Seq<Seq<u8>>,
    /// The static object key lists, by slot.
    pub static_object_keys: Seq<Seq<Seq<char>>>,
    /// The type descriptors.
    pub rtti: Map<u64, RttiView>,
    /// The variant descriptors.
    pub variant_rtti: Map<u64, VariantRttiView>,
    /// The debug information.
    pub debug: Option<DebugInfoView>,
    /// The constants.
    pub constants: Map<u64, ConstView>,
}

/// A linked unit: what the virtual machine runs. Once it is built
/// nothing of it can be changed.
pub struct Unit {
    /// The instruction stream.
    storage: ArrayUnit,
    /// The function table.
    functions: HashMap<u64, UnitFn>,
    /// The static strings, by slot.
    static_strings: Vec<String>,
    /// The static byte strings, by slot.
    static_bytes: Vec<Vec<u8>>,
    /// The static object key lists, by slot.
    static_object_keys: Vec<Vec<String>>,
    /// The type descriptors.
    rtti: HashMap<u64, Rtti>,
    /// The variant descriptors.
    variant_rtti: HashMap<u64, VariantRtti>,
    /// The debug information.
    debug: Option<DebugInfo>,
    /// The constants.
    constants: HashMap<u64, ConstValue>,
}

/// What an optional piece of debug information holds.
pub open spec fn debug_view(debug: Option<DebugInfo>) -> Option<DebugInfoView> {
    match debug {
        Some(d) => Some(d@),
        None => None,
    }
}

impl View for Unit {
    type V = UnitView;

    closed spec fn view(&self) -> UnitView {
        UnitView {
            instructions: self.storage@,
            functions: self.functions@,
            static_strings: texts(self.static_strings@),
            static_bytes: byte_strings(self.static_bytes@),
            static_object_keys: key_lists(self.static_object_keys@),
            rtti: self.rtti@.map_values(|r: Rtti| r@),
            variant_rtti: self.variant_rtti@.map_values(|r: VariantRtti| r@),
            debug: debug_view(self.debug),
            constants: self.constants@.map_values(|c: ConstValue| c@),
        }
    }
}

impl Unit {
    /// A unit of the given parts.
    pub fn new(
        storage: ArrayUnit,
        functions: HashMap<u64, UnitFn>,
        static_strings: Vec<String>,
        static_bytes: Vec<Vec<u8>>,
        static_object_keys: Vec<Vec<String>>,
        rtti: HashMap<u64, Rtti>,
        variant_rtti: HashMap<u64, VariantRtti>,
        debug: Option<DebugInfo>,
        constants: HashMap<u64, ConstValue>,
    ) -> (unit: Unit)
        ensures
            unit@ == (UnitView {
                instructions: storage@,
                functions: functions@,
                static_strings: texts(static_strings@),
                static_bytes: byte_strings(static_bytes@),
                static_object_keys: key_lists(static_object_keys@),
                rtti: rtti@.map_values(|r: Rtti| r@),
                variant_rtti: variant_rtti@.map_values(|r: VariantRtti| r@),
                debug: debug_view(debug),
                constants: constants@.map_values(|c: ConstValue| c@),
            }),
    {
        Unit {
            storage,
            functions,
            static_strings,
            static_bytes,
            static_object_keys,
            rtti,
            variant_rtti,
            debug,
            constants,
        }
    }

    /// The number of entries of the function table.
    pub fn function_count(&self) -> (n: usize)
        ensures
            n == self@.functions.len(),
    {
        broadcast use vstd::std_specs::hash::group_hash_axioms;

        self.functions.len()
    }

    /// The number of instructions.
    pub fn instruction_count(&self) -> (n: usize)
        ensures
            n == self@.instructions.len(),
    {
        self.storage.offset()
    }

    /// The debug information.
    pub fn debug_info(&self) -> (r: Option<&DebugInfo>)
        ensures
            match r {
                Some(d) => self@.debug == Some(d@),
                None => self@.debug is None,
            },
    {
        self.debug.as_ref()
    }

    /// The descriptor of the type with a fingerprint.
    pub fn lookup_rtti(&self, hash: crate::hash::Hash) -> (r: Option<&Rtti>)
        ensures
            self@.rtti.contains_key(hash.0) <==> r is Some,
            r matches Some(d) ==> d@ == self@.rtti[hash.0],
    {
        self.rtti.get(&hash.0)
    }

    /// The descriptor of the variant with a fingerprint.
    pub fn lookup_variant_rtti(&self, hash: crate::hash::Hash) -> (r: Option<&VariantRtti>)
        ensures
            self@.variant_rtti.contains_key(hash.0) <==> r is Some,
            r matches Some(d) ==> d@ == self@.variant_rtti[hash.0],
    {
        self.variant_rtti.get(&hash.0)
    }

    /// The entry of the function table for a fingerprint.
    pub fn function(&self, hash: crate::hash::Hash) -> (r: Option<UnitFn>)
        ensures
            r == if self@.functions.contains_key(hash.0) {
                Some(self@.functions[hash.0])
            } else {
                None
            },
    {
        match self.functions.get(&hash.0) {
            Some(info) => Some(*info),
            None => None,
        }
    }

    /// The static string in a slot.
    pub fn lookup_string(&self, slot: usize) -> (r: Option<&String>)
        ensures
            slot < self@.static_strings.len() <==> r is Some,
            r matches Some(s) ==> s@ == self@.static_strings[slot as int],
    {
        if slot < self.static_strings.len() {
            Some(&self.static_strings[slot])
        } else {
            None
        }
    }

    /// The static byte string in a slot.
    pub fn lookup_bytes(&self, slot: usize) -> (r: Option<&Vec<u8>>)
        ensures
            slot < self@.static_bytes.len() <==> r is Some,
            r matches Some(b) ==> b@ == self@.static_bytes[slot as int],
    {
        if slot < self.static_bytes.len() {
            Some(&self.static_bytes[slot])
        } else {
            None
        }
    }

    /// The static object key list in a slot.
    pub fn lookup_object_keys(&self, slot: usize) -> (r: Option<&Vec<String>>)
        ensures
            slot < self@.static_object_keys.len() <==> r is Some,
            r matches Some(k) ==> texts(k@) == self@.static_object_keys[slot as int],
    {
        if slot < self.static_object_keys.len() {
            Some(&self.static_object_keys[slot])
        } else {
            None
        }
    }

    /// The constant with a fingerprint.
    pub fn constant(&self, hash: crate::hash::Hash) -> (r: Option<&ConstValue>)
        ensures
            self@.constants.contains_key(hash.0) <==> r is Some,
            r matches Some(c) ==> c@ == self@.constants[hash.0],
    {
        self.constants.get(&hash.0)
    }

    /// The instruction at an offset.
    pub fn instruction_at(&self, offset: usize) -> (r: Option<Inst>)
        ensures
            r == if offset < self@.instructions.len() {
                Some(self@.instructions[offset as int])
            } else {
                None
            },
    {
        self.storage.get(offset)
    }
}

} // verus!
