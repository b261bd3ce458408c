//! Constant values.

use vstd::prelude::*;
use crate::memory::Error;
use crate::try_clone::TryClone;
use crate::type_of::{
    bool_type, byte_type, bytes_type, char_type, float_type, integer_type, object_type, option_type,
    string_type, tuple_type, vec_type, StaticType, TypeInfo,
};

verus! {

/// What a constant value holds.
pub enum ConstView {
    /// The empty tuple.
    EmptyTuple,
    /// A byte.
    Byte(u8),
    /// A character.
    Char(char),
    /// A boolean.
    Bool(bool),
    /// An integer.
    Integer(i64),
    /// The bits of a float.
    Float(u64),
    /// A string.
    String(Seq<char>),
    /// A byte string.
    Bytes(Seq<u8>),
    /// A vector of values.
    Vec(Seq<ConstView>),
    /// A tuple of values.
    Tuple(Seq<ConstView>),
    /// An object: keys and their values, in the order they were given.
    Object(Seq<(Seq<char>, ConstView)>),
    /// An optional value.
    Option(Option<Box<ConstView>>),
}

/// A constant value.
#[derive(Debug, PartialEq, Eq)]
pub enum ConstValue {
    /// A constant unit.
    EmptyTuple,
    /// A byte.
    Byte(u8),
    /// A character.
    Char(char),
    /// A boolean constant value.
    Bool(bool),
    /// An integer constant.
    Integer(i64),
    /// A float constant, held as the bits of its IEEE 754 double.
    Float(u64),
    /// A string constant.
    String(String),
    /// A byte string.
    Bytes(Vec<u8>),
    /// A vector of values.
    Vec(Vec<ConstValue>),
    /// An anonymous tuple.
    Tuple(Vec<ConstValue>),
    /// An anonymous object, as its keys and values in the order given.
    Object(Vec<(String, ConstValue)>),
    /// An option.
    Option(Option<Box<ConstValue>>),
}

impl View for ConstValue {
    type V = ConstView;

    open spec fn view(&self) -> ConstView
        decreases self,
    {
        match self {
            ConstValue::EmptyTuple => ConstView::EmptyTuple,
            ConstValue::Byte(b) => ConstView::Byte(*b),
            ConstValue::Char(c) => ConstView::Char(*c),
            ConstValue::Bool(b) => ConstView::Bool(*b),
            ConstValue::Integer(n) => ConstView::Integer(*n),
            ConstValue::Float(n) => ConstView::Float(*n),
            ConstValue::String(s) => ConstView::String(s@),
            ConstValue::Bytes(b) => ConstView::Bytes(b@),
            ConstValue::Vec(v) => ConstView::Vec(
                Seq::new(v@.len(), |i: int| if 0 <= i < v@.len() { v@[i]@ } else { ConstView::EmptyTuple }),
            ),
            ConstValue::Tuple(v) => ConstView::Tuple(
                Seq::new(v@.len(), |i: int| if 0 <= i < v@.len() { v@[i]@ } else { ConstView::EmptyTuple }),
            ),
            ConstValue::Object(v) => ConstView::Object(
                Seq::new(
                    v@.len(),
                    |i: int| if 0 <= i < v@.len() { (v@[i].0@, v@[i].1@) } else { (Seq::empty(), ConstView::EmptyTuple) },
                ),
            ),
            ConstValue::Option(o) => ConstView::Option(
                match o {
                    Some(b) => Some(Box::new((**b)@)),
                    None => None,
                },
            ),
        }
    }
}

/// The static type of a constant value.
pub open spec fn static_type_of(value: ConstView) -> StaticType {
    match value {
        ConstView::EmptyTuple => StaticType { name: "Tuple", hash: crate::hash::Hash(0x6da74f62cfa5cc1f) },
        ConstView::Byte(_) => StaticType { name: "u8", hash: crate::hash::Hash(0x190cacf7c7187189) },
        ConstView::Char(_) => StaticType { name: "char", hash: crate::hash::Hash(0x6edc4a0ff77d2b68) },
        ConstView::Bool(_) => StaticType { name: "bool", hash: crate::hash::Hash(0xbe6bff4422d0c759) },
        ConstView::Integer(_) => StaticType { name: "i64", hash: crate::hash::Hash(0xbb378867da3981e2) },
        ConstView::Float(_) => StaticType { name: "f64", hash: crate::hash::Hash(0x13e40c27462ed8fc) },
        ConstView::String(_) => StaticType { name: "String", hash: crate::hash::Hash(0x823ede4114ff8de6) },
        ConstView::Bytes(_) => StaticType { name: "Bytes", hash: crate::hash::Hash(0x957fa73126817683) },
        ConstView::Vec(_) => StaticType { name: "Vec", hash: crate::hash::Hash(0x6c129752545b4223) },
        ConstView::Tuple(_) => StaticType { name: "Tuple", hash: crate::hash::Hash(0x6da74f62cfa5cc1f) },
        ConstView::Object(_) => StaticType { name: "Object", hash: crate::hash::Hash(0x65f4e1cf10b1f34c) },
        ConstView::Option(_) => StaticType { name: "Option", hash: crate::hash::Hash(0x5e08dc3c9f8e6d3b) },
    }
}

impl DeepView for ConstValue {
    type V = ConstView;

    open spec fn deep_view(&self) -> ConstView {
        self@
    }
}

impl ConstValue {
    /// Try to coerce into boolean. Any other value is handed back.
    pub fn into_bool(self) -> (r: Result<bool, Self>)
        ensures
            r == match self {
                ConstValue::Bool(value) => Ok::<bool, Self>(value),
                _ => Err::<bool, Self>(self),
            },
    {
        match self {
            ConstValue::Bool(value) => Ok(value),
            value => Err(value),
        }
    }

    /// Get the type information of the value.
    pub fn type_info(&self) -> (info: TypeInfo)
        ensures
            info == TypeInfo::StaticType(static_type_of(self@)),
    {
        match self {
            ConstValue::EmptyTuple => TypeInfo::StaticType(tuple_type()),
            ConstValue::Byte(_) => TypeInfo::StaticType(byte_type()),
            ConstValue::Char(_) => TypeInfo::StaticType(char_type()),
            ConstValue::Bool(_) => TypeInfo::StaticType(bool_type()),
            ConstValue::String(_) => TypeInfo::StaticType(string_type()),
            ConstValue::Bytes(_) => TypeInfo::StaticType(bytes_type()),
            ConstValue::Integer(_) => TypeInfo::StaticType(integer_type()),
            ConstValue::Float(_) => TypeInfo::StaticType(float_type()),
            ConstValue::Vec(_) => TypeInfo::StaticType(vec_type()),
            ConstValue::Tuple(_) => TypeInfo::StaticType(tuple_type()),
            ConstValue::Object(_) => TypeInfo::StaticType(object_type()),
            ConstValue::Option(_) => TypeInfo::StaticType(option_type()),
        }
    }

    /// A copy of the value.
    #[verifier::loop_isolation(false)]
    pub fn duplicate(&self) -> (r: Self)
        ensures
            r@ == self@,
        decreases self,
    {
        match self {
            ConstValue::EmptyTuple => ConstValue::EmptyTuple,
            ConstValue::Byte(b) => ConstValue::Byte(*b),
            ConstValue::Char(c) => ConstValue::Char(*c),
            ConstValue::Bool(b) => ConstValue::Bool(*b),
            ConstValue::Integer(n) => ConstValue::Integer(*n),
            ConstValue::Float(n) => ConstValue::Float(*n),
            ConstValue::String(s) => ConstValue::String(s.clone()),
            ConstValue::Bytes(b) => {
                let c = b.clone();
                assert(c@ =~= b@);
                ConstValue::Bytes(c)
            },
            ConstValue::Vec(v) => {
                let mut out: Vec<ConstValue> = Vec::new();
                let mut i: usize = 0;
                while i < v.len()
                    invariant
                        i <= v.len(),
                        out.len() == i,
                        forall|j: int| 0 <= j < i ==> out@[j]@ == v@[j]@,
                    decreases v.len() - i,
                {
                    let c = v[i].duplicate();
                    out.push(c);
                    i += 1;
                }
                let r = ConstValue::Vec(out);
                assert(r@->Vec_0 =~= self@->Vec_0);
                r
            },
            ConstValue::Tuple(v) => {
                let mut out: Vec<ConstValue> = Vec::new();
                let mut i: usize = 0;
                while i < v.len()
                    invariant
                        i <= v.len(),
                        out.len() == i,
                        forall|j: int| 0 <= j < i ==> out@[j]@ == v@[j]@,
                    decreases v.len() - i,
                {
                    let c = v[i].duplicate();
                    out.push(c);
                    i += 1;
                }
                let r = ConstValue::Tuple(out);
                assert(r@->Tuple_0 =~= self@->Tuple_0);
                r
            },
            ConstValue::Object(v) => {
                let mut out: Vec<(String, ConstValue)> = Vec::new();
                let mut i: usize = 0;
                while i < v.len()
                    invariant
                        i <= v.len(),
                        out.len() == i,
                        forall|j: int| 0 <= j < i ==> out@[j].0@ == v@[j].0@ && out@[j].1@ == v@[j].1@,
                    decreases v.len() - i,
                {
                    let c = v[i].1.duplicate();
                    out.push((v[i].0.clone(), c));
                    i += 1;
                }
                let r = ConstValue::Object(out);
                assert(r@->Object_0 =~= self@->Object_0);
                r
            },
            ConstValue::Option(o) => match o {
                Some(b) => ConstValue::Option(Some(Box::new((**b).duplicate()))),
                None => ConstValue::Option(None),
            },
        }
    }
}

impl TryClone for ConstValue {
    fn try_clone(&self) -> (r: Result<Self, Error>)
        ensures
            r matches Ok(c) && c@ == self@,
    {
        Ok(self.duplicate())
    }
}

} // verus!
