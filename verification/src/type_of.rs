//! The runtime type of a Rust type.

use vstd::prelude::*;

verus! {

/// A type that the runtime knows by itself.
#[derive(Clone, Copy, Debug, PartialEq, Eq)]
pub struct StaticType {
    /// The name of the type.
    pub name: &'static str,
    /// The fingerprint of the type.
    pub hash: crate::hash::Hash,
}

/// A type that a module installed.
#[derive(Clone, Copy, Debug, PartialEq, Eq)]
pub struct AnyTypeInfo {
    /// The name of the type.
    pub name: &'static str,
    /// The fingerprint of the type.
    pub hash: crate::hash::Hash,
}

/// What is known of a type for diagnostics.
#[derive(Clone, Copy, Debug, PartialEq, Eq)]
pub enum TypeInfo {
    /// A type that the runtime knows by itself.
    StaticType(StaticType),
    /// A type that a module installed.
    Any(AnyTypeInfo),
}

/// Full type information.
#[derive(Clone, Copy, Debug, PartialEq, Eq)]
pub struct FullTypeOf {
    /// The fingerprint of the type.
    pub hash: crate::hash::Hash,
    /// What is known of the type for diagnostics.
    pub type_info: TypeInfo,
}

/// Trait used for Rust types for which we can determine the runtime type of.
///
/// The two spec functions name the fingerprint and the type information;
/// the executable methods return them.
pub trait TypeOf {
    /// The fingerprint of the type.
    spec fn type_hash_spec() -> crate::hash::Hash;

    /// What is known of the type for diagnostics.
    spec fn type_info_spec() -> TypeInfo;

    /// Type information for the given type.
    fn type_of() -> (r: FullTypeOf)
        ensures
            r == (FullTypeOf { hash: Self::type_hash_spec(), type_info: Self::type_info_spec() }),
    {
        FullTypeOf { hash: Self::type_hash(), type_info: Self::type_info() }
    }

    /// Convert into a type hash.
    fn type_hash() -> (h: crate::hash::Hash)
        ensures
            h == Self::type_hash_spec(),
    ;

    /// Access diagnostical information on the value type.
    fn type_info() -> (info: TypeInfo)
        ensures
            info == Self::type_info_spec(),
    ;
}

/// A type that may have a runtime type.
pub trait MaybeTypeOf {
    /// The type information that [`maybe_type_of`](Self::maybe_type_of)
    /// returns.
    spec fn maybe_type_of_spec() -> Option<FullTypeOf>;

    /// Type information for the given type, if it has a runtime type.
    fn maybe_type_of() -> (r: Option<FullTypeOf>)
        ensures
            r == Self::maybe_type_of_spec(),
    ;
}

/// Blanket implementation for references.
impl<T: ?Sized + TypeOf> TypeOf for &T {
    open spec fn type_hash_spec() -> crate::hash::Hash {
        T::type_hash_spec()
    }

    open spec fn type_info_spec() -> TypeInfo {
        T::type_info_spec()
    }

    fn type_hash() -> (h: crate::hash::Hash) {
        T::type_hash()
    }

    fn type_info() -> (info: TypeInfo) {
        T::type_info()
    }
}

/// Blanket implementation for boxes.
impl<T: ?Sized + TypeOf> TypeOf for Box<T> {
    open spec fn type_hash_spec() -> crate::hash::Hash {
        T::type_hash_spec()
    }

    open spec fn type_info_spec() -> TypeInfo {
        T::type_info_spec()
    }

    fn type_hash() -> (h: crate::hash::Hash) {
        T::type_hash()
    }

    fn type_info() -> (info: TypeInfo) {
        T::type_info()
    }
}

/// The static type of tuples.
pub fn tuple_type() -> (t: StaticType)
    ensures
        t == (StaticType { name: "Tuple", hash: crate::hash::Hash(0x6da74f62cfa5cc1f) }),
{
    StaticType { name: "Tuple", hash: crate::hash::Hash(0x6da74f62cfa5cc1f) }
}

/// The static type of bytes.
pub fn byte_type() -> (t: StaticType)
    ensures
        t == (StaticType { name: "u8", hash: crate::hash::Hash(0x190cacf7c7187189) }),
{
    StaticType { name: "u8", hash: crate::hash::Hash(0x190cacf7c7187189) }
}

/// The static type of characters.
pub fn char_type() -> (t: StaticType)
    ensures
        t == (StaticType { name: "char", hash: crate::hash::Hash(0x6edc4a0ff77d2b68) }),
{
    StaticType { name: "char", hash: crate::hash::Hash(0x6edc4a0ff77d2b68) }
}

/// The static type of booleans.
pub fn bool_type() -> (t: StaticType)
    ensures
        t == (StaticType { name: "bool", hash: crate::hash::Hash(0xbe6bff4422d0c759) }),
{
    StaticType { name: "bool", hash: crate::hash::Hash(0xbe6bff4422d0c759) }
}

/// The static type of strings.
pub fn string_type() -> (t: StaticType)
    ensures
        t == (StaticType { name: "String", hash: crate::hash::Hash(0x823ede4114ff8de6) }),
{
    StaticType { name: "String", hash: crate::hash::Hash(0x823ede4114ff8de6) }
}

/// The static type of byte strings.
pub fn bytes_type() -> (t: StaticType)
    ensures
        t == (StaticType { name: "Bytes", hash: crate::hash::Hash(0x957fa73126817683) }),
{
    StaticType { name: "Bytes", hash: crate::hash::Hash(0x957fa73126817683) }
}

/// The static type of integers.
pub fn integer_type() -> (t: StaticType)
    ensures
        t == (StaticType { name: "i64", hash: crate::hash::Hash(0xbb378867da3981e2) }),
{
    StaticType { name: "i64", hash: crate::hash::Hash(0xbb378867da3981e2) }
}

/// The static type of floats.
pub fn float_type() -> (t: StaticType)
    ensures
        t == (StaticType { name: "f64", hash: crate::hash::Hash(0x13e40c27462ed8fc) }),
{
    StaticType { name: "f64", hash: crate::hash::Hash(0x13e40c27462ed8fc) }
}

/// The static type of vectors.
pub fn vec_type() -> (t: StaticType)
    ensures
        t == (StaticType { name: "Vec", hash: crate::hash::Hash(0x6c129752545b4223) }),
{
    StaticType { name: "Vec", hash: crate::hash::Hash(0x6c129752545b4223) }
}

/// The static type of objects.
pub fn object_type() -> (t: StaticType)
    ensures
        t == (StaticType { name: "Object", hash: crate::hash::Hash(0x65f4e1cf10b1f34c) }),
{
    StaticType { name: "Object", hash: crate::hash::Hash(0x65f4e1cf10b1f34c) }
}

/// The static type of options.
pub fn option_type() -> (t: StaticType)
    ensures
        t == (StaticType { name: "Option", hash: crate::hash::Hash(0x5e08dc3c9f8e6d3b) }),
{
    StaticType { name: "Option", hash: crate::hash::Hash(0x5e08dc3c9f8e6d3b) }
}

} // verus!
