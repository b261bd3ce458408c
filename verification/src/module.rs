//! Types used for defining native modules.
//!
//! A native module is one that provides functions and types through
//! native code. The handles of this file give access to the metadata of
//! what was inserted into a module.

use vstd::prelude::*;
use std::marker::PhantomData;
use crate::context::FunctionHandler;
use crate::item::{ComponentView, ItemBuf};
use crate::type_of::{FullTypeOf, MaybeTypeOf, StaticType, TypeInfo, TypeOf};
use crate::unit_builder::slices;

verus! {

/// The documentation of an item: its lines.
#[derive(Debug, PartialEq, Eq)]
pub struct Docs {
    /// The lines.
    pub docs: Vec<String>,
}

impl View for Docs {
    type V = Seq<Seq<char>>;

    open spec fn view(&self) -> Seq<Seq<char>> {
        crate::hash::texts(self.docs@)
    }
}

impl Docs {
    /// Empty documentation.
    pub fn empty() -> (docs: Docs)
        ensures
            docs@ == Seq::<Seq<char>>::empty(),
    {
        let docs = Docs { docs: Vec::new() };
        assert(docs@ =~= Seq::<Seq<char>>::empty());
        docs
    }

    /// Replaces the documentation by the given lines.
    pub fn set_docs(&mut self, docs: &[&str])
        ensures
            final(self)@ == slices(docs@),
    {
        let mut lines: Vec<String> = Vec::with_capacity(docs.len());
        let mut i: usize = 0;
        while i < docs.len()
            invariant
                i <= docs.len(),
                lines.len() == i,
                forall|j: int| 0 <= j < i ==> lines@[j]@ == docs@[j]@,
            decreases docs.len() - i,
        {
            lines.push(docs[i].to_owned());
            i += 1;
        }
        self.docs = lines;
        assert(self@ =~= slices(docs@));
    }
}

/// How the virtual machine checks that a value is of a variant.
#[derive(Clone, Copy, Debug, PartialEq, Eq, Structural)]
pub enum TypeCheck {
    /// The empty tuple.
    EmptyTuple,
    /// A tuple.
    Tuple,
    /// An object.
    Object,
    /// A vector.
    Vec,
    /// The variant of an option with the given number.
    Option(usize),
    /// The variant of a result with the given number.
    Result(usize),
    /// The variant of a generator state with the given number.
    GeneratorState(usize),
}

/// The kind of the variant.
#[derive(Clone, Copy, Debug, PartialEq, Eq)]
pub enum Fields {
    /// Sequence of named fields.
    Named(&'static [&'static str]),
    /// Sequence of unnamed fields.
    Unnamed(usize),
    /// Empty.
    Empty,
}

/// Metadata about a variant.
#[derive(Debug, PartialEq, Eq)]
pub struct Variant {
    /// The name of the variant.
    pub name: &'static str,
    /// Type check for the variant.
    pub type_check: Option<TypeCheck>,
    /// Variant metadata.
    pub fields: Option<Fields>,
    /// Handler to use if this variant can be constructed through a regular function call.
    pub constructor: Option<FunctionHandler>,
    /// Variant documentation.
    pub docs: Docs,
}

impl Variant {
    /// A variant of which only the name is known.
    pub fn new(name: &'static str) -> (variant: Variant)
        ensures
            variant.is_blank(name),
    {
        Variant { name, type_check: None, fields: None, constructor: None, docs: Docs::empty() }
    }

    /// Whether only the name of the variant is known, and it is `name`.
    pub open spec fn is_blank(&self, name: &'static str) -> bool {
        &&& self.name == name
        &&& self.type_check is None
        &&& self.fields is None
        &&& self.constructor is None
        &&& self.docs@ == Seq::<Seq<char>>::empty()
    }
}

/// The type specification for a native enum.
#[derive(Debug, PartialEq, Eq)]
pub struct Enum {
    /// The variants.
    pub variants: Vec<Variant>,
}

/// A type specification.
#[derive(Debug, PartialEq, Eq)]
pub enum TypeSpecification {
    /// The type is a struct with the given fields.
    Struct(Fields),
    /// The type is an enum.
    Enum(Enum),
}

/// Specialized information on `GeneratorState` types.
#[derive(Debug, PartialEq, Eq)]
pub struct InternalEnum {
    /// The name of the internal enum.
    pub name: &'static str,
    /// The result type.
    pub base_type: ItemBuf,
    /// The static type of the enum.
    pub static_type: StaticType,
    /// Internal variants.
    pub variants: Vec<Variant>,
    /// Documentation for internal enum.
    pub docs: Docs,
}

/// What went wrong when metadata was set.
#[derive(Debug, PartialEq, Eq)]
pub enum ContextError {
    /// The type has a specification already.
    ConflictingTypeMeta { item: ItemBuf, type_info: TypeInfo },
    /// The type has a constructor already.
    ConstructorConflict { type_info: TypeInfo },
    /// The variant has fields already.
    ConflictingVariantMeta { index: usize, type_info: TypeInfo },
    /// The variant has a constructor already.
    VariantConstructorConflict { type_info: TypeInfo, index: usize },
    /// The enum has no variant with the given number.
    MissingVariant { index: usize, type_info: TypeInfo },
}

/// What a context error holds.
pub enum ContextErrorView {
    ConflictingTypeMeta { item: Seq<ComponentView>, type_info: TypeInfo },
    ConstructorConflict { type_info: TypeInfo },
    ConflictingVariantMeta { index: usize, type_info: TypeInfo },
    VariantConstructorConflict { type_info: TypeInfo, index: usize },
    MissingVariant { index: usize, type_info: TypeInfo },
}

impl View for ContextError {
    type V = ContextErrorView;

    open spec fn view(&self) -> ContextErrorView {
        match self {
            ContextError::ConflictingTypeMeta { item, type_info } => ContextErrorView::ConflictingTypeMeta {
                item: item@,
                type_info: *type_info,
            },
            ContextError::ConstructorConflict { type_info } => ContextErrorView::ConstructorConflict {
                type_info: *type_info,
            },
            ContextError::ConflictingVariantMeta { index, type_info } => ContextErrorView::ConflictingVariantMeta {
                index: *index,
                type_info: *type_info,
            },
            ContextError::VariantConstructorConflict { type_info, index } => ContextErrorView::VariantConstructorConflict {
                type_info: *type_info,
                index: *index,
            },
            ContextError::MissingVariant { index, type_info } => ContextErrorView::MissingVariant {
                index: *index,
                type_info: *type_info,
            },
        }
    }
}

impl InternalEnum {
    /// Construct a new handler for an internal enum.
    pub fn new(name: &'static str, base_type: ItemBuf, static_type: StaticType) -> (r: InternalEnum)
        ensures
            r.name == name,
            r.base_type == base_type,
            r.static_type == static_type,
            r.variants@.len() == 0,
            r.docs@ == Seq::<Seq<char>>::empty(),
    {
        InternalEnum { name, base_type, static_type, variants: Vec::new(), docs: Docs::empty() }
    }

    /// Register a new variant: a tuple variant with as many fields as the
    /// constructor takes arguments. The handle that is returned gives
    /// access to the documentation of the new variant.
    pub fn variant(&mut self, name: &'static str, type_check: TypeCheck, constructor: FunctionHandler) -> (r: ItemMut<'_>)
        ensures
            r.docs@ == Seq::<Seq<char>>::empty(),
            final(self).name == old(self).name,
            final(self).base_type == old(self).base_type,
            final(self).static_type == old(self).static_type,
            final(self).docs == old(self).docs,
            final(self).variants@ == old(self).variants@.push(
                Variant {
                    name,
                    type_check: Some(type_check),
                    fields: Some(Fields::Unnamed(constructor.args)),
                    constructor: Some(constructor),
                    docs: *final(r.docs),
                },
            ),
    {
        self.variants.push(
            Variant {
                name,
                type_check: Some(type_check),
                fields: Some(Fields::Unnamed(constructor.args)),
                constructor: Some(constructor),
                docs: Docs::empty(),
            },
        );
        let index = self.variants.len() - 1;
        let v = &mut self.variants[index];
        ItemMut { docs: &mut v.docs }
    }
}

/// Handle to a an item inserted into a module which allows for mutation of item
/// metadata.
pub struct ItemMut<'a> {
    /// The documentation of the item.
    pub docs: &'a mut Docs,
}

impl<'a> ItemMut<'a> {
    /// Set documentation for an inserted item.
    ///
    /// This completely replaces any existing documentation.
    pub fn docs(self, docs: &[&str]) -> (r: Self)
        ensures
            r.docs@ == slices(docs@),
            *final(self.docs) == *final(r.docs),
    {
        self.docs.set_docs(docs);
        self
    }

    /// Set static documentation.
    ///
    /// This completely replaces any existing documentation.
    pub fn static_docs(self, docs: &'static [&'static str]) -> (r: Self)
        ensures
            r.docs@ == slices(docs@),
            *final(self.docs) == *final(r.docs),
    {
        self.docs.set_docs(docs);
        self
    }
}

/// Handle to a an item inserted into a module which allows for mutation of item
/// metadata.
///
/// This is returned by methods which insert functions.
pub struct ItemFnMut<'a> {
    /// The documentation of the function.
    pub docs: &'a mut Docs,
    /// Whether the function is async.
    pub is_async: &'a mut bool,
    /// A note that the function is deprecated.
    pub deprecated: &'a mut Option<String>,
    /// The number of arguments of the function.
    pub args: &'a mut Option<usize>,
    /// The type that the function returns.
    pub return_type: &'a mut Option<FullTypeOf>,
    /// The types of the arguments of the function.
    pub argument_types: &'a mut Vec<Option<FullTypeOf>>,
}

impl<'a> ItemFnMut<'a> {
    /// Set documentation for an inserted item.
    ///
    /// This completely replaces any existing documentation.
    pub fn docs(self, docs: &[&str]) -> (r: Self)
        ensures
            r == (ItemFnMut { docs: r.docs, ..self }),
            r.docs@ == slices(docs@),
            *final(self.docs) == *final(r.docs),
    {
        self.docs.set_docs(docs);
        self
    }

    /// Mark the given item as an async function.
    pub fn is_async(self, is_async: bool) -> (r: Self)
        ensures
            r == (ItemFnMut { is_async: r.is_async, ..self }),
            *r.is_async == is_async,
            *final(self.is_async) == *final(r.is_async),
    {
        *self.is_async = is_async;
        self
    }

    /// Mark the given item as deprecated.
    pub fn deprecated(self, deprecated: &str) -> (r: Self)
        ensures
            r == (ItemFnMut { deprecated: r.deprecated, ..self }),
            *r.deprecated matches Some(note) && note@ == deprecated@,
            *final(self.deprecated) == *final(r.deprecated),
    {
        *self.deprecated = Some(deprecated.to_owned());
        self
    }

    /// Indicate the number of arguments this function accepts.
    pub fn args(self, args: usize) -> (r: Self)
        ensures
            r == (ItemFnMut { args: r.args, ..self }),
            *r.args == Some(args),
            *final(self.args) == *final(r.args),
    {
        *self.args = Some(args);
        self
    }

    /// Set the kind of return type.
    pub fn return_type<T: MaybeTypeOf>(self) -> (r: Self)
        ensures
            r == (ItemFnMut { return_type: r.return_type, ..self }),
            *r.return_type == T::maybe_type_of_spec(),
            *final(self.return_type) == *final(r.return_type),
    {
        *self.return_type = T::maybe_type_of();
        self
    }

    /// Set argument types.
    pub fn argument_types<const N: usize>(self, arguments: [Option<FullTypeOf>; N]) -> (r: Self)
        ensures
            r == (ItemFnMut { argument_types: r.argument_types, ..self }),
            r.argument_types@ == arguments@,
            *final(self.argument_types) == *final(r.argument_types),
    {
        let mut types: Vec<Option<FullTypeOf>> = Vec::with_capacity(N);
        let mut i: usize = 0;
        while i < N
            invariant
                i <= N,
                types@ == arguments@.take(i as int),
            decreases N - i,
        {
            types.push(arguments[i]);
            assert(types@ =~= arguments@.take(i + 1));
            i += 1;
        }
        assert(types@ =~= arguments@);
        *self.argument_types = types;
        self
    }
}

/// Handle to a a variant inserted into a module which allows for mutation of
/// its metadata.
pub struct VariantMut<'a, T: ?Sized + TypeOf> {
    /// The number of the variant in its enum.
    pub index: usize,
    /// The documentation of the variant.
    pub docs: &'a mut Docs,
    /// The fields of the variant.
    pub fields: &'a mut Option<Fields>,
    /// The constructor of the variant.
    pub constructor: &'a mut Option<FunctionHandler>,
    /// The type of the enum.
    pub _marker: PhantomData<T>,
}

impl<'a, T: ?Sized + TypeOf> VariantMut<'a, T> {
    /// Set documentation for an inserted type.
    ///
    /// This completely replaces any existing documentation.
    pub fn docs(self, docs: &[&str]) -> (r: Self)
        ensures
            r == (VariantMut { docs: r.docs, ..self }),
            r.docs@ == slices(docs@),
            *final(self.docs) == *final(r.docs),
    {
        self.docs.set_docs(docs);
        self
    }

    /// Set static documentation.
    ///
    /// This completely replaces any existing documentation.
    pub fn static_docs(self, docs: &'static [&'static str]) -> (r: Self)
        ensures
            r == (VariantMut { docs: r.docs, ..self }),
            r.docs@ == slices(docs@),
            *final(self.docs) == *final(r.docs),
    {
        self.docs.set_docs(docs);
        self
    }

    /// Mark the given variant with named fields.
    ///
    /// The fields are set in any case; where the variant had fields
    /// before, that is reported as a conflict.
    pub fn make_named(self, fields: &'static [&'static str]) -> (r: Result<Self, ContextError>)
        ensures
            *final(self.fields) == Some(Fields::Named(fields)) || r is Ok,
            match r {
                Ok(h) => ({
                    &&& *old(self.fields) is None
                    &&& h == (VariantMut { fields: h.fields, ..self })
                    &&& *h.fields == Some(Fields::Named(fields))
                    &&& *final(self.fields) == *final(h.fields)
                }),
                Err(e) => ({
                    &&& *old(self.fields) is Some
                    &&& e == (ContextError::ConflictingVariantMeta {
                        index: self.index,
                        type_info: T::type_info_spec(),
                    })
                    &&& *final(self.docs) == *old(self.docs)
                    &&& *final(self.constructor) == *old(self.constructor)
                }),
            },
    {
        self.make(Fields::Named(fields))
    }

    /// Mark the given variant with unnamed fields.
    ///
    /// The fields are set in any case; where the variant had fields
    /// before, that is reported as a conflict.
    pub fn make_unnamed(self, fields: usize) -> (r: Result<Self, ContextError>)
        ensures
            *final(self.fields) == Some(Fields::Unnamed(fields)) || r is Ok,
            match r {
                Ok(h) => ({
                    &&& *old(self.fields) is None
                    &&& h == (VariantMut { fields: h.fields, ..self })
                    &&& *h.fields == Some(Fields::Unnamed(fields))
                    &&& *final(self.fields) == *final(h.fields)
                }),
                Err(e) => ({
                    &&& *old(self.fields) is Some
                    &&& e == (ContextError::ConflictingVariantMeta {
                        index: self.index,
                        type_info: T::type_info_spec(),
                    })
                    &&& *final(self.docs) == *old(self.docs)
                    &&& *final(self.constructor) == *old(self.constructor)
                }),
            },
    {
        self.make(Fields::Unnamed(fields))
    }

    /// Mark the given variant as empty.
    ///
    /// The fields are set in any case; where the variant had fields
    /// before, that is reported as a conflict.
    pub fn make_empty(self) -> (r: Result<Self, ContextError>)
        ensures
            *final(self.fields) == Some(Fields::Empty) || r is Ok,
            match r {
                Ok(h) => ({
                    &&& *old(self.fields) is None
                    &&& h == (VariantMut { fields: h.fields, ..self })
                    &&& *h.fields == Some(Fields::Empty)
                    &&& *final(self.fields) == *final(h.fields)
                }),
                Err(e) => ({
                    &&& *old(self.fields) is Some
                    &&& e == (ContextError::ConflictingVariantMeta {
                        index: self.index,
                        type_info: T::type_info_spec(),
                    })
                    &&& *final(self.docs) == *old(self.docs)
                    &&& *final(self.constructor) == *old(self.constructor)
                }),
            },
    {
        self.make(Fields::Empty)
    }

    /// Register a constructor method for the current variant. A variant
    /// that has a constructor keeps it, and the conflict is reported.
    pub fn constructor(self, constructor: FunctionHandler) -> (r: Result<Self, ContextError>)
        ensures
            match r {
                Ok(h) => ({
                    &&& *old(self.constructor) is None
                    &&& h == (VariantMut { constructor: h.constructor, ..self })
                    &&& *h.constructor == Some(constructor)
                    &&& *final(self.constructor) == *final(h.constructor)
                }),
                Err(e) => ({
                    &&& *old(self.constructor) is Some
                    &&& e == (ContextError::VariantConstructorConflict {
                        type_info: T::type_info_spec(),
                        index: self.index,
                    })
                    &&& *final(self.docs) == *old(self.docs)
                    &&& *final(self.fields) == *old(self.fields)
                    &&& *final(self.constructor) == *old(self.constructor)
                }),
            },
    {
        if self.constructor.is_some() {
            return Err(
                ContextError::VariantConstructorConflict { type_info: T::type_info(), index: self.index },
            );
        }
        *self.constructor = Some(constructor);
        Ok(self)
    }

    /// Sets the fields of the variant. They are set in any case; where
    /// the variant had fields before, that is reported as a conflict.
    pub fn make(self, fields: Fields) -> (r: Result<Self, ContextError>)
        ensures
            *final(self.fields) == Some(fields) || r is Ok,
            match r {
                Ok(h) => ({
                    &&& *old(self.fields) is None
                    &&& h == (VariantMut { fields: h.fields, ..self })
                    &&& *h.fields == Some(fields)
                    &&& *final(self.fields) == *final(h.fields)
                }),
                Err(e) => ({
                    &&& *old(self.fields) is Some
                    &&& e == (ContextError::ConflictingVariantMeta {
                        index: self.index,
                        type_info: T::type_info_spec(),
                    })
                    &&& *final(self.docs) == *old(self.docs)
                    &&& *final(self.constructor) == *old(self.constructor)
                }),
            },
    {
        let old = self.fields.is_some();
        *self.fields = Some(fields);
        if old {
            return Err(
                ContextError::ConflictingVariantMeta { index: self.index, type_info: T::type_info() },
            );
        }
        Ok(self)
    }
}

/// Access enum metadata mutably.
pub struct EnumMut<'a, T: ?Sized + TypeOf> {
    /// The documentation of the enum.
    pub docs: &'a mut Docs,
    /// The enum.
    pub enum_: &'a mut Enum,
    /// The type of the enum.
    pub _marker: PhantomData<T>,
}

impl<'a, T: ?Sized + TypeOf> EnumMut<'a, T> {
    /// Set documentation for an inserted type.
    ///
    /// This completely replaces any existing documentation.
    pub fn docs(self, docs: &[&str]) -> (r: Self)
        ensures
            r == (EnumMut { docs: r.docs, ..self }),
            r.docs@ == slices(docs@),
            *final(self.docs) == *final(r.docs),
    {
        self.docs.set_docs(docs);
        self
    }

    /// Set static documentation.
    ///
    /// This completely replaces any existing documentation.
    pub fn static_docs(self, docs: &'static [&'static str]) -> (r: Self)
        ensures
            r == (EnumMut { docs: r.docs, ..self }),
            r.docs@ == slices(docs@),
            *final(self.docs) == *final(r.docs),
    {
        self.docs.set_docs(docs);
        self
    }

    /// Get the given variant mutably.
    ///
    /// The handle gives access to the variant with the given number;
    /// what is written through it is written to that variant. A number
    /// that names no variant is reported, and nothing changes.
    pub fn variant_mut(&mut self, index: usize) -> (r: Result<VariantMut<'_, T>, ContextError>)
        ensures
            *final(self).docs == *old(self).docs,
            match r {
                Ok(v) => ({
                    &&& index < old(self).enum_.variants@.len()
                    &&& v.index == index
                    &&& *v.docs == old(self).enum_.variants@[index as int].docs
                    &&& *v.fields == old(self).enum_.variants@[index as int].fields
                    &&& *v.constructor == old(self).enum_.variants@[index as int].constructor
                    &&& final(self).enum_.variants@ == old(self).enum_.variants@.update(
                        index as int,
                        Variant {
                            docs: *final(v.docs),
                            fields: *final(v.fields),
                            constructor: *final(v.constructor),
                            ..old(self).enum_.variants@[index as int]
                        },
                    )
                }),
                Err(e) => ({
                    &&& index >= old(self).enum_.variants@.len()
                    &&& e == (ContextError::MissingVariant { index, type_info: T::type_info_spec() })
                    &&& *final(self).enum_ == *old(self).enum_
                }),
            },
    {
        if index >= self.enum_.variants.len() {
            return Err(ContextError::MissingVariant { index, type_info: T::type_info() });
        }
        let variant = &mut self.enum_.variants[index];
        Ok(
            VariantMut {
                index,
                docs: &mut variant.docs,
                fields: &mut variant.fields,
                constructor: &mut variant.constructor,
                _marker: PhantomData,
            },
        )
    }
}

/// Access internal enum metadata mutably.
pub struct InternalEnumMut<'a, T: ?Sized + TypeOf> {
    /// The internal enum.
    pub enum_: &'a mut InternalEnum,
    /// The type of the enum.
    pub _marker: PhantomData<T>,
}

impl<'a, T: ?Sized + TypeOf> InternalEnumMut<'a, T> {
    /// Set documentation for an inserted internal enum.
    ///
    /// This completely replaces any existing documentation.
    pub fn docs(self, docs: &[&str]) -> (r: Self)
        ensures
            r.enum_.docs@ == slices(docs@),
            *r.enum_ == (InternalEnum { docs: r.enum_.docs, ..*old(self.enum_) }),
            *final(self.enum_) == *final(r.enum_),
    {
        self.enum_.docs.set_docs(docs);
        self
    }

    /// Set static documentation for an inserted internal enum.
    ///
    /// This completely replaces any existing documentation.
    pub fn static_docs(self, docs: &'static [&'static str]) -> (r: Self)
        ensures
            r.enum_.docs@ == slices(docs@),
            *r.enum_ == (InternalEnum { docs: r.enum_.docs, ..*old(self.enum_) }),
            *final(self.enum_) == *final(r.enum_),
    {
        self.enum_.docs.set_docs(docs);
        self
    }

    /// Get the given variant mutably.
    ///
    /// The handle gives access to the variant with the given number;
    /// what is written through it is written to that variant. A number
    /// that names no variant is reported, and nothing changes.
    pub fn variant_mut(&mut self, index: usize) -> (r: Result<VariantMut<'_, T>, ContextError>)
        ensures
            match r {
                Ok(v) => ({
                    &&& index < old(self).enum_.variants@.len()
                    &&& v.index == index
                    &&& *v.docs == old(self).enum_.variants@[index as int].docs
                    &&& *v.fields == old(self).enum_.variants@[index as int].fields
                    &&& *v.constructor == old(self).enum_.variants@[index as int].constructor
                    &&& *final(self).enum_ == (InternalEnum {
                        variants: final(self).enum_.variants,
                        ..*old(self).enum_
                    })
                    &&& final(self).enum_.variants@ == old(self).enum_.variants@.update(
                        index as int,
                        Variant {
                            docs: *final(v.docs),
                            fields: *final(v.fields),
                            constructor: *final(v.constructor),
                            ..old(self).enum_.variants@[index as int]
                        },
                    )
                }),
                Err(e) => ({
                    &&& index >= old(self).enum_.variants@.len()
                    &&& e == (ContextError::MissingVariant { index, type_info: T::type_info_spec() })
                    &&& *final(self).enum_ == *old(self).enum_
                }),
            },
    {
        if index >= self.enum_.variants.len() {
            return Err(ContextError::MissingVariant { index, type_info: T::type_info() });
        }
        let variant = &mut self.enum_.variants[index];
        Ok(
            VariantMut {
                index,
                docs: &mut variant.docs,
                fields: &mut variant.fields,
                constructor: &mut variant.constructor,
                _marker: PhantomData,
            },
        )
    }
}

/// Handle to a a type inserted into a module which allows for mutation of its
/// metadata.
pub struct TypeMut<'a, T: ?Sized + TypeOf> {
    /// The documentation of the type.
    pub docs: &'a mut Docs,
    /// The specification of the type.
    pub spec: &'a mut Option<TypeSpecification>,
    /// The constructor of the type.
    pub constructor: &'a mut Option<FunctionHandler>,
    /// The path of the type.
    pub item: &'a ItemBuf,
    /// The type.
    pub _marker: PhantomData<T>,
}

/// Whether the variants are blank variants with the given names, in the
/// order of the names.
pub open spec fn blank_variants(variants: Seq<Variant>, names: Seq<&'static str>) -> bool {
    &&& variants.len() == names.len()
    &&& forall|i: int| 0 <= i < names.len() ==> (#[trigger] variants[i]).is_blank(names[i])
}

impl<'a, T: ?Sized + TypeOf> TypeMut<'a, T> {
    /// Set documentation for an inserted type.
    ///
    /// This completely replaces any existing documentation.
    pub fn docs(self, docs: &[&str]) -> (r: Self)
        ensures
            r == (TypeMut { docs: r.docs, ..self }),
            r.docs@ == slices(docs@),
            *final(self.docs) == *final(r.docs),
    {
        self.docs.set_docs(docs);
        self
    }

    /// Set static documentation.
    ///
    /// This completely replaces any existing documentation.
    pub fn static_docs(self, docs: &'static [&'static str]) -> (r: Self)
        ensures
            r == (TypeMut { docs: r.docs, ..self }),
            r.docs@ == slices(docs@),
            *final(self.docs) == *final(r.docs),
    {
        self.docs.set_docs(docs);
        self
    }

    /// Mark the current type as a struct with named fields.
    ///
    /// The specification is set in any case; where the type had one
    /// before, that is reported as a conflict.
    pub fn make_named_struct(self, fields: &'static [&'static str]) -> (r: Result<Self, ContextError>)
        ensures
            *final(self.spec) == Some(TypeSpecification::Struct(Fields::Named(fields))) || r is Ok,
            match r {
                Ok(h) => ({
                    &&& *old(self.spec) is None
                    &&& h == (TypeMut { spec: h.spec, ..self })
                    &&& *h.spec == Some(TypeSpecification::Struct(Fields::Named(fields)))
                    &&& *final(self.spec) == *final(h.spec)
                }),
                Err(e) => ({
                    &&& *old(self.spec) is Some
                    &&& e@ == (ContextErrorView::ConflictingTypeMeta {
                        item: self.item@,
                        type_info: T::type_info_spec(),
                    })
                    &&& *final(self.docs) == *old(self.docs)
                    &&& *final(self.constructor) == *old(self.constructor)
                }),
            },
    {
        self.make_struct(Fields::Named(fields))
    }

    /// Mark the current type as a struct with unnamed fields.
    ///
    /// The specification is set in any case; where the type had one
    /// before, that is reported as a conflict.
    pub fn make_unnamed_struct(self, fields: usize) -> (r: Result<Self, ContextError>)
        ensures
            *final(self.spec) == Some(TypeSpecification::Struct(Fields::Unnamed(fields))) || r is Ok,
            match r {
                Ok(h) => ({
                    &&& *old(self.spec) is None
                    &&& h == (TypeMut { spec: h.spec, ..self })
                    &&& *h.spec == Some(TypeSpecification::Struct(Fields::Unnamed(fields)))
                    &&& *final(self.spec) == *final(h.spec)
                }),
                Err(e) => ({
                    &&& *old(self.spec) is Some
                    &&& e@ == (ContextErrorView::ConflictingTypeMeta {
                        item: self.item@,
                        type_info: T::type_info_spec(),
                    })
                    &&& *final(self.docs) == *old(self.docs)
                    &&& *final(self.constructor) == *old(self.constructor)
                }),
            },
    {
        self.make_struct(Fields::Unnamed(fields))
    }

    /// Mark the current type as an empty struct.
    ///
    /// The specification is set in any case; where the type had one
    /// before, that is reported as a conflict.
    pub fn make_empty_struct(self) -> (r: Result<Self, ContextError>)
        ensures
            *final(self.spec) == Some(TypeSpecification::Struct(Fields::Empty)) || r is Ok,
            match r {
                Ok(h) => ({
                    &&& *old(self.spec) is None
                    &&& h == (TypeMut { spec: h.spec, ..self })
                    &&& *h.spec == Some(TypeSpecification::Struct(Fields::Empty))
                    &&& *final(self.spec) == *final(h.spec)
                }),
                Err(e) => ({
                    &&& *old(self.spec) is Some
                    &&& e@ == (ContextErrorView::ConflictingTypeMeta {
                        item: self.item@,
                        type_info: T::type_info_spec(),
                    })
                    &&& *final(self.docs) == *old(self.docs)
                    &&& *final(self.constructor) == *old(self.constructor)
                }),
            },
    {
        self.make_struct(Fields::Empty)
    }

    /// Mark the current type as an enum with blank variants of the given
    /// names.
    ///
    /// The specification is set in any case; where the type had one
    /// before, that is reported as a conflict. Otherwise the handle that
    /// is returned gives access to the documentation of the type and to the
    /// new enum: what is written through it is written to the type.
    pub fn make_enum(self, variants: &'static [&'static str]) -> (r: Result<EnumMut<'a, T>, ContextError>)
        ensures
            match r {
                Ok(h) => ({
                    &&& *old(self.spec) is None
                    &&& *h.docs == *old(self.docs)
                    &&& blank_variants(h.enum_.variants@, variants@)
                    &&& *final(self.docs) == *final(h.docs)
                    &&& *final(self.spec) == Some(TypeSpecification::Enum(*final(h.enum_)))
                    &&& *final(self.constructor) == *old(self.constructor)
                }),
                Err(e) => ({
                    &&& *old(self.spec) is Some
                    &&& e@ == (ContextErrorView::ConflictingTypeMeta {
                        item: self.item@,
                        type_info: T::type_info_spec(),
                    })
                    &&& *final(self.spec) matches Some(TypeSpecification::Enum(made))
                    &&& blank_variants(made.variants@, variants@)
                    &&& *final(self.docs) == *old(self.docs)
                    &&& *final(self.constructor) == *old(self.constructor)
                }),
            },
    {
        let mut list: Vec<Variant> = Vec::with_capacity(variants.len());
        let mut i: usize = 0;
        while i < variants.len()
            invariant
                i <= variants.len(),
                blank_variants(list@, variants@.take(i as int)),
            decreases variants.len() - i,
        {
            list.push(Variant::new(variants[i]));
            i += 1;
        }
        assert(variants@.take(variants.len() as int) =~= variants@);
        let old = self.spec.is_some();
        *self.spec = Some(TypeSpecification::Enum(Enum { variants: list }));
        if old {
            return Err(
                ContextError::ConflictingTypeMeta { item: self.item.to_owned(), type_info: T::type_info() },
            );
        }
        let TypeMut { docs, spec, constructor, item, _marker } = self;
        match spec {
            Some(TypeSpecification::Enum(enum_)) => Ok(EnumMut { docs, enum_, _marker: PhantomData }),
            _ => vstd::pervasive::unreached(),
        }
    }

    /// Register a constructor method for the current type. A type that
    /// has a constructor keeps it, and the conflict is reported.
    pub fn constructor(self, constructor: FunctionHandler) -> (r: Result<Self, ContextError>)
        ensures
            match r {
                Ok(h) => ({
                    &&& *old(self.constructor) is None
                    &&& h == (TypeMut { constructor: h.constructor, ..self })
                    &&& *h.constructor == Some(constructor)
                    &&& *final(self.constructor) == *final(h.constructor)
                }),
                Err(e) => ({
                    &&& *old(self.constructor) is Some
                    &&& e == (ContextError::ConstructorConflict { type_info: T::type_info_spec() })
                    &&& *final(self.docs) == *old(self.docs)
                    &&& *final(self.spec) == *old(self.spec)
                    &&& *final(self.constructor) == *old(self.constructor)
                }),
            },
    {
        if self.constructor.is_some() {
            return Err(ContextError::ConstructorConflict { type_info: T::type_info() });
        }
        *self.constructor = Some(constructor);
        Ok(self)
    }

    /// Sets the specification of the type to a struct. It is set in any
    /// case; where the type had a specification before, that is reported
    /// as a conflict.
    pub fn make_struct(self, fields: Fields) -> (r: Result<Self, ContextError>)
        ensures
            *final(self.spec) == Some(TypeSpecification::Struct(fields)) || r is Ok,
            match r {
                Ok(h) => ({
                    &&& *old(self.spec) is None
                    &&& h == (TypeMut { spec: h.spec, ..self })
                    &&& *h.spec == Some(TypeSpecification::Struct(fields))
                    &&& *final(self.spec) == *final(h.spec)
                }),
                Err(e) => ({
                    &&& *old(self.spec) is Some
                    &&& e@ == (ContextErrorView::ConflictingTypeMeta {
                        item: self.item@,
                        type_info: T::type_info_spec(),
                    })
                    &&& *final(self.docs) == *old(self.docs)
                    &&& *final(self.constructor) == *old(self.constructor)
                }),
            },
    {
        let old = self.spec.is_some();
        *self.spec = Some(TypeSpecification::Struct(fields));
        if old {
            return Err(
                ContextError::ConflictingTypeMeta { item: self.item.to_owned(), type_info: T::type_info() },
            );
        }
        Ok(self)
    }
}

/// Data for an opaque type. If `spec` is set, indicates things which are known
/// about that type.
#[derive(Debug, PartialEq, Eq)]
pub struct ModuleType {
    /// The path of the installed type.
    pub item: ItemBuf,
    /// Type hash.
    pub hash: crate::hash::Hash,
    /// Type parameters for this item.
    pub type_parameters: crate::hash::Hash,
    /// Type information for the installed type.
    pub type_info: TypeInfo,
    /// The specification for the type.
    pub spec: Option<TypeSpecification>,
    /// Handler to use if this type can be constructed through a regular function call.
    pub constructor: Option<FunctionHandler>,
    /// Documentation for the type.
    pub docs: Docs,
}

impl ModuleType {
    /// A handle to the metadata of the type. What is written through the
    /// handle is written to the type.
    pub fn type_mut<T: ?Sized + TypeOf>(&mut self) -> (r: TypeMut<'_, T>)
        ensures
            *r.docs == old(self).docs,
            *r.spec == old(self).spec,
            *r.constructor == old(self).constructor,
            *r.item == old(self).item,
            *final(self) == (ModuleType {
                docs: *final(r.docs),
                spec: *final(r.spec),
                constructor: *final(r.constructor),
                ..*old(self)
            }),
    {
        TypeMut {
            docs: &mut self.docs,
            spec: &mut self.spec,
            constructor: &mut self.constructor,
            item: &self.item,
            _marker: PhantomData,
        }
    }
}

/// A function of a native module.
#[derive(Debug, PartialEq, Eq)]
pub struct ModuleFunction {
    /// The path of the function.
    pub item: ItemBuf,
    /// The handler of the function.
    pub handler: FunctionHandler,
    /// Whether the function is async.
    pub is_async: bool,
    /// A note that the function is deprecated.
    pub deprecated: Option<String>,
    /// The number of arguments of the function.
    pub args: Option<usize>,
    /// The type that the function returns.
    pub return_type: Option<FullTypeOf>,
    /// The types of the arguments of the function.
    pub argument_types: Vec<Option<FullTypeOf>>,
    /// The documentation of the function.
    pub docs: Docs,
}

impl ModuleFunction {
    /// A function of which only the path and the handler are known.
    pub fn new(item: ItemBuf, handler: FunctionHandler) -> (r: ModuleFunction)
        ensures
            r.item == item,
            r.handler == handler,
            !r.is_async,
            r.deprecated is None,
            r.args is None,
            r.return_type is None,
            r.argument_types@.len() == 0,
            r.docs@ == Seq::<Seq<char>>::empty(),
    {
        ModuleFunction {
            item,
            handler,
            is_async: false,
            deprecated: None,
            args: None,
            return_type: None,
            argument_types: Vec::new(),
            docs: Docs::empty(),
        }
    }

    /// A handle to the metadata of the function. What is written through
    /// the handle is written to the function.
    pub fn item_fn_mut(&mut self) -> (r: ItemFnMut<'_>)
        ensures
            *r.docs == old(self).docs,
            *r.is_async == old(self).is_async,
            *r.deprecated == old(self).deprecated,
            *r.args == old(self).args,
            *r.return_type == old(self).return_type,
            *r.argument_types == old(self).argument_types,
            *final(self) == (ModuleFunction {
                docs: *final(r.docs),
                is_async: *final(r.is_async),
                deprecated: *final(r.deprecated),
                args: *final(r.args),
                return_type: *final(r.return_type),
                argument_types: *final(r.argument_types),
                ..*old(self)
            }),
    {
        ItemFnMut {
            docs: &mut self.docs,
            is_async: &mut self.is_async,
            deprecated: &mut self.deprecated,
            args: &mut self.args,
            return_type: &mut self.return_type,
            argument_types: &mut self.argument_types,
        }
    }
}

/// A native module: the types, functions and internal enums that it
/// provides.
#[derive(Debug, PartialEq, Eq)]
pub struct Module {
    /// The path of the module.
    pub item: ItemBuf,
    /// The types of the module.
    pub types: Vec<ModuleType>,
    /// The functions of the module.
    pub functions: Vec<ModuleFunction>,
    /// The internal enums of the module.
    pub internal_enums: Vec<InternalEnum>,
}

impl Module {
    /// An empty module at the given path.
    pub fn with_item(item: ItemBuf) -> (module: Module)
        ensures
            module.item == item,
            module.types@.len() == 0,
            module.functions@.len() == 0,
            module.internal_enums@.len() == 0,
    {
        Module { item, types: Vec::new(), functions: Vec::new(), internal_enums: Vec::new() }
    }
}

/// Trait to handle the installation of auxilliary functions for a type
/// installed into a module.
pub trait InstallWith {
    /// Hook to install more things into the module. Unless a type says
    /// otherwise, nothing is installed.
    fn install_with(module: &mut Module) -> (r: Result<(), ContextError>)
        default_ensures
            r is Ok,
            *final(module) == *old(module),
    {
        Ok(())
    }
}

} // verus!
