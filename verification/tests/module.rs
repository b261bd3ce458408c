use rune_unit::context::FunctionHandler;
use rune_unit::item::{Component, ItemBuf};
use rune_unit::module::{
    ContextError, Docs, Enum, Fields, InstallWith, InternalEnum, InternalEnumMut, ItemMut, Module,
    ModuleFunction, ModuleType, TypeCheck, TypeSpecification, Variant,
};
use rune_unit::type_of::{
    AnyTypeInfo, FullTypeOf, MaybeTypeOf, StaticType, TypeInfo, TypeOf,
};
use std::marker::PhantomData;

type Fp = rune_unit::hash::Hash;

struct Point;

impl TypeOf for Point {
    fn type_hash_spec() -> Fp {
        unreachable!()
    }

    fn type_info_spec() -> TypeInfo {
        unreachable!()
    }

    fn type_hash() -> Fp {
        Fp::new(7)
    }

    fn type_info() -> TypeInfo {
        TypeInfo::Any(AnyTypeInfo { name: "Point", hash: Fp::new(7) })
    }
}

impl MaybeTypeOf for Point {
    fn maybe_type_of_spec() -> Option<FullTypeOf> {
        unreachable!()
    }

    fn maybe_type_of() -> Option<FullTypeOf> {
        Some(Point::type_of())
    }
}

impl InstallWith for Point {}

struct Nothing;

impl MaybeTypeOf for Nothing {
    fn maybe_type_of_spec() -> Option<FullTypeOf> {
        unreachable!()
    }

    fn maybe_type_of() -> Option<FullTypeOf> {
        None
    }
}

fn info() -> TypeInfo {
    Point::type_info()
}

fn path() -> ItemBuf {
    ItemBuf::with_item(vec![Component::Str("Point".to_string())])
}

fn module_type() -> ModuleType {
    ModuleType {
        item: path(),
        hash: Fp::new(7),
        type_parameters: Fp::empty(),
        type_info: info(),
        spec: None,
        constructor: None,
        docs: Docs::empty(),
    }
}

fn handler(args: usize) -> FunctionHandler {
    FunctionHandler { hash: Fp::new(100), args }
}

fn lines(docs: &Docs) -> Vec<&str> {
    docs.docs.iter().map(|s| s.as_str()).collect()
}

#[test]
fn type_of_combines_hash_and_info() {
    assert_eq!(Point::type_of(), FullTypeOf { hash: Fp::new(7), type_info: info() });
    assert_eq!(<&Point as TypeOf>::type_of(), Point::type_of());
    assert_eq!(<Box<Point> as TypeOf>::type_hash(), Fp::new(7));
    assert_eq!(<&Point as TypeOf>::type_info(), info());
}

#[test]
fn item_docs_replace_the_documentation() {
    let mut docs = Docs::empty();
    ItemMut { docs: &mut docs }.docs(&["one", "two"]);
    assert_eq!(lines(&docs), vec!["one", "two"]);
    ItemMut { docs: &mut docs }.static_docs(&["three"]).docs(&[]).static_docs(&["four"]);
    assert_eq!(lines(&docs), vec!["four"]);
}

#[test]
fn function_metadata_is_written_through_the_handle() {
    let mut function = ModuleFunction::new(path(), handler(2));
    function
        .item_fn_mut()
        .docs(&["doc"])
        .is_async(true)
        .deprecated("use other")
        .args(2)
        .return_type::<Point>()
        .argument_types([Some(Point::type_of()), None]);
    assert_eq!(lines(&function.docs), vec!["doc"]);
    assert!(function.is_async);
    assert_eq!(function.deprecated, Some("use other".to_string()));
    assert_eq!(function.args, Some(2));
    assert_eq!(function.return_type, Some(Point::type_of()));
    assert_eq!(function.argument_types, vec![Some(Point::type_of()), None]);
    assert_eq!(function.handler, handler(2));
    function.item_fn_mut().return_type::<Nothing>().is_async(false).argument_types([]);
    assert_eq!(function.return_type, None);
    assert!(!function.is_async);
    assert!(function.argument_types.is_empty());
    assert_eq!(function.args, Some(2));
}

#[test]
fn struct_specification_is_set_once() {
    let mut ty = module_type();
    assert!(ty.type_mut::<Point>().make_unnamed_struct(2).is_ok());
    assert_eq!(ty.spec, Some(TypeSpecification::Struct(Fields::Unnamed(2))));
    let error = ty.type_mut::<Point>().make_empty_struct().err().unwrap();
    assert_eq!(error, ContextError::ConflictingTypeMeta { item: path(), type_info: info() });
    assert_eq!(ty.spec, Some(TypeSpecification::Struct(Fields::Empty)));
    let error = ty.type_mut::<Point>().make_named_struct(&["x", "y"]).err().unwrap();
    assert_eq!(error, ContextError::ConflictingTypeMeta { item: path(), type_info: info() });
    assert_eq!(ty.spec, Some(TypeSpecification::Struct(Fields::Named(&["x", "y"]))));
}

#[test]
fn named_and_empty_struct_on_a_fresh_type() {
    let mut ty = module_type();
    ty.type_mut::<Point>().make_named_struct(&["x"]).unwrap().docs(&["d"]).static_docs(&["e"]);
    assert_eq!(ty.spec, Some(TypeSpecification::Struct(Fields::Named(&["x"]))));
    assert_eq!(lines(&ty.docs), vec!["e"]);
    let mut ty = module_type();
    ty.type_mut::<Point>().make_empty_struct().unwrap();
    assert_eq!(ty.spec, Some(TypeSpecification::Struct(Fields::Empty)));
}

#[test]
fn type_constructor_is_set_once_and_kept() {
    let mut ty = module_type();
    assert!(ty.type_mut::<Point>().constructor(handler(1)).is_ok());
    let error = ty.type_mut::<Point>().constructor(handler(2)).err().unwrap();
    assert_eq!(error, ContextError::ConstructorConflict { type_info: info() });
    assert_eq!(ty.constructor, Some(handler(1)));
}

#[test]
fn make_enum_gives_blank_variants() {
    let mut ty = module_type();
    {
        let mut handle = ty.type_mut::<Point>().make_enum(&["A", "B"]).unwrap().docs(&["an enum"]);
        handle.variant_mut(0).unwrap().make_unnamed(2).unwrap().docs(&["first"]);
        handle.variant_mut(1).unwrap().make_empty().unwrap().constructor(handler(0)).unwrap();
        let error = handle.variant_mut(2).err().unwrap();
        assert_eq!(error, ContextError::MissingVariant { index: 2, type_info: info() });
    }
    assert_eq!(lines(&ty.docs), vec!["an enum"]);
    match &ty.spec {
        Some(TypeSpecification::Enum(e)) => {
            assert_eq!(e.variants.len(), 2);
            assert_eq!(e.variants[0].name, "A");
            assert_eq!(e.variants[0].fields, Some(Fields::Unnamed(2)));
            assert_eq!(e.variants[0].type_check, None);
            assert_eq!(lines(&e.variants[0].docs), vec!["first"]);
            assert_eq!(e.variants[1].name, "B");
            assert_eq!(e.variants[1].fields, Some(Fields::Empty));
            assert_eq!(e.variants[1].constructor, Some(handler(0)));
        }
        other => panic!("unexpected specification {:?}", other),
    }
}

#[test]
fn make_enum_on_a_specified_type_is_a_conflict() {
    let mut ty = module_type();
    ty.type_mut::<Point>().make_empty_struct().unwrap();
    let error = ty.type_mut::<Point>().make_enum(&["A"]).err().unwrap();
    assert_eq!(error, ContextError::ConflictingTypeMeta { item: path(), type_info: info() });
    match &ty.spec {
        Some(TypeSpecification::Enum(e)) => assert_eq!(e.variants.len(), 1),
        other => panic!("unexpected specification {:?}", other),
    }
}

#[test]
fn variant_fields_are_set_once() {
    let mut variant = Variant::new("V");
    let mut e = Enum { variants: vec![] };
    e.variants.push(Variant::new("W"));
    let mut docs = Docs::empty();
    let mut handle = rune_unit::module::EnumMut::<Point> { docs: &mut docs, enum_: &mut e, _marker: PhantomData };
    handle.variant_mut(0).unwrap().make_named(&["a"]).unwrap().static_docs(&["s"]);
    let error = handle.variant_mut(0).unwrap().make_unnamed(1).err().unwrap();
    assert_eq!(error, ContextError::ConflictingVariantMeta { index: 0, type_info: info() });
    let error = handle.variant_mut(0).unwrap().make_empty().err().unwrap();
    assert_eq!(error, ContextError::ConflictingVariantMeta { index: 0, type_info: info() });
    handle.static_docs(&["enum"]);
    assert_eq!(e.variants[0].fields, Some(Fields::Empty));
    assert_eq!(lines(&e.variants[0].docs), vec!["s"]);
    assert_eq!(lines(&docs), vec!["enum"]);
    variant.fields = Some(Fields::Empty);
    assert_eq!(variant.name, "V");
}

#[test]
fn variant_constructor_is_set_once_and_kept() {
    let mut e = Enum { variants: vec![Variant::new("A")] };
    let mut docs = Docs::empty();
    let mut handle = rune_unit::module::EnumMut::<Point> { docs: &mut docs, enum_: &mut e, _marker: PhantomData };
    handle.variant_mut(0).unwrap().constructor(handler(1)).unwrap();
    let error = handle.variant_mut(0).unwrap().constructor(handler(2)).err().unwrap();
    assert_eq!(error, ContextError::VariantConstructorConflict { type_info: info(), index: 0 });
    assert_eq!(e.variants[0].constructor, Some(handler(1)));
}

#[test]
fn internal_enum_variants() {
    let static_type = StaticType { name: "GeneratorState", hash: Fp::new(9) };
    let mut e = InternalEnum::new("GeneratorState", path(), static_type);
    e.variant("Yielded", TypeCheck::GeneratorState(0), handler(1)).docs(&["yielded"]);
    e.variant("Complete", TypeCheck::GeneratorState(1), handler(3)).static_docs(&["complete"]);
    assert_eq!(e.variants.len(), 2);
    assert_eq!(e.variants[0].name, "Yielded");
    assert_eq!(e.variants[0].type_check, Some(TypeCheck::GeneratorState(0)));
    assert_eq!(e.variants[0].fields, Some(Fields::Unnamed(1)));
    assert_eq!(e.variants[0].constructor, Some(handler(1)));
    assert_eq!(lines(&e.variants[0].docs), vec!["yielded"]);
    assert_eq!(e.variants[1].fields, Some(Fields::Unnamed(3)));
    assert_eq!(lines(&e.variants[1].docs), vec!["complete"]);

    let mut handle = InternalEnumMut::<Point> { enum_: &mut e, _marker: PhantomData }.docs(&["a"]).static_docs(&["b"]);
    handle.variant_mut(1).unwrap().docs(&["changed"]);
    let error = handle.variant_mut(5).err().unwrap();
    assert_eq!(error, ContextError::MissingVariant { index: 5, type_info: info() });
    let error = handle.variant_mut(0).unwrap().make_empty().err().unwrap();
    assert_eq!(error, ContextError::ConflictingVariantMeta { index: 0, type_info: info() });
    assert_eq!(lines(&e.docs), vec!["b"]);
    assert_eq!(lines(&e.variants[1].docs), vec!["changed"]);
    assert_eq!(e.name, "GeneratorState");
}

#[test]
fn install_with_installs_nothing_by_default() {
    let mut module = Module::with_item(path());
    assert!(Point::install_with(&mut module).is_ok());
    assert_eq!(module, Module::with_item(path()));
}
