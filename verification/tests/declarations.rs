use rune_unit::const_value::ConstValue;
use rune_unit::debug::DebugArgs;
use rune_unit::error::ErrorKind;
use rune_unit::inst::UnitFn;
use rune_unit::item::{Component, ItemBuf};
use rune_unit::meta::{Fields, Kind, Meta};
use rune_unit::query::QueryInner;
use rune_unit::span::Span;
use rune_unit::unit_builder::{UnitBuilder, INTO_TYPE_NAME};

type Fp = rune_unit::hash::Hash;

fn span() -> Span {
    Span::new(1, 2)
}

fn path(name: &str) -> ItemBuf {
    ItemBuf::with_item(vec![Component::Crate("app".to_string()), Component::Str(name.to_string())])
}

fn meta(hash: u64, name: &str, kind: Kind) -> Meta {
    Meta { hash: Fp::new(hash), item: path(name), kind }
}

fn type_name_key(hash: Fp) -> u64 {
    Fp::associated_function(hash, Fp::new(INTO_TYPE_NAME)).0
}

#[test]
fn empty_struct_registers_constructor_descriptor_and_name() {
    let mut b = UnitBuilder::new();
    let q = QueryInner::new();
    b.insert_meta(span(), &meta(10, "Unit", Kind::Struct { fields: Fields::Empty }), &q).unwrap();
    assert_eq!(b.functions.get(&10), Some(&UnitFn::EmptyStruct { hash: Fp::new(10) }));
    let rtti = b.rtti.get(&10).unwrap();
    assert_eq!(rtti.hash, Fp::new(10));
    assert_eq!(rtti.item, path("Unit"));
    assert_eq!(
        b.constants.get(&type_name_key(Fp::new(10))),
        Some(&ConstValue::String("::app::Unit".to_string()))
    );
    let debug = b.debug.as_ref().unwrap();
    let signature = debug.functions.get(&10).unwrap();
    assert_eq!(signature.path, path("Unit"));
    assert_eq!(signature.args, DebugArgs::EmptyArgs);
}

#[test]
fn tuple_struct_registers_constructor_with_arity() {
    let mut b = UnitBuilder::new();
    let q = QueryInner::new();
    b.insert_meta(span(), &meta(11, "Pair", Kind::Struct { fields: Fields::Unnamed(2) }), &q).unwrap();
    assert_eq!(b.functions.get(&11), Some(&UnitFn::TupleStruct { hash: Fp::new(11), args: 2 }));
    assert!(b.rtti.contains_key(&11));
    assert_eq!(b.debug.as_ref().unwrap().functions.get(&11).unwrap().args, DebugArgs::TupleArgs(2));
}

#[test]
fn named_struct_registers_only_descriptor_and_name() {
    let mut b = UnitBuilder::new();
    let q = QueryInner::new();
    let fields = Fields::Named(vec!["x".to_string()]);
    b.insert_meta(span(), &meta(12, "Point", Kind::Struct { fields }), &q).unwrap();
    let hash = Fp::type_hash(&path("Point"));
    assert!(b.functions.is_empty());
    assert_eq!(b.rtti.get(&hash.0).unwrap().hash, hash);
    assert_eq!(
        b.constants.get(&type_name_key(hash)),
        Some(&ConstValue::String("::app::Point".to_string()))
    );
    assert!(b.debug.is_none());
}

#[test]
fn external_type_registers_descriptor_under_its_path() {
    let mut b = UnitBuilder::new();
    let q = QueryInner::new();
    b.insert_meta(span(), &meta(13, "Opaque", Kind::Type), &q).unwrap();
    let hash = Fp::type_hash(&path("Opaque"));
    assert!(b.rtti.contains_key(&hash.0));
    assert!(!b.rtti.contains_key(&13));
    assert!(b.functions.is_empty());
}

#[test]
fn enum_registers_descriptor_and_name() {
    let mut b = UnitBuilder::new();
    let q = QueryInner::new();
    b.insert_meta(span(), &meta(14, "Color", Kind::Enum), &q).unwrap();
    assert_eq!(b.rtti.get(&14).unwrap().item, path("Color"));
    assert_eq!(
        b.constants.get(&type_name_key(Fp::new(14))),
        Some(&ConstValue::String("::app::Color".to_string()))
    );
    assert!(b.functions.is_empty());
    assert!(b.variant_rtti.is_empty());
}

#[test]
fn empty_variant_registers_constructor_and_descriptor() {
    let mut b = UnitBuilder::new();
    let q = QueryInner::new();
    let kind = Kind::Variant { enum_hash: Fp::new(14), fields: Fields::Empty };
    b.insert_meta(span(), &meta(15, "Red", kind), &q).unwrap();
    assert_eq!(b.functions.get(&15), Some(&UnitFn::UnitVariant { hash: Fp::new(15) }));
    let rtti = b.variant_rtti.get(&15).unwrap();
    assert_eq!(rtti.enum_hash, Fp::new(14));
    assert_eq!(rtti.hash, Fp::new(15));
    assert_eq!(rtti.item, path("Red"));
    assert!(b.constants.is_empty());
    assert!(b.rtti.is_empty());
}

#[test]
fn tuple_variant_registers_constructor_with_arity() {
    let mut b = UnitBuilder::new();
    let q = QueryInner::new();
    let kind = Kind::Variant { enum_hash: Fp::new(14), fields: Fields::Unnamed(3) };
    b.insert_meta(span(), &meta(16, "Rgb", kind), &q).unwrap();
    assert_eq!(b.functions.get(&16), Some(&UnitFn::TupleVariant { hash: Fp::new(16), args: 3 }));
    assert_eq!(b.debug.as_ref().unwrap().functions.get(&16).unwrap().args, DebugArgs::TupleArgs(3));
}

#[test]
fn named_variant_registers_only_descriptor() {
    let mut b = UnitBuilder::new();
    let q = QueryInner::new();
    let kind = Kind::Variant { enum_hash: Fp::new(14), fields: Fields::Named(vec!["r".to_string()]) };
    b.insert_meta(span(), &meta(17, "Named", kind), &q).unwrap();
    let hash = Fp::type_hash(&path("Named"));
    assert_eq!(b.variant_rtti.get(&hash.0).unwrap().enum_hash, Fp::new(14));
    assert!(b.functions.is_empty());
}

#[test]
fn constant_takes_the_evaluated_value() {
    let mut b = UnitBuilder::new();
    let mut q = QueryInner::new();
    q.insert_const_value(Fp::new(18), ConstValue::Integer(42));
    b.insert_meta(span(), &meta(18, "ANSWER", Kind::Const), &q).unwrap();
    assert_eq!(b.constants.get(&18), Some(&ConstValue::Integer(42)));
}

#[test]
fn constant_without_value_fails() {
    let mut b = UnitBuilder::new();
    let q = QueryInner::new();
    let error = b.insert_meta(span(), &meta(18, "ANSWER", Kind::Const), &q).unwrap_err();
    assert_eq!(error.span, span());
    assert_eq!(error.kind, ErrorKind::MissingConstant { hash: Fp::new(18) });
    assert!(b.constants.is_empty());
}

#[test]
fn other_kinds_register_nothing() {
    let q = QueryInner::new();
    let kinds = vec![
        Kind::Macro,
        Kind::AttributeMacro,
        Kind::Function { is_test: false, is_bench: false },
        Kind::Closure,
        Kind::AsyncBlock,
        Kind::ConstFn,
        Kind::Import,
        Kind::Module,
    ];
    for kind in kinds {
        let mut b = UnitBuilder::new();
        b.insert_meta(span(), &meta(19, "x", kind), &q).unwrap();
        assert!(b.functions.is_empty());
        assert!(b.rtti.is_empty());
        assert!(b.variant_rtti.is_empty());
        assert!(b.constants.is_empty());
        assert!(b.debug.is_none());
    }
}

#[test]
fn duplicate_struct_is_a_type_conflict_and_keeps_the_first() {
    let mut b = UnitBuilder::new();
    let q = QueryInner::new();
    b.insert_meta(span(), &meta(10, "First", Kind::Struct { fields: Fields::Empty }), &q).unwrap();
    let error = b
        .insert_meta(span(), &meta(10, "Second", Kind::Struct { fields: Fields::Unnamed(1) }), &q)
        .unwrap_err();
    assert_eq!(error.kind, ErrorKind::TypeRttiConflict { hash: Fp::new(10) });
    assert_eq!(b.functions.get(&10), Some(&UnitFn::EmptyStruct { hash: Fp::new(10) }));
    assert_eq!(b.rtti.get(&10).unwrap().item, path("First"));
    assert_eq!(
        b.constants.get(&type_name_key(Fp::new(10))),
        Some(&ConstValue::String("::app::First".to_string()))
    );
}

#[test]
fn struct_over_a_function_is_a_function_conflict_that_names_the_fingerprint() {
    let mut b = UnitBuilder::new();
    let q = QueryInner::new();
    let variant = Kind::Variant { enum_hash: Fp::new(1), fields: Fields::Unnamed(2) };
    b.insert_meta(span(), &meta(20, "Variant", variant), &q).unwrap();
    let error = b
        .insert_meta(span(), &meta(20, "Struct", Kind::Struct { fields: Fields::Empty }), &q)
        .unwrap_err();
    match error.kind {
        ErrorKind::FunctionConflict { hash, existing } => {
            assert_eq!(hash, Fp::new(20));
            assert_eq!(existing.path, path("Variant"));
            assert_eq!(existing.args, DebugArgs::TupleArgs(2));
        }
        other => panic!("unexpected error {:?}", other),
    }
    assert_eq!(b.functions.get(&20), Some(&UnitFn::TupleVariant { hash: Fp::new(20), args: 2 }));
    assert!(b.rtti.is_empty());
    assert_eq!(b.debug.as_ref().unwrap().functions.get(&20).unwrap().path, path("Variant"));
}

#[test]
fn duplicate_variant_is_a_variant_conflict_and_keeps_the_first() {
    let mut b = UnitBuilder::new();
    let q = QueryInner::new();
    let first = Kind::Variant { enum_hash: Fp::new(1), fields: Fields::Empty };
    let second = Kind::Variant { enum_hash: Fp::new(2), fields: Fields::Empty };
    b.insert_meta(span(), &meta(21, "A", first), &q).unwrap();
    let error = b.insert_meta(span(), &meta(21, "B", second), &q).unwrap_err();
    assert_eq!(error.kind, ErrorKind::VariantRttiConflict { hash: Fp::new(21) });
    assert_eq!(b.variant_rtti.get(&21).unwrap().enum_hash, Fp::new(1));
    assert_eq!(b.variant_rtti.get(&21).unwrap().item, path("A"));
}

#[test]
fn duplicate_enum_is_a_type_conflict() {
    let mut b = UnitBuilder::new();
    let q = QueryInner::new();
    b.insert_meta(span(), &meta(22, "E", Kind::Enum), &q).unwrap();
    let error = b.insert_meta(span(), &meta(22, "F", Kind::Enum), &q).unwrap_err();
    assert_eq!(error.kind, ErrorKind::TypeRttiConflict { hash: Fp::new(22) });
    assert_eq!(b.rtti.get(&22).unwrap().item, path("E"));
}

#[test]
fn declarations_in_either_order_give_the_same_tables() {
    let q = QueryInner::new();
    let mut one = UnitBuilder::new();
    one.insert_meta(span(), &meta(1, "A", Kind::Struct { fields: Fields::Empty }), &q).unwrap();
    one.insert_meta(span(), &meta(2, "B", Kind::Struct { fields: Fields::Unnamed(1) }), &q).unwrap();
    let mut two = UnitBuilder::new();
    two.insert_meta(span(), &meta(2, "B", Kind::Struct { fields: Fields::Unnamed(1) }), &q).unwrap();
    two.insert_meta(span(), &meta(1, "A", Kind::Struct { fields: Fields::Empty }), &q).unwrap();
    assert_eq!(one.functions, two.functions);
    assert_eq!(one.rtti, two.rtti);
    assert_eq!(one.constants, two.constants);
}

#[test]
fn debug_ident_is_kept_under_its_fingerprint() {
    let mut b = UnitBuilder::new();
    b.insert_debug_ident("value");
    assert_eq!(b.hash_to_ident.get(&Fp::ident("value").0), Some(&"value".to_string()));
}
