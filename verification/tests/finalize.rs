use rune_unit::const_value::ConstValue;
use rune_unit::error::ErrorKind;
use rune_unit::inst::{Call, Inst, UnitFn};
use rune_unit::item::{Component, ItemBuf};
use rune_unit::meta::{Kind, Meta};
use rune_unit::query::QueryInner;
use rune_unit::span::{Location, SourceId, Span};
use rune_unit::unit::ArrayUnit;
use rune_unit::unit_builder::{ReExport, UnitBuilder};

type Fp = rune_unit::hash::Hash;

fn path(name: &str) -> ItemBuf {
    ItemBuf::with_item(vec![Component::Str(name.to_string())])
}

fn location() -> Location {
    Location::new(SourceId::new(0), Span::new(5, 6))
}

fn span() -> Span {
    Span::new(40, 50)
}

fn with_function(name: &str) -> (UnitBuilder, ArrayUnit) {
    let mut b = UnitBuilder::new();
    let mut storage = ArrayUnit::new();
    let mut body = b.new_assembly(location());
    body.push(Inst::ReturnUnit, Span::new(0, 1));
    b.new_function(location(), &path(name), None, 0, body, Call::Immediate, vec![], &mut storage).unwrap();
    (b, storage)
}

#[test]
fn reexport_of_a_function_copies_its_entry() {
    let (mut b, storage) = with_function("target");
    b.new_function_reexport(location(), &path("alias"), &path("target")).unwrap();
    assert_eq!(
        b.reexports,
        vec![ReExport { from: Fp::type_hash(&path("alias")), to: Fp::type_hash(&path("target")) }]
    );
    let unit = b.build(span(), storage).unwrap();
    let info = UnitFn::Offset { offset: 0, call: Call::Immediate, args: 0 };
    assert_eq!(unit.function(Fp::type_hash(&path("target"))), Some(info));
    assert_eq!(unit.function(Fp::type_hash(&path("alias"))), Some(info));
    assert_eq!(unit.function(Fp::new(1)), None);
    let debug = unit.debug_info().unwrap();
    assert_eq!(debug.functions.get(&Fp::type_hash(&path("alias")).0).unwrap().path, path("target"));
    assert_eq!(unit.instruction_at(0), Some(Inst::ReturnUnit));
    assert_eq!(unit.instruction_at(1), None);
    assert_eq!(unit.instruction_count(), 1);
    assert_eq!(unit.function_count(), 2);
}

#[test]
fn reexport_of_a_constant_copies_its_value() {
    let mut b = UnitBuilder::new();
    let mut q = QueryInner::new();
    let target = Fp::type_hash(&path("LIMIT"));
    q.insert_const_value(target, ConstValue::String("ten".to_string()));
    b.insert_meta(span(), &Meta { hash: target, item: path("LIMIT"), kind: Kind::Const }, &q).unwrap();
    b.new_function_reexport(location(), &path("MAX"), &path("LIMIT")).unwrap();
    let unit = b.build(span(), ArrayUnit::new()).unwrap();
    assert_eq!(unit.constant(target), Some(&ConstValue::String("ten".to_string())));
    assert_eq!(unit.constant(Fp::type_hash(&path("MAX"))), Some(&ConstValue::String("ten".to_string())));
}

#[test]
fn reexport_with_missing_target_fails_the_build() {
    let (mut b, storage) = with_function("f");
    b.new_function_reexport(location(), &path("alias"), &path("nowhere")).unwrap();
    let error = b.build(span(), storage).err().unwrap();
    assert_eq!(error.span, span());
    assert_eq!(error.kind, ErrorKind::MissingFunctionHash { hash: Fp::type_hash(&path("nowhere")) });
}

#[test]
fn reexport_over_a_function_fails_the_build() {
    let (mut b, mut storage) = with_function("f");
    let body = b.new_assembly(location());
    b.new_function(location(), &path("g"), None, 0, body, Call::Immediate, vec![], &mut storage).unwrap();
    b.new_function_reexport(location(), &path("g"), &path("f")).unwrap();
    let error = b.build(span(), storage).err().unwrap();
    assert_eq!(error.kind, ErrorKind::FunctionConflictHash { hash: Fp::type_hash(&path("g")) });
}

#[test]
fn reexport_over_a_constant_fails_the_build() {
    let mut b = UnitBuilder::new();
    let mut q = QueryInner::new();
    let a = Fp::type_hash(&path("A"));
    let c = Fp::type_hash(&path("C"));
    q.insert_const_value(a, ConstValue::Bool(true));
    q.insert_const_value(c, ConstValue::Bool(false));
    b.insert_meta(span(), &Meta { hash: a, item: path("A"), kind: Kind::Const }, &q).unwrap();
    b.insert_meta(span(), &Meta { hash: c, item: path("C"), kind: Kind::Const }, &q).unwrap();
    b.new_function_reexport(location(), &path("C"), &path("A")).unwrap();
    let error = b.build(span(), ArrayUnit::new()).err().unwrap();
    assert_eq!(error.kind, ErrorKind::ConstantConflict { hash: c });
}

#[test]
fn function_alias_over_a_constant_fails_the_build() {
    let (mut b, storage) = with_function("f");
    let mut q = QueryInner::new();
    let c = Fp::type_hash(&path("C"));
    q.insert_const_value(c, ConstValue::Byte(1));
    b.insert_meta(span(), &Meta { hash: c, item: path("C"), kind: Kind::Const }, &q).unwrap();
    b.new_function_reexport(location(), &path("C"), &path("f")).unwrap();
    let error = b.build(span(), storage).err().unwrap();
    assert_eq!(error.kind, ErrorKind::ConstantConflict { hash: c });
}

#[test]
fn registering_a_reexport_twice_is_refused() {
    let mut b = UnitBuilder::new();
    b.new_function_reexport(location(), &path("alias"), &path("a")).unwrap();
    let error = b.new_function_reexport(location(), &path("alias"), &path("b")).unwrap_err();
    assert_eq!(error.span, location().span);
    assert_eq!(error.kind, ErrorKind::FunctionReExportConflict { hash: Fp::type_hash(&path("alias")) });
    assert_eq!(b.reexports.len(), 1);
    assert_eq!(b.reexports[0].to, Fp::type_hash(&path("a")));
}

#[test]
fn alias_of_an_alias_resolves_in_either_order() {
    let info = UnitFn::Offset { offset: 0, call: Call::Immediate, args: 0 };

    let (mut b, storage) = with_function("f");
    b.new_function_reexport(location(), &path("c"), &path("f")).unwrap();
    b.new_function_reexport(location(), &path("a"), &path("c")).unwrap();
    let unit = b.build(span(), storage).unwrap();
    assert_eq!(unit.function(Fp::type_hash(&path("a"))), Some(info));
    assert_eq!(unit.function(Fp::type_hash(&path("c"))), Some(info));

    let (mut b, storage) = with_function("f");
    b.new_function_reexport(location(), &path("a"), &path("c")).unwrap();
    b.new_function_reexport(location(), &path("c"), &path("f")).unwrap();
    let unit = b.build(span(), storage).unwrap();
    assert_eq!(unit.function(Fp::type_hash(&path("a"))), Some(info));
    assert_eq!(unit.function(Fp::type_hash(&path("c"))), Some(info));
    assert_eq!(unit.function(Fp::type_hash(&path("f"))), Some(info));
    assert_eq!(unit.function_count(), 3);
    let debug = unit.debug_info().unwrap();
    assert_eq!(debug.functions.get(&Fp::type_hash(&path("a")).0).unwrap().path, path("f"));
}

#[test]
fn long_chain_of_aliases_resolves() {
    let (mut b, storage) = with_function("f");
    b.new_function_reexport(location(), &path("a1"), &path("a2")).unwrap();
    b.new_function_reexport(location(), &path("a3"), &path("f")).unwrap();
    b.new_function_reexport(location(), &path("a2"), &path("a3")).unwrap();
    assert_eq!(
        b.alias_end(Fp::type_hash(&path("a1"))),
        rune_unit::unit_builder::AliasEnd::Function(Fp::type_hash(&path("f")))
    );
    let unit = b.build(span(), storage).unwrap();
    for name in ["a1", "a2", "a3"] {
        assert_eq!(unit.function(Fp::type_hash(&path(name))), unit.function(Fp::type_hash(&path("f"))));
    }
}

#[test]
fn chain_of_aliases_to_a_constant_resolves() {
    let mut b = UnitBuilder::new();
    let mut q = QueryInner::new();
    let target = Fp::type_hash(&path("LIMIT"));
    q.insert_const_value(target, ConstValue::Integer(10));
    b.new_function_reexport(location(), &path("A"), &path("B")).unwrap();
    b.new_function_reexport(location(), &path("B"), &path("LIMIT")).unwrap();
    b.insert_meta(span(), &Meta { hash: target, item: path("LIMIT"), kind: Kind::Const }, &q).unwrap();
    let unit = b.build(span(), ArrayUnit::new()).unwrap();
    assert_eq!(unit.constant(Fp::type_hash(&path("A"))), Some(&ConstValue::Integer(10)));
    assert_eq!(unit.constant(Fp::type_hash(&path("B"))), Some(&ConstValue::Integer(10)));
}

#[test]
fn chain_that_ends_nowhere_names_its_end() {
    let (mut b, storage) = with_function("f");
    b.new_function_reexport(location(), &path("a"), &path("c")).unwrap();
    b.new_function_reexport(location(), &path("c"), &path("nowhere")).unwrap();
    assert_eq!(
        b.alias_end(Fp::type_hash(&path("a"))),
        rune_unit::unit_builder::AliasEnd::Missing(Fp::type_hash(&path("nowhere")))
    );
    let error = b.build(span(), storage).err().unwrap();
    assert_eq!(error.kind, ErrorKind::MissingFunctionHash { hash: Fp::type_hash(&path("nowhere")) });
}

#[test]
fn circle_of_aliases_fails_the_build() {
    let (mut b, storage) = with_function("f");
    b.new_function_reexport(location(), &path("a"), &path("c")).unwrap();
    b.new_function_reexport(location(), &path("c"), &path("a")).unwrap();
    let error = b.build(span(), storage).err().unwrap();
    assert!(matches!(error.kind, ErrorKind::MissingFunctionHash { .. }));
}

#[test]
fn first_failing_reexport_gives_the_error() {
    let (mut b, storage) = with_function("f");
    b.new_function_reexport(location(), &path("x"), &path("gone")).unwrap();
    b.new_function_reexport(location(), &path("f"), &path("f")).unwrap();
    let error = b.build(span(), storage).err().unwrap();
    assert_eq!(error.kind, ErrorKind::MissingFunctionHash { hash: Fp::type_hash(&path("gone")) });
}

#[test]
fn build_hands_over_pools_and_debug_maps() {
    let (mut b, storage) = with_function("f");
    b.new_static_string(span(), "s").unwrap();
    b.new_static_bytes(span(), b"b").unwrap();
    b.new_static_object_keys_iter(span(), &vec!["k"]).unwrap();
    b.insert_debug_ident("name");
    let unit = b.build(span(), storage).unwrap();
    assert_eq!(unit.lookup_string(0), Some(&"s".to_string()));
    assert_eq!(unit.lookup_string(1), None);
    assert_eq!(unit.lookup_bytes(0), Some(&b"b".to_vec()));
    assert_eq!(unit.lookup_bytes(1), None);
    assert_eq!(unit.lookup_object_keys(0), Some(&vec!["k".to_string()]));
    assert_eq!(unit.lookup_object_keys(1), None);
    let debug = unit.debug_info().unwrap();
    assert_eq!(debug.functions_rev.get(&0), Some(&Fp::type_hash(&path("f"))));
    assert_eq!(debug.hash_to_ident.get(&Fp::ident("name").0), Some(&"name".to_string()));
}

#[test]
fn build_hands_over_descriptors() {
    let mut b = UnitBuilder::new();
    let q = QueryInner::new();
    b.insert_meta(span(), &Meta { hash: Fp::new(3), item: path("E"), kind: Kind::Enum }, &q).unwrap();
    let variant = Kind::Variant { enum_hash: Fp::new(3), fields: rune_unit::meta::Fields::Empty };
    b.insert_meta(span(), &Meta { hash: Fp::new(4), item: path("V"), kind: variant }, &q).unwrap();
    let unit = b.build(span(), ArrayUnit::new()).unwrap();
    assert_eq!(unit.lookup_rtti(Fp::new(3)).unwrap().item, path("E"));
    assert!(unit.lookup_rtti(Fp::new(4)).is_none());
    assert_eq!(unit.lookup_variant_rtti(Fp::new(4)).unwrap().enum_hash, Fp::new(3));
    assert!(unit.lookup_variant_rtti(Fp::new(3)).is_none());
    assert_eq!(unit.function(Fp::new(4)), Some(UnitFn::UnitVariant { hash: Fp::new(4) }));
}

#[test]
fn empty_builder_builds_an_empty_unit() {
    let unit = UnitBuilder::new().build(span(), ArrayUnit::new()).unwrap();
    assert_eq!(unit.function_count(), 0);
    assert!(unit.debug_info().is_none());
    assert_eq!(unit.instruction_count(), 0);
}
