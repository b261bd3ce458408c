use rune_unit::hash::{fold, step};
use rune_unit::item::{Component, ComponentRef, ItemBuf};

type Fp = rune_unit::hash::Hash;

fn item(components: Vec<Component>) -> ItemBuf {
    ItemBuf::with_item(components)
}

#[test]
fn step_is_xor_then_multiply() {
    assert_eq!(step(0, 0), 0);
    assert_eq!(step(1, 0), 0x100000001b3);
    assert_eq!(step(0xcbf29ce484222325, 0x61), 0xaf63dc4c8601ec8c);
}

#[test]
fn fold_of_nothing_is_the_state() {
    assert_eq!(fold(17, &[]), 17);
    assert_eq!(fold(17, &[1, 2]), step(step(17, 1), 2));
}

#[test]
fn static_bytes_values() {
    assert_eq!(Fp::static_bytes(b""), Fp::new(0x963828d78a39d5fc));
    assert_eq!(Fp::static_bytes(b"ab"), Fp::new(0xb8d82a8a16e7335f));
}

#[test]
fn static_string_values() {
    assert_eq!(Fp::static_string("x"), Fp::new(0x33eb60011a4dcf4c));
    assert_eq!(Fp::static_string("h\u{e9}llo"), Fp::new(0xa386cae729218211));
}

#[test]
fn ident_value() {
    assert_eq!(Fp::ident("x"), Fp::new(0x50358b7ac145cf4c));
    assert_ne!(Fp::ident("x"), Fp::static_string("x"));
}

#[test]
fn object_keys_values() {
    assert_eq!(Fp::object_keys(&vec![]), Fp::new(0xfda30a7bee2911fc));
    assert_eq!(Fp::object_keys(&vec!["a".to_string(), "b".to_string()]), Fp::new(0x1bed7068b47d5b73));
    assert_eq!(Fp::object_keys(&vec!["ab".to_string()]), Fp::new(0xd983a66a2d31cce0));
}

#[test]
fn associated_function_value() {
    assert_eq!(Fp::associated_function(Fp::new(1), Fp::new(2)), Fp::new(0xfb28aa4d67fc991f));
    assert_ne!(
        Fp::associated_function(Fp::new(1), Fp::new(2)),
        Fp::associated_function(Fp::new(2), Fp::new(1))
    );
}

#[test]
fn type_hash_values() {
    assert_eq!(Fp::type_hash(&item(vec![])), Fp::new(0xf83ef4a7f639d5fc));
    let path = item(vec![
        Component::Crate("std".to_string()),
        Component::Str("fmt".to_string()),
        Component::Id(7),
    ]);
    assert_eq!(Fp::type_hash(&path), Fp::new(0x7d20ebd33c2da26f));
}

#[test]
fn type_hash_tells_kinds_apart() {
    let a = item(vec![Component::Crate("a".to_string())]);
    let b = item(vec![Component::Str("a".to_string())]);
    assert_ne!(Fp::type_hash(&a), Fp::type_hash(&b));
}

#[test]
fn hash_new_and_into_inner() {
    assert_eq!(Fp::new(5).into_inner(), 5);
    assert_eq!(Fp::empty(), Fp::new(0));
}

#[test]
fn component_id() {
    assert_eq!(Component::Id(3).id(), Some(3));
    assert_eq!(Component::Str("a".to_string()).id(), None);
    assert_eq!(Component::Crate("a".to_string()).id(), None);
}

#[test]
fn component_as_component_ref() {
    assert_eq!(Component::Crate("std".to_string()).as_component_ref(), ComponentRef::Crate("std"));
    assert_eq!(Component::Str("x".to_string()).as_component_ref(), ComponentRef::Str("x"));
    assert_eq!(Component::Id(9).as_component_ref(), ComponentRef::Id(9));
}

#[test]
fn component_text() {
    assert_eq!(Component::Crate("std".to_string()).to_string(), "::std");
    assert_eq!(Component::Str("fmt".to_string()).to_string(), "fmt");
    assert_eq!(Component::Id(0).to_string(), "$0");
    assert_eq!(Component::Id(1204).to_string(), "$1204");
}

#[test]
fn item_text() {
    assert_eq!(item(vec![]).to_string(), "{root}");
    let path = item(vec![
        Component::Crate("std".to_string()),
        Component::Str("fmt".to_string()),
        Component::Id(7),
    ]);
    assert_eq!(path.to_string(), "::std::fmt::$7");
    assert_eq!(item(vec![Component::Str("a".to_string())]).to_string(), "a");
}

#[test]
fn item_push_and_copy() {
    let mut path = ItemBuf::new();
    assert_eq!(path.len(), 0);
    path.push(Component::Str("a".to_string()));
    path.push(Component::Id(2));
    assert_eq!(path.len(), 2);
    let copy = path.to_owned();
    assert_eq!(copy, path);
    assert_eq!(copy.to_string(), "a::$2");
}
