use rune_unit::error::ErrorKind;
use rune_unit::span::Span;
use rune_unit::unit_builder::UnitBuilder;

type Fp = rune_unit::hash::Hash;

fn span() -> Span {
    Span::new(3, 9)
}

#[test]
fn same_string_twice_yields_the_same_slot() {
    let mut b = UnitBuilder::new();
    let first = b.new_static_string(span(), "hello").unwrap();
    let second = b.new_static_string(span(), "hello").unwrap();
    assert_eq!(first, 0);
    assert_eq!(second, 0);
    assert_eq!(b.static_strings, vec!["hello".to_string()]);
}

#[test]
fn strings_keep_their_slots_in_any_order() {
    let mut b = UnitBuilder::new();
    let a = b.new_static_string(span(), "a").unwrap();
    let c = b.new_static_string(span(), "c").unwrap();
    assert_eq!(b.new_static_string(span(), "c").unwrap(), c);
    assert_eq!(b.new_static_string(span(), "a").unwrap(), a);
    assert_eq!((a, c), (0, 1));

    let mut other = UnitBuilder::new();
    let c2 = other.new_static_string(span(), "c").unwrap();
    let a2 = other.new_static_string(span(), "a").unwrap();
    assert_eq!(other.new_static_string(span(), "a").unwrap(), a2);
    assert_eq!(other.new_static_string(span(), "c").unwrap(), c2);
    assert_eq!((c2, a2), (0, 1));
}

#[test]
fn string_is_interned_under_its_fingerprint() {
    let mut b = UnitBuilder::new();
    let slot = b.new_static_string(span(), "key").unwrap();
    assert_eq!(b.static_string_rev.get(&Fp::static_string("key").0), Some(&slot));
    assert_eq!(b.static_string_rev.len(), 1);
}

#[test]
fn string_collision_names_both() {
    let mut b = UnitBuilder::new();
    assert_eq!(b.insert_static_string(span(), Fp::new(7), "first").unwrap(), 0);
    let error = b.insert_static_string(span(), Fp::new(7), "second").unwrap_err();
    assert_eq!(error.span, span());
    assert_eq!(
        error.kind,
        ErrorKind::StaticStringHashConflict {
            hash: Fp::new(7),
            current: "second".to_string(),
            existing: "first".to_string(),
        }
    );
    assert_eq!(b.static_strings, vec!["first".to_string()]);
    assert_eq!(b.static_string_rev.len(), 1);
}

#[test]
fn same_bytes_twice_yield_the_same_slot() {
    let mut b = UnitBuilder::new();
    assert_eq!(b.new_static_bytes(span(), &[1, 2, 3]).unwrap(), 0);
    assert_eq!(b.new_static_bytes(span(), &[4]).unwrap(), 1);
    assert_eq!(b.new_static_bytes(span(), &[1, 2, 3]).unwrap(), 0);
    assert_eq!(b.static_bytes, vec![vec![1u8, 2, 3], vec![4u8]]);
}

#[test]
fn bytes_collision_names_both() {
    let mut b = UnitBuilder::new();
    assert_eq!(b.insert_static_bytes(span(), Fp::new(1), &[1]).unwrap(), 0);
    let error = b.insert_static_bytes(span(), Fp::new(1), &[1, 0]).unwrap_err();
    assert_eq!(
        error.kind,
        ErrorKind::StaticBytesHashConflict { hash: Fp::new(1), current: vec![1, 0], existing: vec![1] }
    );
    assert_eq!(b.static_bytes.len(), 1);
}

#[test]
fn same_object_keys_twice_yield_the_same_slot() {
    let mut b = UnitBuilder::new();
    let keys = vec!["a".to_string(), "b".to_string()];
    assert_eq!(b.new_static_object_keys(span(), keys.clone()).unwrap(), 0);
    assert_eq!(b.new_static_object_keys_iter(span(), &vec!["a", "b"]).unwrap(), 0);
    assert_eq!(b.new_static_object_keys_iter(span(), &vec!["b", "a"]).unwrap(), 1);
    assert_eq!(b.static_object_keys.len(), 2);
    assert_eq!(b.static_object_keys[0], keys);
}

#[test]
fn object_keys_collision_names_both() {
    let mut b = UnitBuilder::new();
    b.insert_static_object_keys(span(), Fp::new(2), vec!["a".to_string()]).unwrap();
    let error = b.insert_static_object_keys(span(), Fp::new(2), vec!["b".to_string()]).unwrap_err();
    assert_eq!(
        error.kind,
        ErrorKind::StaticObjectKeysHashConflict {
            hash: Fp::new(2),
            current: vec!["b".to_string()],
            existing: vec!["a".to_string()],
        }
    );
}

#[test]
fn pools_do_not_share_fingerprints() {
    let mut b = UnitBuilder::new();
    assert_eq!(b.insert_static_string(span(), Fp::new(1), "a").unwrap(), 0);
    assert_eq!(b.insert_static_bytes(span(), Fp::new(1), b"b").unwrap(), 0);
    assert_eq!(b.insert_static_object_keys(span(), Fp::new(1), vec!["c".to_string()]).unwrap(), 0);
}

#[test]
fn no_two_slots_hold_the_same_content() {
    let mut b = UnitBuilder::new();
    for text in ["a", "b", "a", "c", "b", "a"] {
        b.new_static_string(span(), text).unwrap();
        b.new_static_bytes(span(), text.as_bytes()).unwrap();
        b.new_static_object_keys_iter(span(), &vec![text, "k"]).unwrap();
    }
    assert_eq!(b.static_strings, vec!["a".to_string(), "b".to_string(), "c".to_string()]);
    assert_eq!(b.static_bytes, vec![b"a".to_vec(), b"b".to_vec(), b"c".to_vec()]);
    assert_eq!(b.static_object_keys.len(), 3);
    for (slot, text) in b.static_strings.iter().enumerate() {
        assert_eq!(b.static_string_rev.get(&Fp::static_string(text).0), Some(&slot));
    }
    for (slot, bytes) in b.static_bytes.iter().enumerate() {
        assert_eq!(b.static_bytes_rev.get(&Fp::static_bytes(bytes).0), Some(&slot));
    }
    for (slot, keys) in b.static_object_keys.iter().enumerate() {
        assert_eq!(b.static_object_keys_rev.get(&Fp::object_keys(keys).0), Some(&slot));
    }
}
