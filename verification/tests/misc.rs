use rune_unit::const_value::ConstValue;
use rune_unit::fmt::Formatter;
use rune_unit::io::{advance, Write};
use rune_unit::item::{Component, ItemBuf};
use rune_unit::memory::{AllocError, Error};
use rune_unit::meta::{Kind, Meta};
use rune_unit::try_clone::{assigned, boxed, paired, pushed, TryClone};
use rune_unit::type_of::{StaticType, TypeInfo};
use rune_unit::visitor::{Attribute, CompileVisitor, FunctionVisitor};

type Fp = rune_unit::hash::Hash;

#[test]
fn alloc_error_text() {
    assert_eq!(AllocError { size: 0, align: 1 }.to_string(), "Failed to allocate 0 bytes of memory");
    assert_eq!(AllocError { size: 4096, align: 8 }.to_string(), "Failed to allocate 4096 bytes of memory");
    assert_eq!(
        AllocError { size: 18446744073709551615, align: 8 }.to_string(),
        "Failed to allocate 18446744073709551615 bytes of memory"
    );
}

#[test]
fn formatter_collects_text() {
    let mut f = Formatter::new();
    assert_eq!(f.as_str(), "");
    f.push('a').unwrap();
    f.push_str("bc").unwrap();
    f.push('\u{e9}').unwrap();
    assert_eq!(f.as_str(), "abc\u{e9}");
    f.buf_mut().push_str("scratch");
    {
        let (string, buf) = f.parts_mut();
        assert_eq!(buf, "scratch");
        string.push('!');
    }
    assert_eq!(f.buf, "scratch");
    assert_eq!(f.into_string(), "abc\u{e9}!");
    assert_eq!(Formatter::default(), Formatter::new());
}

#[test]
fn formatter_with_capacity() {
    let f = Formatter::with_capacity(16).unwrap();
    assert_eq!(f.as_str(), "");
    assert!(f.string.capacity() >= 16);
    assert_eq!(Formatter::with_capacity(usize::MAX).unwrap_err(), Error::CapacityOverflow);
    assert!(Formatter::with_capacity(0).is_ok());
}

struct Chunked {
    taken: Vec<u8>,
    chunk: usize,
    fail_at: usize,
}

impl Write for Chunked {
    fn written(&self) -> vstd::seq::Seq<u8> {
        unreachable!()
    }

    fn write(&mut self, buf: &[u8]) -> Result<usize, rune_unit::io::Error> {
        if self.taken.len() >= self.fail_at {
            return Err(rune_unit::io::Error::new());
        }
        let n = buf.len().min(self.chunk);
        self.taken.extend_from_slice(&buf[..n]);
        Ok(n)
    }

    fn flush(&mut self) -> Result<(), rune_unit::io::Error> {
        Ok(())
    }
}

#[test]
fn write_all_writes_piece_by_piece() {
    let mut sink = Chunked { taken: vec![], chunk: 2, fail_at: 100 };
    sink.write_all(b"hello").unwrap();
    assert_eq!(sink.taken, b"hello");
    sink.write_all(b"").unwrap();
    assert_eq!(sink.taken, b"hello");
}

#[test]
fn write_all_stops_on_a_write_of_nothing() {
    let mut sink = Chunked { taken: vec![], chunk: 0, fail_at: 100 };
    assert!(sink.write_all(b"x").is_err());
    assert!(sink.taken.is_empty());
    assert!(sink.write_all(b"").is_ok());
}

#[test]
fn write_all_stops_on_an_error_after_a_part() {
    let mut sink = Chunked { taken: vec![], chunk: 2, fail_at: 4 };
    assert!(sink.write_all(b"abcdefg").is_err());
    assert_eq!(sink.taken, b"abcd");
}

#[test]
fn vec_is_a_sink() {
    let mut sink: Vec<u8> = vec![1];
    assert_eq!(Write::write(&mut sink, &[2, 3]).unwrap(), 2);
    Write::write_all(&mut sink, &[4]).unwrap();
    Write::flush(&mut sink).unwrap();
    assert_eq!(sink, vec![1, 2, 3, 4]);
}

#[test]
fn io_error_text() {
    assert_eq!(
        rune_unit::io::Error::new().to_string(),
        "I/O operations are not supported in no_std environments"
    );
}

fn function(hash: u64, name: &str, is_test: bool, is_bench: bool) -> Meta {
    Meta {
        hash: Fp::new(hash),
        item: ItemBuf::with_item(vec![Component::Str(name.to_string())]),
        kind: Kind::Function { is_test, is_bench },
    }
}

#[test]
fn visitor_collects_functions_with_its_attribute() {
    let metas = vec![
        function(1, "plain", false, false),
        function(2, "test", true, false),
        function(3, "bench", false, true),
        function(4, "both", true, true),
        Meta { hash: Fp::new(5), item: ItemBuf::new(), kind: Kind::Enum },
    ];
    let collect = |attribute| {
        let mut visitor = FunctionVisitor::new(attribute);
        for meta in &metas {
            visitor.register_meta(meta).unwrap();
        }
        visitor.into_functions().into_iter().map(|(hash, item)| (hash, item.to_string())).collect::<Vec<_>>()
    };
    assert_eq!(collect(Attribute::Skip), vec![]);
    assert_eq!(
        collect(Attribute::Test),
        vec![(Fp::new(2), "test".to_string()), (Fp::new(4), "both".to_string())]
    );
    assert_eq!(
        collect(Attribute::Bench),
        vec![(Fp::new(3), "bench".to_string()), (Fp::new(4), "both".to_string())]
    );
}

#[test]
fn try_clone_gives_equal_values() {
    assert_eq!(5usize.try_clone(), Ok(5));
    assert_eq!((-5i64).try_clone(), Ok(-5));
    assert_eq!(7u8.try_clone(), Ok(7));
    assert_eq!((1u32, 2i16).try_clone(), Ok((1, 2)));
    assert_eq!("text".to_string().try_clone(), Ok("text".to_string()));
    assert_eq!(vec![1u64, 2, 3].try_clone(), Ok(vec![1, 2, 3]));
    assert_eq!(Box::new(3i32).try_clone(), Ok(Box::new(3)));
    let boxed: Box<[u8]> = vec![1u8, 2].into_boxed_slice();
    assert_eq!(boxed.try_clone(), Ok(vec![1u8, 2].into_boxed_slice()));
    let value = 9u16;
    assert_eq!(TryClone::try_clone(&&value), Ok(&value));
    let component = Component::Crate("c".to_string());
    assert_eq!(component.try_clone(), Ok(Component::Crate("c".to_string())));
    let mut target = 0u128;
    target.try_clone_from(&44).unwrap();
    assert_eq!(target, 44);
    let mut text = "old".to_string();
    text.try_clone_from(&"new".to_string()).unwrap();
    assert_eq!(text, "new");
}

fn nested() -> ConstValue {
    ConstValue::Object(vec![
        ("list".to_string(), ConstValue::Vec(vec![ConstValue::Integer(-1), ConstValue::Float(0x3ff0000000000000)])),
        ("pair".to_string(), ConstValue::Tuple(vec![ConstValue::Char('c'), ConstValue::Byte(2)])),
        ("maybe".to_string(), ConstValue::Option(Some(Box::new(ConstValue::String("s".to_string()))))),
        ("none".to_string(), ConstValue::Option(None)),
        ("bytes".to_string(), ConstValue::Bytes(vec![0, 255])),
        ("unit".to_string(), ConstValue::EmptyTuple),
    ])
}

#[test]
fn const_value_copies_are_equal() {
    assert_eq!(nested().duplicate(), nested());
    assert_eq!(nested().try_clone(), Ok(nested()));
    assert_eq!(ConstValue::Bool(true).duplicate(), ConstValue::Bool(true));
}

#[test]
fn const_value_into_bool() {
    assert_eq!(ConstValue::Bool(true).into_bool(), Ok(true));
    assert_eq!(ConstValue::Bool(false).into_bool(), Ok(false));
    assert_eq!(ConstValue::Integer(1).into_bool(), Err(ConstValue::Integer(1)));
    assert_eq!(nested().into_bool(), Err(nested()));
}

#[test]
fn const_value_type_info() {
    let name = |value: ConstValue| match value.type_info() {
        TypeInfo::StaticType(StaticType { name, .. }) => name,
        other => panic!("unexpected type info {:?}", other),
    };
    assert_eq!(name(ConstValue::EmptyTuple), "Tuple");
    assert_eq!(name(ConstValue::Tuple(vec![])), "Tuple");
    assert_eq!(name(ConstValue::Byte(0)), "u8");
    assert_eq!(name(ConstValue::Char('a')), "char");
    assert_eq!(name(ConstValue::Bool(true)), "bool");
    assert_eq!(name(ConstValue::Integer(0)), "i64");
    assert_eq!(name(ConstValue::Float(0)), "f64");
    assert_eq!(name(ConstValue::String(String::new())), "String");
    assert_eq!(name(ConstValue::Bytes(vec![])), "Bytes");
    assert_eq!(name(ConstValue::Vec(vec![])), "Vec");
    assert_eq!(name(ConstValue::Object(vec![])), "Object");
    assert_eq!(name(ConstValue::Option(None)), "Option");
    assert_eq!(
        ConstValue::Bool(true).type_info(),
        TypeInfo::StaticType(StaticType { name: "bool", hash: Fp::new(0xbe6bff4422d0c759) })
    );
}

#[test]
fn empty_collections_are_cloned() {
    assert_eq!(Vec::<String>::new().try_clone(), Ok(vec![]));
    let empty: Box<[u32]> = Vec::new().into_boxed_slice();
    assert_eq!(empty.try_clone(), Ok(Vec::new().into_boxed_slice()));
}

#[test]
fn outcome_of_a_clone_is_handed_on() {
    let failure = Error::AllocError { error: AllocError { size: 8, align: 4 } };

    let mut target = 1u8;
    assert_eq!(assigned(&mut target, Ok(2)), Ok(()));
    assert_eq!(target, 2);
    assert_eq!(assigned(&mut target, Err(failure)), Err(failure));
    assert_eq!(target, 2);

    assert_eq!(paired(1u8, Ok("b".to_string())), Ok((1, "b".to_string())));
    assert_eq!(paired::<u8, String>(1, Err(Error::LayoutError)), Err(Error::LayoutError));

    assert_eq!(boxed(Ok(5i16)), Ok(Box::new(5)));
    assert_eq!(boxed::<i16>(Err(Error::FormatError)), Err(Error::FormatError));

    let mut clones = vec![1u64];
    assert_eq!(pushed(&mut clones, Ok(2)), Ok(()));
    assert_eq!(clones, vec![1, 2]);
    assert_eq!(pushed(&mut clones, Err(Error::CapacityOverflow)), Err(Error::CapacityOverflow));
    assert_eq!(clones, vec![1, 2]);
}

#[test]
fn one_write_moves_on_or_ends_the_attempt() {
    assert_eq!(advance(2, 10, Ok(3)), Ok(5));
    assert_eq!(advance(0, 4, Ok(4)), Ok(4));
    assert_eq!(advance(2, 10, Ok(0)), Err(rune_unit::io::Error::new()));
    assert_eq!(advance(2, 10, Err(rune_unit::io::Error::new())), Err(rune_unit::io::Error::new()));
}
