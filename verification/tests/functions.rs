use rune_unit::assembly::{Assembly, Label};
use rune_unit::const_value::ConstValue;
use rune_unit::context::{Context, FunctionHandler};
use rune_unit::debug::{DebugArgs, DebugLabel};
use rune_unit::diagnostics::{DiagnosticKind, Diagnostics};
use rune_unit::error::ErrorKind;
use rune_unit::inst::{Call, Inst, UnitFn};
use rune_unit::item::{Component, ItemBuf};
use rune_unit::meta::{Fields, Kind, Meta};
use rune_unit::query::QueryInner;
use rune_unit::span::{Location, SourceId, Span};
use rune_unit::unit::ArrayUnit;
use rune_unit::unit_builder::{CallSite, LinkerError, UnitBuilder, INTO_TYPE_NAME};

type Fp = rune_unit::hash::Hash;

fn path(name: &str) -> ItemBuf {
    ItemBuf::with_item(vec![Component::Str(name.to_string())])
}

fn location() -> Location {
    Location::new(SourceId::new(4), Span::new(0, 100))
}

fn sp(n: u32) -> Span {
    Span::new(n, n + 1)
}

fn define(b: &mut UnitBuilder, storage: &mut ArrayUnit, name: &str, assembly: Assembly) {
    b.new_function(location(), &path(name), None, 0, assembly, Call::Immediate, vec![], storage).unwrap();
}

#[test]
fn function_is_registered_at_the_current_offset() {
    let mut b = UnitBuilder::new();
    let mut storage = ArrayUnit::new();
    storage.encode(Inst::Pop);
    let mut body = b.new_assembly(location());
    body.push(Inst::ReturnUnit, sp(1));
    b.new_function(
        location(),
        &path("f"),
        None,
        2,
        body,
        Call::Async,
        vec!["a".to_string(), "b".to_string()],
        &mut storage,
    )
    .unwrap();
    let hash = Fp::type_hash(&path("f"));
    assert_eq!(b.functions.get(&hash.0), Some(&UnitFn::Offset { offset: 1, call: Call::Async, args: 2 }));
    assert_eq!(b.functions_rev.get(&1), Some(&hash));
    assert_eq!(
        b.constants.get(&Fp::associated_function(hash, Fp::new(INTO_TYPE_NAME)).0),
        Some(&ConstValue::String("f".to_string()))
    );
    let signature = b.debug.as_ref().unwrap().functions.get(&hash.0).unwrap();
    assert_eq!(signature.path, path("f"));
    assert_eq!(signature.args, DebugArgs::Named(vec!["a".to_string(), "b".to_string()]));
    assert_eq!(storage.instructions, vec![Inst::Pop, Inst::ReturnUnit]);
}

#[test]
fn method_is_also_registered_under_its_type() {
    let mut b = UnitBuilder::new();
    let mut storage = ArrayUnit::new();
    let body = b.new_assembly(location());
    b.new_function(
        location(),
        &path("method"),
        Some((Fp::new(77), "len")),
        1,
        body,
        Call::Immediate,
        vec!["self".to_string()],
        &mut storage,
    )
    .unwrap();
    let instance = Fp::associated_function(Fp::new(77), Fp::ident("len"));
    let info = UnitFn::Offset { offset: 0, call: Call::Immediate, args: 1 };
    assert_eq!(b.functions.get(&instance.0), Some(&info));
    assert_eq!(b.functions.get(&Fp::type_hash(&path("method")).0), Some(&info));
    assert_eq!(b.functions.len(), 2);
    assert!(b.debug.as_ref().unwrap().functions.contains_key(&instance.0));
}

#[test]
fn duplicate_function_is_a_conflict_with_the_previous_signature() {
    let mut b = UnitBuilder::new();
    let mut storage = ArrayUnit::new();
    let mut first = b.new_assembly(location());
    first.push(Inst::Return, sp(1));
    b.new_function(
        location(),
        &path("f"),
        None,
        1,
        first,
        Call::Immediate,
        vec!["old".to_string()],
        &mut storage,
    )
    .unwrap();
    let mut second = b.new_assembly(location());
    second.push(Inst::Pop, sp(2));
    let error = b
        .new_function(
            location(),
            &path("f"),
            None,
            2,
            second,
            Call::Generator,
            vec!["new".to_string(), "args".to_string()],
            &mut storage,
        )
        .unwrap_err();
    assert_eq!(error.span, location().span);
    match error.kind {
        ErrorKind::FunctionConflict { hash, existing } => {
            assert_eq!(hash, Fp::type_hash(&path("f")));
            assert_eq!(existing.path, path("f"));
            assert_eq!(existing.args, DebugArgs::Named(vec!["old".to_string()]));
        }
        other => panic!("unexpected error {:?}", other),
    }
    let hash = Fp::type_hash(&path("f"));
    assert_eq!(
        b.functions.get(&hash.0),
        Some(&UnitFn::Offset { offset: 0, call: Call::Immediate, args: 1 })
    );
    assert_eq!(storage.instructions, vec![Inst::Return]);
}

#[test]
fn method_conflict_leaves_everything_as_it_was() {
    let mut b = UnitBuilder::new();
    let mut storage = ArrayUnit::new();
    let body = b.new_assembly(location());
    b.new_function(
        location(),
        &path("a"),
        Some((Fp::new(1), "m")),
        0,
        body,
        Call::Immediate,
        vec![],
        &mut storage,
    )
    .unwrap();
    let body = b.new_assembly(location());
    let error = b
        .new_function(
            location(),
            &path("b"),
            Some((Fp::new(1), "m")),
            0,
            body,
            Call::Immediate,
            vec![],
            &mut storage,
        )
        .unwrap_err();
    match error.kind {
        ErrorKind::FunctionConflict { hash, existing } => {
            assert_eq!(hash, Fp::associated_function(Fp::new(1), Fp::ident("m")));
            assert_eq!(existing.path, path("a"));
        }
        other => panic!("unexpected error {:?}", other),
    }
    assert!(!b.functions.contains_key(&Fp::type_hash(&path("b")).0));
    assert_eq!(b.functions.len(), 2);
}

#[test]
fn jumps_get_absolute_offsets() {
    let mut b = UnitBuilder::new();
    let mut storage = ArrayUnit::new();
    storage.encode(Inst::Not);
    storage.encode(Inst::Not);
    let mut body = b.new_assembly(location());
    let start = body.new_label("start");
    let end = body.new_label("end");
    body.label(start).unwrap();
    body.push(Inst::Pop, sp(1));
    body.jump_if(end, sp(2));
    body.jump(start, sp(3));
    body.label(end).unwrap();
    body.push(Inst::ReturnUnit, sp(4));
    define(&mut b, &mut storage, "f", body);
    assert_eq!(
        storage.instructions,
        vec![
            Inst::Not,
            Inst::Not,
            Inst::Pop,
            Inst::JumpIf { jump: 5 },
            Inst::Jump { jump: 2 },
            Inst::ReturnUnit,
        ]
    );
    assert_eq!(b.label_count, 2);
}

#[test]
fn every_jump_form_is_lowered() {
    let mut b = UnitBuilder::new();
    let mut storage = ArrayUnit::new();
    let mut body = b.new_assembly(location());
    let l = body.new_label("l");
    body.jump(l, sp(0));
    body.jump_if(l, sp(1));
    body.jump_if_or_pop(l, sp(2));
    body.jump_if_not_or_pop(l, sp(3));
    body.jump_if_branch(9, l, sp(4));
    body.pop_and_jump_if_not(2, l, sp(5));
    body.iter_next(3, l, sp(6));
    body.label(l).unwrap();
    define(&mut b, &mut storage, "f", body);
    assert_eq!(
        storage.instructions,
        vec![
            Inst::Jump { jump: 7 },
            Inst::JumpIf { jump: 7 },
            Inst::JumpIfOrPop { jump: 7 },
            Inst::JumpIfNotOrPop { jump: 7 },
            Inst::JumpIfBranch { branch: 9, jump: 7 },
            Inst::PopAndJumpIfNot { count: 2, jump: 7 },
            Inst::IterNext { offset: 3, jump: 7 },
        ]
    );
}

#[test]
fn labels_are_numbered_on_across_functions() {
    let mut b = UnitBuilder::new();
    let mut storage = ArrayUnit::new();
    let mut first = b.new_assembly(location());
    assert_eq!(first.new_label("a"), Label { name: "a", index: 0 });
    assert_eq!(first.new_label("b"), Label { name: "b", index: 1 });
    define(&mut b, &mut storage, "f", first);
    let mut second = b.new_assembly(location());
    assert_eq!(second.new_label("c"), Label { name: "c", index: 2 });
}

#[test]
fn binding_a_label_twice_is_refused() {
    let mut body = Assembly::new(location(), 0);
    let l = body.new_label("l");
    body.label(l).unwrap();
    body.push(Inst::Pop, sp(0));
    let error = body.label(l).unwrap_err();
    assert_eq!(error, ErrorKind::DuplicateLabel { name: "l", index: 0 });
    assert_eq!(body.jump_of(l), Some(0));
    assert_eq!(body.labels.len(), 1);
}

#[test]
fn unbound_label_fails_and_appends_nothing() {
    let mut b = UnitBuilder::new();
    let mut storage = ArrayUnit::new();
    storage.encode(Inst::Not);
    let mut body = b.new_assembly(location());
    let bound = body.new_label("bound");
    let missing = body.new_label("missing");
    body.label(bound).unwrap();
    body.push(Inst::Pop, sp(1));
    body.jump(bound, sp(2));
    body.jump_if(missing, sp(3));
    body.push(Inst::ReturnUnit, sp(4));
    let error = b
        .new_function(location(), &path("f"), None, 0, body, Call::Immediate, vec![], &mut storage)
        .unwrap_err();
    assert_eq!(error.span, sp(3));
    assert_eq!(error.kind, ErrorKind::MissingLabelLocation { name: "missing", index: 1 });
    assert_eq!(storage.instructions, vec![Inst::Not]);
    assert!(b.functions.is_empty());
    assert!(b.debug.is_none());
    assert!(b.required_functions.is_empty());
    assert_eq!(b.label_count, 0);
}

#[test]
fn add_assembly_alone_fails_on_the_first_unbound_label() {
    let mut b = UnitBuilder::new();
    let mut storage = ArrayUnit::new();
    let mut body = b.new_assembly(location());
    let one = body.new_label("one");
    let two = body.new_label("two");
    body.push(Inst::Pop, sp(0));
    body.jump(one, sp(1));
    body.jump(two, sp(2));
    let error = b.add_assembly(location(), body, &mut storage).unwrap_err();
    assert_eq!(error.span, sp(1));
    assert_eq!(error.kind, ErrorKind::MissingLabelLocation { name: "one", index: 0 });
    assert!(storage.instructions.is_empty());
}

#[test]
fn call_to_an_earlier_function_becomes_a_call_by_offset() {
    let mut b = UnitBuilder::new();
    let mut storage = ArrayUnit::new();
    let mut callee = b.new_assembly(location());
    callee.push(Inst::ReturnUnit, sp(0));
    b.new_function(
        location(),
        &path("callee"),
        None,
        2,
        callee,
        Call::Generator,
        vec!["a".to_string(), "b".to_string()],
        &mut storage,
    )
    .unwrap();
    let target = Fp::type_hash(&path("callee"));
    let mut caller = b.new_assembly(location());
    caller.push(Inst::Call { hash: target, args: 2 }, sp(1));
    define(&mut b, &mut storage, "caller", caller);
    assert_eq!(storage.get(1), Some(Inst::CallOffset { offset: 0, call: Call::Generator, args: 2 }));
    assert!(b.required_functions.is_empty());
}

#[test]
fn call_to_a_later_function_stays_and_is_required() {
    let mut b = UnitBuilder::new();
    let mut storage = ArrayUnit::new();
    let target = Fp::type_hash(&path("later"));
    let mut caller = b.new_assembly(location());
    caller.push(Inst::Call { hash: target, args: 1 }, sp(1));
    caller.push(Inst::Call { hash: target, args: 1 }, sp(2));
    define(&mut b, &mut storage, "caller", caller);
    let mut later = b.new_assembly(location());
    later.push(Inst::ReturnUnit, sp(3));
    define(&mut b, &mut storage, "later", later);
    assert_eq!(storage.get(0), Some(Inst::Call { hash: target, args: 1 }));
    assert_eq!(storage.get(1), Some(Inst::Call { hash: target, args: 1 }));
    assert_eq!(b.required_functions.len(), 1);
    assert_eq!(b.required_functions[0].hash, target);
    assert_eq!(
        b.required_functions[0].spans,
        vec![
            CallSite { span: sp(1), source_id: SourceId::new(4) },
            CallSite { span: sp(2), source_id: SourceId::new(4) },
        ]
    );
    let mut diagnostics = Diagnostics::new();
    b.link(&Context::new(), &mut diagnostics);
    assert!(diagnostics.is_empty());
}

#[test]
fn recursive_call_becomes_a_call_by_offset() {
    let mut b = UnitBuilder::new();
    let mut storage = ArrayUnit::new();
    storage.encode(Inst::Not);
    let own = Fp::type_hash(&path("f"));
    let mut body = b.new_assembly(location());
    body.push(Inst::Call { hash: own, args: 0 }, sp(1));
    define(&mut b, &mut storage, "f", body);
    assert_eq!(storage.get(1), Some(Inst::CallOffset { offset: 1, call: Call::Immediate, args: 0 }));
}

#[test]
fn call_to_a_constructor_stays_a_call() {
    let mut b = UnitBuilder::new();
    let mut storage = ArrayUnit::new();
    let meta = Meta { hash: Fp::new(5), item: path("S"), kind: Kind::Struct { fields: Fields::Empty } };
    b.insert_meta(sp(0), &meta, &QueryInner::new()).unwrap();
    let mut body = b.new_assembly(location());
    body.push(Inst::Call { hash: Fp::new(5), args: 0 }, sp(1));
    define(&mut b, &mut storage, "f", body);
    assert_eq!(storage.get(0), Some(Inst::Call { hash: Fp::new(5), args: 0 }));
    assert_eq!(b.required_functions.len(), 1);
    let mut diagnostics = Diagnostics::new();
    b.link(&Context::new(), &mut diagnostics);
    assert!(diagnostics.is_empty());
}

#[test]
fn debug_records_hold_span_labels_and_comment() {
    let mut b = UnitBuilder::new();
    let mut storage = ArrayUnit::new();
    storage.encode(Inst::Not);
    let mut body = b.new_assembly(location());
    let top = body.new_label("top");
    let also = body.new_label("also");
    body.label(top).unwrap();
    body.label(also).unwrap();
    body.push_with_comment(Inst::Pop, sp(1), "drop it".to_string());
    body.jump(top, sp(2));
    body.push(Inst::ReturnUnit, sp(3));
    body.push_entry(
        rune_unit::assembly::AssemblyInst::JumpIf { label: also },
        sp(4),
        Some("again".to_string()),
    );
    define(&mut b, &mut storage, "f", body);
    let debug = b.debug.as_ref().unwrap();
    let first = debug.instructions.get(&1).unwrap();
    assert_eq!(first.source_id, SourceId::new(4));
    assert_eq!(first.span, sp(1));
    assert_eq!(first.comment, Some("drop it".to_string()));
    assert_eq!(
        first.labels,
        vec![DebugLabel { name: "top", index: 0 }, DebugLabel { name: "also", index: 1 }]
    );
    let second = debug.instructions.get(&2).unwrap();
    assert_eq!(second.comment, Some("label:top_0".to_string()));
    assert!(second.labels.is_empty());
    let third = debug.instructions.get(&3).unwrap();
    assert_eq!(third.comment, None);
    let fourth = debug.instructions.get(&4).unwrap();
    assert_eq!(fourth.comment, Some("label:also_1; again".to_string()));
    assert!(!debug.instructions.contains_key(&0));
    assert_eq!(debug.instructions.len(), 4);
}

#[test]
fn link_reports_each_missing_function_once_with_every_call_site() {
    let mut b = UnitBuilder::new();
    let mut storage = ArrayUnit::new();
    let missing = Fp::new(0xdead);
    let hosted = Fp::new(0xbeef);
    let mut body = b.new_assembly(location());
    body.push(Inst::Call { hash: missing, args: 0 }, sp(1));
    body.push(Inst::Call { hash: hosted, args: 0 }, sp(2));
    body.push(Inst::Call { hash: missing, args: 3 }, sp(3));
    define(&mut b, &mut storage, "f", body);
    let mut context = Context::new();
    assert_eq!(context.install(FunctionHandler { hash: hosted, args: 0 }), None);
    let mut diagnostics = Diagnostics::new();
    b.link(&context, &mut diagnostics);
    assert_eq!(diagnostics.len(), 1);
    let diagnostic = diagnostics.get(0).unwrap();
    assert_eq!(diagnostic.source_id, SourceId::empty());
    assert_eq!(
        diagnostic.kind,
        DiagnosticKind::Link(LinkerError::MissingFunction {
            hash: missing,
            spans: vec![
                CallSite { span: sp(1), source_id: SourceId::new(4) },
                CallSite { span: sp(3), source_id: SourceId::new(4) },
            ],
        })
    );
    b.link(&context, &mut diagnostics);
    assert_eq!(diagnostics.len(), 2);
}

#[test]
fn link_reports_missing_functions_in_the_order_of_their_first_call() {
    let mut b = UnitBuilder::new();
    let mut storage = ArrayUnit::new();
    let mut body = b.new_assembly(location());
    body.push(Inst::Call { hash: Fp::new(2), args: 0 }, sp(1));
    body.push(Inst::Call { hash: Fp::new(1), args: 0 }, sp(2));
    define(&mut b, &mut storage, "f", body);
    let mut diagnostics = Diagnostics::new();
    b.link(&Context::new(), &mut diagnostics);
    let hashes: Vec<Fp> = diagnostics
        .diagnostics
        .iter()
        .map(|d| match &d.kind {
            DiagnosticKind::Link(LinkerError::MissingFunction { hash, .. }) => *hash,
            other => panic!("unexpected diagnostic {:?}", other),
        })
        .collect();
    assert_eq!(hashes, vec![Fp::new(2), Fp::new(1)]);
}

#[test]
fn linker_error_text() {
    let error = LinkerError::MissingFunction { hash: Fp::new(0xdead), spans: vec![] };
    assert_eq!(error.to_string(), "Missing function with hash 0xdead");
    let zero = LinkerError::MissingFunction { hash: Fp::new(0), spans: vec![] };
    assert_eq!(zero.to_string(), "Missing function with hash 0x0");
}

#[test]
fn context_replaces_and_returns_the_previous_function() {
    let mut context = Context::new();
    let first = FunctionHandler { hash: Fp::new(1), args: 1 };
    let second = FunctionHandler { hash: Fp::new(1), args: 2 };
    assert_eq!(context.install(first), None);
    assert_eq!(context.install(second), Some(first));
    assert_eq!(context.lookup_function(Fp::new(1)), Some(second));
    assert_eq!(context.lookup_function(Fp::new(2)), None);
}
