use rune_unit::ast::{AstItem, ItemFn, ItemImpl, ItemUse, Source, Sources, UseTarget};
use rune_unit::diagnostics::DiagnosticKind;
use rune_unit::error::ErrorKind;
use rune_unit::query::{Binding, ImplItemEntry, ItemId, ModId, Module, Query};
use rune_unit::span::{Location, SourceId, Span};
use rune_unit::worker::{Import, ImportKind, LoadFileKind, Task, WildcardImport, Worker};

type Fp = rune_unit::hash::Hash;

fn name(text: &str) -> Fp {
    Fp::ident(text)
}

fn sp(n: u32) -> Span {
    Span::new(n, n + 1)
}

fn decl(text: &str, n: u32) -> AstItem {
    AstItem::Decl { name: name(text), span: sp(n) }
}

fn module(text: &str, source: usize, n: u32) -> AstItem {
    AstItem::Mod { name: name(text), source_id: SourceId::new(source), span: sp(n) }
}

fn import(from: ModId, text: &str, n: u32) -> AstItem {
    AstItem::Use(ItemUse { module: from, target: UseTarget::Name(name(text)), span: sp(n) })
}

fn wildcard(from: ModId, n: u32) -> AstItem {
    AstItem::Use(ItemUse { module: from, target: UseTarget::Wildcard, span: sp(n) })
}

fn sources(files: Vec<Option<Vec<AstItem>>>) -> Sources {
    let mut sources = Sources::new();
    for ast in files {
        sources.insert(Source { ast });
    }
    sources
}

fn root_task(source: usize) -> Task {
    Task::LoadFile { kind: LoadFileKind::Root, source_id: SourceId::new(source), mod_item: ModId::root() }
}

fn worker(sources: &Sources) -> Worker {
    let mut worker = Worker::new(Query::new(), sources);
    worker.push_task(root_task(0));
    worker
}

fn child(text: &str) -> ModId {
    ModId::root().child(name(text))
}

fn errors(worker: &Worker) -> Vec<(SourceId, Span, ErrorKind)> {
    let mut out = Vec::new();
    for d in worker.q.diagnostics.diagnostics.iter() {
        match &d.kind {
            DiagnosticKind::Error(e) => out.push((d.source_id, e.span, clone_kind(&e.kind))),
            other => panic!("unexpected diagnostic {:?}", other),
        }
    }
    out
}

fn clone_kind(kind: &ErrorKind) -> ErrorKind {
    match kind {
        ErrorKind::ParseError => ErrorKind::ParseError,
        ErrorKind::ModAlreadyLoaded { name, existing } => {
            ErrorKind::ModAlreadyLoaded { name: *name, existing: *existing }
        }
        ErrorKind::ItemConflict { name, existing } => ErrorKind::ItemConflict { name: *name, existing: *existing },
        ErrorKind::MissingModule { module } => ErrorKind::MissingModule { module: *module },
        ErrorKind::MissingItem { module, name } => ErrorKind::MissingItem { module: *module, name: *name },
        ErrorKind::UnsupportedGenerics => ErrorKind::UnsupportedGenerics,
        other => panic!("unexpected error {:?}", other),
    }
}

#[test]
fn declarations_are_registered_in_their_module() {
    let sources = sources(vec![Some(vec![decl("a", 1), decl("b", 2)])]);
    let mut worker = worker(&sources);
    worker.index(&sources);
    assert_eq!(worker.q.resolve(ModId::root(), name("a")), Some(Binding::Item(ItemId(0))));
    assert_eq!(worker.q.resolve(ModId::root(), name("b")), Some(Binding::Item(ItemId(1))));
    assert_eq!(worker.q.resolve(ModId::root(), name("c")), None);
    assert_eq!(worker.q.resolve(child("m"), name("a")), None);
    assert!(worker.q.diagnostics.is_empty());
    assert!(worker.queue.is_empty());
    assert_eq!(worker.indexed, vec![true]);
    assert_eq!(worker.q.items[1].location, Location::new(SourceId::new(0), sp(2)));
}

#[test]
fn nested_modules_are_loaded_from_their_sources() {
    let sources = sources(vec![
        Some(vec![module("m", 1, 1), decl("top", 2)]),
        Some(vec![decl("inner", 3), module("deep", 2, 4)]),
        Some(vec![decl("bottom", 5)]),
    ]);
    let mut worker = worker(&sources);
    worker.index(&sources);
    assert!(worker.q.diagnostics.is_empty());
    assert_eq!(worker.q.resolve(ModId::root(), name("m")), Some(Binding::Module(child("m"))));
    assert!(matches!(worker.q.resolve(child("m"), name("inner")), Some(Binding::Item(_))));
    let deep = child("m").child(name("deep"));
    assert!(matches!(worker.q.resolve(deep, name("bottom")), Some(Binding::Item(_))));
    assert_eq!(worker.indexed, vec![true, true, true]);
    let entry = worker.q.module(deep).unwrap();
    assert_eq!(entry.parent, Some(child("m")));
    assert_eq!(entry.source_id, SourceId::new(2));
    assert_eq!(entry.root, Some(SourceId::new(0)));
}

#[test]
fn wildcard_import_resolves_only_after_the_wildcard_phase() {
    let a = child("a");
    let b = child("b");
    let sources = sources(vec![
        Some(vec![module("a", 1, 1), module("b", 2, 2)]),
        Some(vec![wildcard(b, 3)]),
        Some(vec![decl("x", 4)]),
    ]);
    let mut worker = worker(&sources);
    let mut wildcards = Vec::new();
    worker.drain(&sources, &mut wildcards);
    assert!(worker.queue.is_empty());
    assert_eq!(
        wildcards,
        vec![WildcardImport { from: a, target: b, location: Location::new(SourceId::new(1), sp(3)) }]
    );
    assert_eq!(worker.q.resolve(a, name("x")), None);
    assert!(matches!(worker.q.resolve(b, name("x")), Some(Binding::Item(_))));
    worker.expand_wildcards(&mut wildcards);
    assert!(wildcards.is_empty());
    assert_eq!(worker.q.resolve(a, name("x")), worker.q.resolve(b, name("x")));
    assert!(worker.q.resolve(a, name("x")).is_some());
    assert!(worker.q.diagnostics.is_empty());
}

#[test]
fn wildcard_import_resolves_after_indexing() {
    let a = child("a");
    let b = child("b");
    let sources = sources(vec![
        Some(vec![module("a", 1, 1), module("b", 2, 2)]),
        Some(vec![wildcard(b, 3), decl("own", 5)]),
        Some(vec![decl("x", 4), decl("own", 6)]),
    ]);
    let mut worker = worker(&sources);
    worker.index(&sources);
    assert!(worker.q.diagnostics.is_empty());
    assert_eq!(worker.q.resolve(a, name("x")), worker.q.resolve(b, name("x")));
    assert_ne!(worker.q.resolve(a, name("own")), worker.q.resolve(b, name("own")));
    assert_eq!(worker.q.lookup(a, name("own")).unwrap().location.source_id, SourceId::new(1));
}

#[test]
fn wildcard_import_of_an_unknown_module_is_reported() {
    let sources = sources(vec![Some(vec![wildcard(child("nowhere"), 3)])]);
    let mut worker = worker(&sources);
    worker.index(&sources);
    assert_eq!(
        errors(&worker),
        vec![(SourceId::new(0), sp(3), ErrorKind::MissingModule { module: child("nowhere").0 })]
    );
}

#[test]
fn import_binds_a_name_that_is_known() {
    let m = child("m");
    let sources = sources(vec![
        Some(vec![decl("x", 1), module("m", 1, 2)]),
        Some(vec![import(ModId::root(), "x", 3)]),
    ]);
    let mut worker = worker(&sources);
    worker.index(&sources);
    assert!(worker.q.diagnostics.is_empty());
    assert_eq!(worker.q.resolve(m, name("x")), Some(Binding::Item(ItemId(0))));
    assert_eq!(worker.q.lookup(m, name("x")).unwrap().location, Location::new(SourceId::new(1), sp(3)));
}

#[test]
fn import_of_an_unknown_name_or_module_is_reported_and_work_goes_on() {
    let sources = sources(vec![Some(vec![
        import(ModId::root(), "missing", 1),
        import(child("nowhere"), "x", 2),
        decl("after", 3),
    ])]);
    let mut worker = worker(&sources);
    worker.index(&sources);
    assert_eq!(
        errors(&worker),
        vec![
            (
                SourceId::new(0),
                sp(1),
                ErrorKind::MissingItem { module: ModId::root().0, name: name("missing") }
            ),
            (SourceId::new(0), sp(2), ErrorKind::MissingModule { module: child("nowhere").0 }),
        ]
    );
    assert!(worker.q.resolve(ModId::root(), name("after")).is_some());
}

#[test]
fn import_over_a_bound_name_is_a_conflict() {
    let m = child("m");
    let sources = sources(vec![
        Some(vec![decl("x", 1), module("m", 1, 2)]),
        Some(vec![decl("x", 3), import(ModId::root(), "x", 4)]),
    ]);
    let mut worker = worker(&sources);
    worker.index(&sources);
    assert_eq!(
        errors(&worker),
        vec![(
            SourceId::new(1),
            sp(4),
            ErrorKind::ItemConflict { name: name("x"), existing: Location::new(SourceId::new(1), sp(3)) }
        )]
    );
    assert_eq!(worker.q.resolve(m, name("x")), Some(Binding::Item(ItemId(1))));
}

#[test]
fn duplicate_declaration_stops_the_file_with_one_diagnostic() {
    let sources = sources(vec![Some(vec![decl("x", 1), decl("x", 2), decl("y", 3)])]);
    let mut worker = worker(&sources);
    worker.index(&sources);
    assert_eq!(
        errors(&worker),
        vec![(
            SourceId::new(0),
            sp(2),
            ErrorKind::ItemConflict { name: name("x"), existing: Location::new(SourceId::new(0), sp(1)) }
        )]
    );
    assert_eq!(worker.q.resolve(ModId::root(), name("y")), None);
    assert_eq!(worker.q.items.len(), 1);
}

#[test]
fn module_declared_twice_is_reported() {
    let sources = sources(vec![Some(vec![module("m", 1, 1), module("m", 1, 2)]), Some(vec![])]);
    let mut worker = worker(&sources);
    worker.index(&sources);
    assert_eq!(
        errors(&worker),
        vec![(
            SourceId::new(0),
            sp(2),
            ErrorKind::ModAlreadyLoaded { name: name("m"), existing: Location::new(SourceId::new(0), sp(1)) }
        )]
    );
    assert_eq!(worker.q.modules.len(), 2);
}

#[test]
fn missing_source_is_an_internal_diagnostic_and_work_goes_on() {
    let sources = sources(vec![Some(vec![decl("x", 1)])]);
    let mut worker = Worker::new(Query::new(), &sources);
    worker.push_task(root_task(9));
    worker.push_task(root_task(0));
    worker.index(&sources);
    assert_eq!(worker.q.diagnostics.len(), 1);
    let diagnostic = worker.q.diagnostics.get(0).unwrap();
    assert_eq!(diagnostic.source_id, SourceId::new(9));
    assert_eq!(diagnostic.kind, DiagnosticKind::Internal("Missing queued source by id"));
    assert!(worker.q.resolve(ModId::root(), name("x")).is_some());
}

#[test]
fn source_queued_twice_is_indexed_once() {
    let sources = sources(vec![Some(vec![decl("x", 1)])]);
    let mut worker = Worker::new(Query::new(), &sources);
    worker.push_task(root_task(0));
    worker.push_task(root_task(0));
    worker.index(&sources);
    assert_eq!(worker.q.items.len(), 1);
    assert_eq!(worker.q.diagnostics.len(), 1);
    assert_eq!(
        worker.q.diagnostics.get(0).unwrap().kind,
        DiagnosticKind::Internal("Queued source is already loaded")
    );
}

#[test]
fn module_that_names_its_own_source_ends() {
    let sources = sources(vec![Some(vec![module("m", 0, 1)])]);
    let mut worker = worker(&sources);
    worker.index(&sources);
    assert_eq!(worker.q.modules.len(), 2);
    assert_eq!(worker.q.diagnostics.len(), 1);
    assert!(worker.queue.is_empty());
}

#[test]
fn unparsed_source_is_reported() {
    let sources = sources(vec![Some(vec![module("m", 1, 1), decl("x", 2)]), None]);
    let mut worker = worker(&sources);
    worker.index(&sources);
    assert_eq!(errors(&worker), vec![(SourceId::new(1), Span::empty(), ErrorKind::ParseError)]);
    assert!(worker.q.resolve(ModId::root(), name("x")).is_some());
}

fn impl_block(module: ModId, ty: &str, generics: usize, n: u32, functions: Vec<ItemFn>) -> AstItem {
    let generics = (0..generics as u32).map(|i| sp(100 * n + i)).collect();
    AstItem::Impl(ItemImpl { module, name: name(ty), generics, span: sp(n), functions })
}

fn function(text: &str, n: u32, uses: Vec<ItemUse>) -> ItemFn {
    ItemFn { name: name(text), span: sp(n), uses }
}

#[test]
fn impl_block_before_its_type_attaches_its_functions() {
    let sources = sources(vec![Some(vec![
        impl_block(ModId::root(), "T", 0, 1, vec![function("new", 2, vec![]), function("len", 3, vec![])]),
        decl("T", 4),
    ])]);
    let mut worker = worker(&sources);
    worker.index(&sources);
    assert!(worker.q.diagnostics.is_empty());
    let new = worker.q.find_associated(ItemId(0), name("new")).unwrap();
    assert_eq!(new.location, Location::new(SourceId::new(0), sp(2)));
    assert!(worker.q.find_associated(ItemId(0), name("len")).is_some());
    assert!(worker.q.find_associated(ItemId(0), name("other")).is_none());
    assert!(worker.q.impl_items.is_empty());
}

#[test]
fn impl_block_for_a_type_in_a_later_module() {
    let m = child("m");
    let sources = sources(vec![
        Some(vec![impl_block(m, "T", 0, 1, vec![function("f", 2, vec![])]), module("m", 1, 3)]),
        Some(vec![decl("T", 4)]),
    ]);
    let mut worker = worker(&sources);
    worker.index(&sources);
    assert!(worker.q.diagnostics.is_empty());
    assert!(worker.q.find_associated(ItemId(0), name("f")).is_some());
}

#[test]
fn impl_block_with_generics_is_refused() {
    let sources = sources(vec![Some(vec![
        decl("T", 1),
        impl_block(ModId::root(), "T", 2, 2, vec![function("f", 3, vec![])]),
        impl_block(ModId::root(), "T", 0, 4, vec![function("g", 5, vec![])]),
    ])]);
    let mut worker = worker(&sources);
    worker.index(&sources);
    assert_eq!(errors(&worker), vec![(SourceId::new(0), sp(200), ErrorKind::UnsupportedGenerics)]);
    assert!(worker.q.find_associated(ItemId(0), name("f")).is_none());
    assert!(worker.q.find_associated(ItemId(0), name("g")).is_some());
    assert_eq!(worker.q.associated.len(), 1);
}

#[test]
fn impl_block_for_an_unknown_type_or_module_is_reported() {
    let sources = sources(vec![Some(vec![
        impl_block(ModId::root(), "Missing", 0, 1, vec![]),
        impl_block(child("nowhere"), "T", 0, 2, vec![]),
        module("m", 1, 3),
        impl_block(ModId::root(), "m", 0, 4, vec![]),
    ]), Some(vec![])]);
    let mut worker = worker(&sources);
    worker.index(&sources);
    assert_eq!(
        errors(&worker),
        vec![
            (
                SourceId::new(0),
                sp(1),
                ErrorKind::MissingItem { module: ModId::root().0, name: name("Missing") }
            ),
            (SourceId::new(0), sp(2), ErrorKind::MissingModule { module: child("nowhere").0 }),
            (SourceId::new(0), sp(4), ErrorKind::MissingItem { module: ModId::root().0, name: name("m") }),
        ]
    );
}

#[test]
fn function_attached_twice_is_a_conflict() {
    let sources = sources(vec![Some(vec![
        decl("T", 1),
        impl_block(
            ModId::root(),
            "T",
            0,
            2,
            vec![function("f", 3, vec![]), function("f", 4, vec![]), function("g", 5, vec![])],
        ),
    ])]);
    let mut worker = worker(&sources);
    worker.index(&sources);
    assert_eq!(
        errors(&worker),
        vec![(
            SourceId::new(0),
            sp(4),
            ErrorKind::ItemConflict { name: name("f"), existing: Location::new(SourceId::new(0), sp(3)) }
        )]
    );
    assert_eq!(worker.q.associated.len(), 1);
}

#[test]
fn imports_in_impl_functions_start_another_round() {
    let m = child("m");
    let sources = sources(vec![
        Some(vec![
            decl("T", 1),
            module("m", 1, 2),
            impl_block(
                ModId::root(),
                "T",
                0,
                3,
                vec![function(
                    "f",
                    4,
                    vec![
                        ItemUse { module: m, target: UseTarget::Name(name("x")), span: sp(5) },
                        ItemUse { module: m, target: UseTarget::Wildcard, span: sp(6) },
                    ],
                )],
            ),
        ]),
        Some(vec![decl("x", 7), decl("y", 8)]),
    ]);
    let mut worker = worker(&sources);
    let mut wildcards = Vec::new();
    worker.drain(&sources, &mut wildcards);
    worker.expand_wildcards(&mut wildcards);
    worker.expand_impls(&sources);
    assert_eq!(
        worker.queue.iter().copied().collect::<Vec<Task>>(),
        vec![
            Task::ExpandImport(Import {
                kind: ImportKind::Local,
                module: ModId::root(),
                source_id: SourceId::new(0),
                ast: ItemUse { module: m, target: UseTarget::Name(name("x")), span: sp(5) },
            }),
            Task::ExpandImport(Import {
                kind: ImportKind::Local,
                module: ModId::root(),
                source_id: SourceId::new(0),
                ast: ItemUse { module: m, target: UseTarget::Wildcard, span: sp(6) },
            }),
        ]
    );
    assert_eq!(worker.q.resolve(ModId::root(), name("x")), None);
    worker.index(&sources);
    assert!(worker.q.diagnostics.is_empty());
    assert!(worker.queue.is_empty());
    assert_eq!(worker.q.resolve(ModId::root(), name("x")), worker.q.resolve(m, name("x")));
    assert_eq!(worker.q.resolve(ModId::root(), name("y")), worker.q.resolve(m, name("y")));
    assert!(worker.q.resolve(ModId::root(), name("y")).is_some());
}

#[test]
fn waiting_impl_blocks_are_expanded_without_a_task() {
    let sources = sources(vec![Some(vec![
        decl("T", 1),
        impl_block(ModId::root(), "T", 0, 2, vec![function("f", 3, vec![])]),
    ])]);
    let mut worker = worker(&sources);
    let mut wildcards = Vec::new();
    worker.drain(&sources, &mut wildcards);
    assert_eq!(worker.q.impl_items.len(), 1);
    assert!(worker.queue.is_empty());
    worker.index(&sources);
    assert!(worker.q.impl_items.is_empty());
    assert_eq!(worker.q.associated.len(), 1);
}

#[test]
fn tasks_run_in_the_order_they_were_queued() {
    let sources = sources(vec![Some(vec![decl("a", 1)]), Some(vec![decl("b", 2)])]);
    let mut worker = Worker::new(Query::new(), &sources);
    worker.push_task(root_task(1));
    worker.push_task(root_task(0));
    worker.index(&sources);
    assert_eq!(worker.q.items[0].name, name("b"));
    assert_eq!(worker.q.items[1].name, name("a"));
}

#[test]
fn root_module_is_registered_from_the_start() {
    let q = Query::new();
    assert_eq!(q.modules.len(), 1);
    assert_eq!(q.module(ModId::root()).unwrap().parent, None);
    assert_eq!(q.module(child("m")), None);
}

#[test]
fn impl_entry_that_names_no_block_is_an_internal_diagnostic() {
    let sources = sources(vec![Some(vec![decl("T", 1)])]);
    let mut worker = worker(&sources);
    for (source, index) in vec![(0, 0), (0, 7), (5, 0)] {
        worker.q.impl_items.push_back(ImplItemEntry {
            module: ModId::root(),
            name: name("T"),
            generics: None,
            location: Location::new(SourceId::new(source), sp(9)),
            index,
            root: None,
        });
    }
    worker.index(&sources);
    assert_eq!(worker.q.diagnostics.len(), 3);
    for (i, source) in vec![0, 0, 5].into_iter().enumerate() {
        let diagnostic = worker.q.diagnostics.get(i).unwrap();
        assert_eq!(diagnostic.source_id, SourceId::new(source));
        assert_eq!(diagnostic.kind, DiagnosticKind::Internal("Missing queued impl item"));
    }
    assert!(worker.q.associated.is_empty());
    assert!(worker.q.impl_items.is_empty());
}

#[test]
fn module_whose_path_is_registered_is_refused() {
    let sources = sources(vec![Some(vec![module("m", 1, 1)]), Some(vec![decl("x", 2)])]);
    let mut worker = worker(&sources);
    let before = Location::new(SourceId::new(3), sp(8));
    worker.q.modules.push(Module {
        id: child("m"),
        parent: Some(ModId::root()),
        name: name("m"),
        source_id: SourceId::new(3),
        location: before,
        root: None,
    });
    worker.index(&sources);
    assert_eq!(
        errors(&worker),
        vec![(SourceId::new(0), sp(1), ErrorKind::ModAlreadyLoaded { name: name("m"), existing: before })]
    );
    assert_eq!(worker.q.resolve(ModId::root(), name("m")), None);
    assert_eq!(worker.indexed, vec![true, false]);
}

#[test]
fn wildcard_task_is_put_aside_by_the_drain() {
    let sources = sources(vec![]);
    let mut worker = Worker::new(Query::new(), &sources);
    let wildcard = WildcardImport {
        from: ModId::root(),
        target: ModId::root(),
        location: Location::new(SourceId::new(0), sp(1)),
    };
    worker.push_task(Task::ExpandWildcardImport(wildcard));
    let mut aside = Vec::new();
    worker.drain(&sources, &mut aside);
    assert_eq!(aside, vec![wildcard]);
    assert!(worker.q.names.is_empty());
    assert!(worker.q.diagnostics.is_empty());
}
