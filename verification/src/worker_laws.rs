//! Laws of the resolver: what it knows only grows.

use vstd::prelude::*;
use crate::ast::{AstItem, ItemFn, Sources};
use crate::query::{ImplItemEntry, ItemId, ModId, Module, Name};
use crate::span::{Location, SourceId, Span};
use crate::worker::{
    lemma_imported_names_extend, lemma_run_task_decreases, unindexed, queue_weight, Task, WildcardImport,
    WorkerView,
};

verus! {

/// Whether the first sequence is the start of the second.
pub open spec fn starts<T>(a: Seq<T>, b: Seq<T>) -> bool {
    a.len() <= b.len() && forall|i: int| 0 <= i < a.len() ==> #[trigger] b[i] == a[i]
}

/// Whether everything that the resolver knew before it knows after, in
/// the same order: the diagnostics, the modules, the names, the items and
/// the functions attached to types are only added to.
pub open spec fn grows(before: WorkerView, after: WorkerView) -> bool {
    &&& starts(before.q.diagnostics, after.q.diagnostics)
    &&& starts(before.q.modules, after.q.modules)
    &&& starts(before.q.names, after.q.names)
    &&& starts(before.q.items, after.q.items)
    &&& starts(before.q.associated, after.q.associated)
}

/// Indexing items only adds to what the resolver knows.
pub proof fn lemma_index_items_grows(
    w: WorkerView,
    items: Seq<AstItem>,
    n: int,
    module: ModId,
    source_id: SourceId,
    root: Option<SourceId>,
)
    requires
        n <= items.len(),
    ensures
        grows(w, w.index_items(items, n, module, source_id, root).0),
    decreases n,
{
    if n > 0 {
        lemma_index_items_grows(w, items, n - 1, module, source_id, root);
        let before = w.index_items(items, n - 1, module, source_id, root);
        if before.1 is None {
            let after = before.0.index_item(&items[n - 1], (n - 1) as usize, module, source_id, root);
            assert(grows(before.0, after.0));
        }
    }
}

/// Every task of the drain phase only adds to what the resolver knows.
pub proof fn lemma_run_task_grows(w: WorkerView, sources: &Sources, wildcards: Seq<WildcardImport>, task: Task)
    ensures
        grows(w, w.run_task(sources, wildcards, task).0),
{
    match task {
        Task::LoadFile { kind, source_id, mod_item } => {
            match sources.source(source_id) {
                None => {},
                Some(source) => {
                    if source_id.0 >= w.indexed.len() || w.indexed[source_id.0 as int] {
                    } else {
                        let marked = WorkerView { indexed: w.indexed.update(source_id.0 as int, true), ..w };
                        match source.ast {
                            None => {},
                            Some(items) => {
                                lemma_index_items_grows(
                                    marked,
                                    items@,
                                    items@.len() as int,
                                    mod_item,
                                    source_id,
                                    crate::worker::root_of(kind, source_id),
                                );
                            },
                        }
                    }
                },
            }
        },
        Task::ExpandImport(import) => {},
        Task::ExpandWildcardImport(wildcard) => {},
    }
}

/// The drain phase only adds to what the resolver knows.
pub proof fn lemma_drained_grows(w: WorkerView, sources: &Sources, wildcards: Seq<WildcardImport>)
    ensures
        grows(w, w.drained(sources, wildcards).0),
    decreases unindexed(w.indexed), w.q.impl_items.len(), queue_weight(w.queue),
{
    if w.queue.len() > 0 {
        lemma_run_task_decreases(w, sources, wildcards);
        lemma_run_task_grows(w.popped(), sources, wildcards, w.queue[0]);
        let next = w.popped().run_task(sources, wildcards, w.queue[0]);
        lemma_drained_grows(next.0, sources, next.1);
    }
}

/// The wildcard phase only adds to what the resolver knows.
pub proof fn lemma_expand_wildcards_grows(w: WorkerView, wildcards: Seq<WildcardImport>, n: int)
    requires
        n <= wildcards.len(),
    ensures
        grows(w, w.expand_wildcards(wildcards, n)),
    decreases n,
{
    if n > 0 {
        lemma_expand_wildcards_grows(w, wildcards, n - 1);
        let before = w.expand_wildcards(wildcards, n - 1);
        let wildcard = wildcards[n - 1];
        lemma_imported_names_extend(
            before.q.names,
            before.q.names.len() as int,
            wildcard.from,
            wildcard.target,
            wildcard.location,
        );
        assert(grows(before, before.expand_wildcard(wildcard)));
    }
}

/// Attaching functions only adds to what the resolver knows.
pub proof fn lemma_attach_functions_grows(
    w: WorkerView,
    functions: Seq<ItemFn>,
    n: int,
    item: ItemId,
    module: ModId,
    source_id: SourceId,
)
    requires
        n <= functions.len(),
    ensures
        grows(w, w.attach_functions(functions, n, item, module, source_id).0),
    decreases n,
{
    if n > 0 {
        lemma_attach_functions_grows(w, functions, n - 1, item, module, source_id);
        let before = w.attach_functions(functions, n - 1, item, module, source_id);
        if before.1 is None {
            let function = &functions[n - 1];
            if crate::query::find_associated(before.0.q.associated, item, function.name) is None {
                let attached = WorkerView {
                    q: crate::query::QueryView {
                        associated: before.0.q.associated.push(
                            crate::query::Associated {
                                item,
                                name: function.name,
                                location: Location { source_id, span: function.span },
                            },
                        ),
                        ..before.0.q
                    },
                    ..before.0
                };
                crate::worker::lemma_enqueue_uses_keeps(
                    attached,
                    function.uses@,
                    function.uses@.len() as int,
                    module,
                    source_id,
                );
            }
            assert(grows(before.0, before.0.attach_function(function, item, module, source_id).0));
        }
    }
}

/// Expanding an implementation block only adds to what the resolver
/// knows.
pub proof fn lemma_expand_impl_grows(w: WorkerView, sources: &Sources, entry: ImplItemEntry)
    ensures
        grows(w, w.expand_impl(sources, entry)),
{
    match sources.impl_at(entry.location.source_id, entry.index) {
        None => {},
        Some(block) => {
            match crate::query::lookup(w.q.names, entry.module, entry.name) {
                Some(Name { binding: crate::query::Binding::Item(item), .. }) => {
                    lemma_attach_functions_grows(
                        w,
                        block.functions@,
                        block.functions@.len() as int,
                        item,
                        entry.module,
                        entry.location.source_id,
                    );
                },
                _ => {},
            }
        },
    }
}

/// The impl phase only adds to what the resolver knows.
pub proof fn lemma_expand_impls_grows(w: WorkerView, sources: &Sources)
    ensures
        grows(w, w.expand_impls(sources)),
    decreases w.q.impl_items.len(),
{
    if w.q.impl_items.len() > 0 {
        let popped = w.without_first_impl();
        crate::worker::lemma_expand_impl_keeps(popped, sources, w.q.impl_items[0]);
        lemma_expand_impl_grows(popped, sources, w.q.impl_items[0]);
        lemma_expand_impls_grows(popped.expand_impl(sources, w.q.impl_items[0]), sources);
    }
}

/// A round only adds to what the resolver knows.
pub proof fn lemma_round_grows(w: WorkerView, sources: &Sources)
    ensures
        grows(w, w.round(sources)),
{
    let drained = w.drained(sources, Seq::empty());
    lemma_drained_grows(w, sources, Seq::empty());
    lemma_expand_wildcards_grows(drained.0, drained.1, drained.1.len() as int);
    lemma_expand_impls_grows(drained.0.expand_wildcards(drained.1, drained.1.len() as int), sources);
}

/// Indexing only adds to what the resolver knows: no diagnostic is taken
/// back, and no module, name, item or attached function is forgotten or
/// changed. Whatever goes wrong, the work is carried to its end.
pub proof fn lemma_finished_grows(w: WorkerView, sources: &Sources)
    ensures
        grows(w, w.finished(sources)),
        !w.finished(sources).busy(),
    decreases unindexed(w.indexed), w.q.impl_items.len(), queue_weight(w.queue),
{
    if w.busy() {
        crate::worker::lemma_round_decreases(w, sources);
        lemma_round_grows(w, sources);
        lemma_finished_grows(w.round(sources), sources);
    }
}

/// A name that a scope binds stays bound to the same when names are only
/// added behind it.
pub proof fn lemma_lookup_kept(before: Seq<Name>, after: Seq<Name>, module: ModId, name: crate::hash::Hash)
    requires
        starts(before, after),
        crate::query::lookup(before, module, name) is Some,
    ensures
        crate::query::lookup(after, module, name) == crate::query::lookup(before, module, name),
{
    let p = |n: Name| n.module == module && n.name == name;
    crate::query::lemma_position_is_first(before, p);
    let i = crate::query::position(before, p)->0;
    assert(after[i] == before[i]);
    assert forall|j: int| 0 <= j < i implies !p(#[trigger] after[j]) by {
        assert(after[j] == before[j]);
    }
    crate::query::lemma_position(after, p, i);
}

/// A module that is registered stays registered when modules are only
/// added behind it.
pub proof fn lemma_module_kept(before: Seq<Module>, after: Seq<Module>, id: ModId)
    requires
        starts(before, after),
        crate::query::find_module(before, id) is Some,
    ensures
        crate::query::find_module(after, id) is Some,
{
    let p = |m: Module| m.id == id;
    crate::query::lemma_position_is_first(before, p);
    let i = crate::query::position(before, p)->0;
    assert(after[i] == before[i]);
    assert forall|j: int| 0 <= j < i implies !p(#[trigger] after[j]) by {
        assert(after[j] == before[j]);
    }
    crate::query::lemma_position(after, p, i);
}

/// Expanding one wildcard import only adds to what the resolver knows,
/// and records nothing where the target module is known.
pub proof fn lemma_expand_wildcard_grows(w: WorkerView, wildcard: WildcardImport)
    ensures
        grows(w, w.expand_wildcard(wildcard)),
        crate::query::find_module(w.q.modules, wildcard.target) is Some ==> w.expand_wildcard(
            wildcard,
        ).q.diagnostics == w.q.diagnostics,
{
    lemma_imported_names_extend(
        w.q.names,
        w.q.names.len() as int,
        wildcard.from,
        wildcard.target,
        wildcard.location,
    );
}

/// The wildcard phase binds what it imports: a name that the target of
/// one of the wildcard imports binds when the phase begins, in a module
/// that is known then, is bound in the importing module when the phase
/// ends.
pub proof fn lemma_wildcards_bind(
    w: WorkerView,
    wildcards: Seq<WildcardImport>,
    n: int,
    k: int,
    name: crate::hash::Hash,
)
    requires
        0 <= k < n <= wildcards.len(),
        crate::query::find_module(w.q.modules, wildcards[k].target) is Some,
        crate::query::lookup(w.q.names, wildcards[k].target, name) is Some,
    ensures
        crate::query::lookup(w.expand_wildcards(wildcards, n).q.names, wildcards[k].from, name) is Some,
    decreases n,
{
    let before = w.expand_wildcards(wildcards, n - 1);
    let wildcard = wildcards[n - 1];
    lemma_expand_wildcard_grows(before, wildcard);
    if k < n - 1 {
        lemma_wildcards_bind(w, wildcards, n - 1, k, name);
        lemma_lookup_kept(before.q.names, before.expand_wildcard(wildcard).q.names, wildcards[k].from, name);
    } else {
        lemma_expand_wildcards_grows(w, wildcards, n - 1);
        lemma_module_kept(w.q.modules, before.q.modules, wildcard.target);
        lemma_lookup_kept(w.q.names, before.q.names, wildcard.target, name);
        if crate::query::lookup(before.q.names, wildcard.from, name) is None {
            crate::worker::lemma_wildcard_binds(before, wildcard, name);
        } else {
            lemma_lookup_kept(before.q.names, before.expand_wildcard(wildcard).q.names, wildcard.from, name);
        }
    }
}

/// The wildcard import that a task stands for: the import itself, or the
/// one that expanding an import of everything makes.
pub open spec fn deferred(task: Task) -> Option<WildcardImport> {
    match task {
        Task::ExpandWildcardImport(wildcard) => Some(wildcard),
        Task::ExpandImport(import) => match import.ast.target {
            crate::ast::UseTarget::Wildcard => Some(
                WildcardImport {
                    from: import.module,
                    target: import.ast.module,
                    location: Location { source_id: import.source_id, span: import.ast.span },
                },
            ),
            crate::ast::UseTarget::Name(_) => None,
        },
        Task::LoadFile { .. } => None,
    }
}

/// Indexing items only adds tasks behind those that wait.
pub proof fn lemma_index_items_queue(
    w: WorkerView,
    items: Seq<AstItem>,
    n: int,
    module: ModId,
    source_id: SourceId,
    root: Option<SourceId>,
)
    requires
        n <= items.len(),
    ensures
        starts(w.queue, w.index_items(items, n, module, source_id, root).0.queue),
    decreases n,
{
    if n > 0 {
        lemma_index_items_queue(w, items, n - 1, module, source_id, root);
        let before = w.index_items(items, n - 1, module, source_id, root);
        if before.1 is None {
            let after = before.0.index_item(&items[n - 1], (n - 1) as usize, module, source_id, root);
            assert(starts(before.0.queue, after.0.queue));
        }
    }
}

/// A task of the drain phase only adds tasks behind those that wait, and
/// wildcard imports behind those that are put aside.
pub proof fn lemma_run_task_queue(w: WorkerView, sources: &Sources, wildcards: Seq<WildcardImport>, task: Task)
    ensures
        starts(w.queue, w.run_task(sources, wildcards, task).0.queue),
        starts(wildcards, w.run_task(sources, wildcards, task).1),
{
    match task {
        Task::LoadFile { kind, source_id, mod_item } => {
            match sources.source(source_id) {
                None => {},
                Some(source) => {
                    if source_id.0 >= w.indexed.len() || w.indexed[source_id.0 as int] {
                    } else {
                        let marked = WorkerView { indexed: w.indexed.update(source_id.0 as int, true), ..w };
                        match source.ast {
                            None => {},
                            Some(items) => {
                                lemma_index_items_queue(
                                    marked,
                                    items@,
                                    items@.len() as int,
                                    mod_item,
                                    source_id,
                                    crate::worker::root_of(kind, source_id),
                                );
                            },
                        }
                    }
                },
            }
        },
        Task::ExpandImport(import) => {},
        Task::ExpandWildcardImport(wildcard) => {},
    }
}

/// The drain phase only adds wildcard imports behind those that are put
/// aside.
pub proof fn lemma_drained_aside(w: WorkerView, sources: &Sources, wildcards: Seq<WildcardImport>)
    ensures
        starts(wildcards, w.drained(sources, wildcards).1),
    decreases unindexed(w.indexed), w.q.impl_items.len(), queue_weight(w.queue),
{
    if w.queue.len() > 0 {
        lemma_run_task_decreases(w, sources, wildcards);
        lemma_run_task_queue(w.popped(), sources, wildcards, w.queue[0]);
        let next = w.popped().run_task(sources, wildcards, w.queue[0]);
        lemma_drained_aside(next.0, sources, next.1);
    }
}

/// The drain phase puts every wildcard import aside that waits in the
/// queue, as a task of its own or in an import of everything: it is among
/// the imports that are put aside when the phase ends.
pub proof fn lemma_drain_defers(w: WorkerView, sources: &Sources, wildcards: Seq<WildcardImport>, i: int)
    requires
        0 <= i < w.queue.len(),
        deferred(w.queue[i]) is Some,
    ensures
        w.drained(sources, wildcards).1.contains(deferred(w.queue[i])->0),
    decreases unindexed(w.indexed), w.q.impl_items.len(), queue_weight(w.queue),
{
    let wildcard = deferred(w.queue[i])->0;
    lemma_run_task_decreases(w, sources, wildcards);
    lemma_run_task_queue(w.popped(), sources, wildcards, w.queue[0]);
    let next = w.popped().run_task(sources, wildcards, w.queue[0]);
    if i > 0 {
        assert(w.popped().queue[i - 1] == w.queue[i]);
        assert(next.0.queue[i - 1] == w.queue[i]);
        lemma_drain_defers(next.0, sources, next.1, i - 1);
    } else {
        match w.queue[0] {
            Task::ExpandWildcardImport(_) => {
                lemma_drained_aside(next.0, sources, next.1);
                let end = next.0.drained(sources, next.1).1;
                assert(next.1[wildcards.len() as int] == wildcard);
                assert(end[wildcards.len() as int] == wildcard);
            },
            Task::ExpandImport(import) => {
                let j = w.popped().queue.len() as int;
                assert(next.0.queue[j] == Task::ExpandWildcardImport(wildcard));
                lemma_drain_defers(next.0, sources, next.1, j);
            },
            Task::LoadFile { .. } => {},
        }
    }
}

/// A wildcard import that waits in the queue is resolved by indexing:
/// where the drain phase of the first round leaves the target module
/// known and a name bound in it, the importing module binds the name when
/// indexing is done. Before that, while the drain phase runs, the import
/// is only put aside.
pub proof fn lemma_index_resolves_wildcard(w: WorkerView, sources: &Sources, i: int, name: crate::hash::Hash)
    requires
        0 <= i < w.queue.len(),
        deferred(w.queue[i]) is Some,
        crate::query::find_module(
            w.drained(sources, Seq::empty()).0.q.modules,
            deferred(w.queue[i])->0.target,
        ) is Some,
        crate::query::lookup(
            w.drained(sources, Seq::empty()).0.q.names,
            deferred(w.queue[i])->0.target,
            name,
        ) is Some,
    ensures
        w.drained(sources, Seq::empty()).1.contains(deferred(w.queue[i])->0),
        crate::query::lookup(w.finished(sources).q.names, deferred(w.queue[i])->0.from, name) is Some,
{
    let wildcard = deferred(w.queue[i])->0;
    let drained = w.drained(sources, Seq::empty());
    lemma_drain_defers(w, sources, Seq::empty(), i);
    let k = choose|k: int| 0 <= k < drained.1.len() && drained.1[k] == wildcard;
    lemma_wildcards_bind(drained.0, drained.1, drained.1.len() as int, k, name);
    let expanded = drained.0.expand_wildcards(drained.1, drained.1.len() as int);
    lemma_expand_impls_grows(expanded, sources);
    lemma_lookup_kept(expanded.q.names, expanded.expand_impls(sources).q.names, wildcard.from, name);
    let round = w.round(sources);
    assert(round == expanded.expand_impls(sources));
    crate::worker::lemma_round_decreases(w, sources);
    assert(w.busy());
    assert(w.finished(sources) == round.finished(sources));
    lemma_finished_grows(round, sources);
    lemma_lookup_kept(round.q.names, round.finished(sources).q.names, wildcard.from, name);
}

/// A module that imports everything of another module in which a name is
/// declared, where the file of the importing module is queued before the
/// file of the other: when the drain phase ends, the name is declared in
/// the other module, the import is put aside, and the importing module
/// does not bind the name; when indexing is done it binds the name to the
/// declared item. Nothing is recorded on the way.
pub proof fn lemma_wildcard_after_drain(
    w: WorkerView,
    sources: &Sources,
    a: ModId,
    b: ModId,
    x: crate::hash::Hash,
    import: crate::ast::ItemUse,
    declared: Span,
    kind_a: crate::worker::LoadFileKind,
    kind_b: crate::worker::LoadFileKind,
)
    requires
        a != b,
        import.module == b,
        import.target == crate::ast::UseTarget::Wildcard,
        sources.items(SourceId(0)) matches Some(items) && items.len() == 1 && items[0] == AstItem::Use(
            import,
        ),
        sources.items(SourceId(1)) matches Some(items) && items.len() == 1 && items[0] == (
        AstItem::Decl { name: x, span: declared }),
        w.queue == seq![
            Task::LoadFile { kind: kind_a, source_id: SourceId(0), mod_item: a },
            Task::LoadFile { kind: kind_b, source_id: SourceId(1), mod_item: b },
        ],
        w.indexed == seq![false, false],
        w.q.impl_items.len() == 0,
        w.q.items.len() <= usize::MAX,
        crate::query::find_module(w.q.modules, b) is Some,
        crate::query::lookup(w.q.names, a, x) is None,
        crate::query::lookup(w.q.names, b, x) is None,
    ensures
        ({
            let drained = w.drained(sources, Seq::empty());
            let wildcard = WildcardImport {
                from: a,
                target: b,
                location: Location { source_id: SourceId(0), span: import.span },
            };
            let item = crate::query::Binding::Item(ItemId(w.q.items.len() as usize));
            let done = w.finished(sources);
            &&& drained.1 == seq![wildcard]
            &&& drained.0.q.diagnostics == w.q.diagnostics
            &&& crate::query::lookup(drained.0.q.names, a, x) is None
            &&& crate::query::lookup(drained.0.q.names, b, x) matches Some(entry) && entry.binding == item
            &&& done.q.diagnostics == w.q.diagnostics
            &&& crate::query::lookup(done.q.names, a, x) matches Some(entry) && entry.binding == item
        }),
{
    let none = Seq::<WildcardImport>::empty();
    let load_a = Task::LoadFile { kind: kind_a, source_id: SourceId(0), mod_item: a };
    let load_b = Task::LoadFile { kind: kind_b, source_id: SourceId(1), mod_item: b };
    let expand = Task::ExpandImport(
        crate::worker::Import {
            kind: crate::worker::ImportKind::Global,
            module: a,
            source_id: SourceId(0),
            ast: import,
        },
    );
    let wildcard = WildcardImport {
        from: a,
        target: b,
        location: Location { source_id: SourceId(0), span: import.span },
    };
    let aside = Task::ExpandWildcardImport(wildcard);
    let items_a = sources.items(SourceId(0))->0;
    let items_b = sources.items(SourceId(1))->0;
    let location = Location { source_id: SourceId(1), span: declared };
    let bound = Name {
        module: b,
        name: x,
        binding: crate::query::Binding::Item(ItemId(w.q.items.len() as usize)),
        location,
    };

    // The file of the importing module: its import is queued.
    let p0 = w.popped();
    assert(p0.queue =~= seq![load_b]);
    let m0 = WorkerView { indexed: p0.indexed.update(0, true), ..p0 };
    let root_a = crate::worker::root_of(kind_a, SourceId(0));
    assert(m0.index_items(items_a, 0, a, SourceId(0), root_a) == (m0, None::<crate::error::ErrorView>));
    let w1 = m0.enqueue(expand);
    assert(m0.index_items(items_a, 1, a, SourceId(0), root_a) == (w1, None::<crate::error::ErrorView>));
    assert(p0.load_file(sources, kind_a, SourceId(0), a) == w1);
    assert(p0.run_task(sources, none, w.queue[0]) == (w1, none));
    assert(w.drained(sources, none) == w1.drained(sources, none));
    assert(w1.queue =~= seq![load_b, expand]);
    assert(w1.indexed =~= seq![true, false]);

    // The file of the other module: the name is declared.
    let p1 = w1.popped();
    assert(p1.queue =~= seq![expand]);
    let m1 = WorkerView { indexed: p1.indexed.update(1, true), ..p1 };
    let root_b = crate::worker::root_of(kind_b, SourceId(1));
    assert(m1.index_items(items_b, 0, b, SourceId(1), root_b) == (m1, None::<crate::error::ErrorView>));
    let w2 = WorkerView {
        q: crate::query::QueryView {
            items: m1.q.items.push(crate::query::Item { module: b, name: x, location }),
            names: m1.q.names.push(bound),
            ..m1.q
        },
        ..m1
    };
    assert(m1.index_item(&items_b[0], 0, b, SourceId(1), root_b) == (w2, None::<crate::error::ErrorView>));
    assert(m1.index_items(items_b, 1, b, SourceId(1), root_b) == (w2, None::<crate::error::ErrorView>));
    assert(p1.load_file(sources, kind_b, SourceId(1), b) == w2);
    assert(p1.run_task(sources, none, w1.queue[0]) == (w2, none));
    assert(w1.drained(sources, none) == w2.drained(sources, none));

    // The import: it becomes a wildcard import of its own.
    let p2 = w2.popped();
    assert(p2.queue =~= Seq::<Task>::empty());
    let w3 = p2.enqueue(aside);
    assert(p2.run_task(sources, none, w2.queue[0]) == (w3, none));
    assert(w2.drained(sources, none) == w3.drained(sources, none));
    assert(w3.queue =~= seq![aside]);

    // The wildcard import: it is put aside.
    let w4 = w3.popped();
    assert(w4.queue =~= Seq::<Task>::empty());
    assert(w4.run_task(sources, none, w3.queue[0]) == (w4, none.push(wildcard)));
    assert(none.push(wildcard) =~= seq![wildcard]);
    assert(w3.drained(sources, none) == w4.drained(sources, seq![wildcard]));
    assert(w4.drained(sources, seq![wildcard]) == (w4, seq![wildcard]));
    assert(w.drained(sources, none) == (w4, seq![wildcard]));

    // What the scopes bind when the drain phase ends.
    assert(w4.q.names == w.q.names.push(bound));
    crate::query::lemma_position_push(w.q.names, |n: Name| n.module == a && n.name == x, bound);
    crate::query::lemma_position_push(w.q.names, |n: Name| n.module == b && n.name == x, bound);
    crate::query::lemma_position_is_first(w4.q.names, |n: Name| n.module == b && n.name == x);

    // The wildcard phase binds the name; no block waits, and nothing is
    // left to do.
    assert(w4.expand_wildcards(seq![wildcard], 0) == w4);
    let w5 = w4.expand_wildcard(wildcard);
    assert(w4.expand_wildcards(seq![wildcard], 1) == w5);
    crate::worker::lemma_wildcard_binds(w4, wildcard, x);
    assert(w5.expand_impls(sources) == w5);
    assert(w.round(sources) == w5);
    assert(!w5.busy());
    assert(w5.finished(sources) == w5);
    assert(w.busy());
    assert(w.finished(sources) == w.round(sources).finished(sources));
}

} // verus!
