//! The resolver worklist: indexes sources and resolves imports and
//! implementation blocks until nothing is left to do.
//!
//! One round has three phases. The drain phase runs the tasks of the queue
//! in the order they were queued: it indexes files, expands imports and
//! puts wildcard imports aside. The wildcard phase then expands every
//! wildcard import that was put aside, and the impl phase attaches the
//! functions of every implementation block that waits. Rounds repeat while
//! there is a task or a waiting block.

use vstd::prelude::*;
use std::collections::VecDeque;
use crate::ast::{AstItem, ItemFn, ItemImpl, ItemUse, Sources, UseTarget};
use crate::diagnostics::{DiagnosticKindView, DiagnosticView};
use crate::error::{Error, ErrorKind, ErrorKindView, ErrorView};
use crate::query::{
    child_module, find_associated, find_module, lookup, Associated, Binding, ImplItemEntry, Item, ItemId,
    ModId, Module, Name, Query, QueryView,
};
use crate::span::{Location, SourceId, Span};

verus! {

/// How a file came to be loaded.
#[derive(Clone, Copy, Debug, PartialEq, Eq, Structural)]
pub enum LoadFileKind {
    /// The file is a root of the build.
    Root,
    /// The file holds a module that was reached from the given root.
    Module { root: Option<SourceId> },
}

/// Where an import stands.
#[derive(Clone, Copy, Debug, PartialEq, Eq, Structural)]
pub enum ImportKind {
    /// The import is in-place: it stands in the body of a function.
    Local,
    /// The import is deferred: it stands among the items of a file.
    Global,
}

/// An import that waits to be expanded.
#[derive(Clone, Copy, Debug, PartialEq, Eq, Structural)]
pub struct Import {
    /// Where the import stands.
    pub kind: ImportKind,
    /// The module that imports.
    pub module: ModId,
    /// The source of the import.
    pub source_id: SourceId,
    /// The import itself.
    pub ast: ItemUse,
}

/// A wildcard import that waits to be expanded.
#[derive(Clone, Copy, Debug, PartialEq, Eq, Structural)]
pub struct WildcardImport {
    /// The module that imports.
    pub from: ModId,
    /// The module whose names are imported.
    pub target: ModId,
    /// Where the import stands.
    pub location: Location,
}

/// A task of the worklist.
#[derive(Clone, Copy, Debug, PartialEq, Eq, Structural)]
pub enum Task {
    /// Index the items of a source as the items of a module.
    LoadFile { kind: LoadFileKind, source_id: SourceId, mod_item: ModId },
    /// Expand an import.
    ExpandImport(Import),
    /// Expand a wildcard import.
    ExpandWildcardImport(WildcardImport),
}

/// What the worker holds, as a mathematical value.
pub struct WorkerView {
    /// What the resolver knows.
    pub q: QueryView,
    /// For each source, whether it was indexed.
    pub indexed: Seq<bool>,
    /// The tasks that wait, first the one that has waited longest.
    pub queue: Seq<Task>,
}

/// The worker of the resolver.
pub struct Worker {
    /// Query engine.
    pub q: Query,
    /// For each source, whether it was indexed.
    pub indexed: Vec<bool>,
    /// Worker queue.
    pub queue: VecDeque<Task>,
}

impl View for Worker {
    type V = WorkerView;

    open spec fn view(&self) -> WorkerView {
        WorkerView { q: self.q@, indexed: self.indexed@, queue: self.queue@ }
    }
}

/// The number of sources that were not indexed.
pub open spec fn unindexed(flags: Seq<bool>) -> nat
    decreases flags.len(),
{
    if flags.len() == 0 {
        0
    } else {
        unindexed(flags.drop_last()) + if flags.last() {
            0nat
        } else {
            1nat
        }
    }
}

/// The weight of a task: an import weighs two, since expanding it may
/// queue a wildcard import, which weighs one as a file does.
pub open spec fn task_weight(task: Task) -> nat {
    match task {
        Task::ExpandImport(_) => 2,
        _ => 1,
    }
}

/// The weight of the tasks of a queue.
pub open spec fn queue_weight(queue: Seq<Task>) -> nat
    decreases queue.len(),
{
    if queue.len() == 0 {
        0
    } else {
        queue_weight(queue.drop_last()) + task_weight(queue.last())
    }
}

/// The root that the items of a file are reached from.
pub open spec fn root_of(kind: LoadFileKind, source_id: SourceId) -> Option<SourceId> {
    match kind {
        LoadFileKind::Root => Some(source_id),
        LoadFileKind::Module { root } => root,
    }
}

/// What the result of an operation reports.
pub open spec fn reported(r: Result<(), Error>) -> Option<ErrorView> {
    match r {
        Ok(_) => None,
        Err(e) => Some(e@),
    }
}

impl WorkerView {
    /// The work that is left, in three parts that are compared one after
    /// the other: the sources that were not indexed, the implementation
    /// blocks that wait, and the weight of the queue.
    pub open spec fn measure(self) -> (nat, nat, nat) {
        (unindexed(self.indexed), self.q.impl_items.len(), queue_weight(self.queue))
    }

    /// The worker with a failed operation recorded.
    pub open spec fn report(self, source_id: SourceId, error: ErrorView) -> WorkerView {
        WorkerView {
            q: QueryView {
                diagnostics: self.q.diagnostics.push(
                    DiagnosticView { source_id, kind: DiagnosticKindView::Error(error) },
                ),
                ..self.q
            },
            ..self
        }
    }

    /// The worker with an inconsistency of its own bookkeeping recorded.
    pub open spec fn internal(self, source_id: SourceId, message: Seq<char>) -> WorkerView {
        WorkerView {
            q: QueryView {
                diagnostics: self.q.diagnostics.push(
                    DiagnosticView { source_id, kind: DiagnosticKindView::Internal(message) },
                ),
                ..self.q
            },
            ..self
        }
    }

    /// The worker with a task added at the end of the queue.
    pub open spec fn enqueue(self, task: Task) -> WorkerView {
        WorkerView { queue: self.queue.push(task), ..self }
    }

    /// The worker with a name added to a scope.
    pub open spec fn bind(self, name: Name) -> WorkerView {
        WorkerView { q: QueryView { names: self.q.names.push(name), ..self.q }, ..self }
    }

    /// The worker without the first task of its queue.
    pub open spec fn popped(self) -> WorkerView {
        WorkerView { queue: self.queue.drop_first(), ..self }
    }

    /// Indexes one item of a file.
    ///
    /// - A declaration registers an item and binds its name in the
    ///   module. A name that is bound already is a conflict.
    /// - A module is registered, its name is bound, and the file with its
    ///   items is queued. A module that was declared before is refused.
    /// - An import is queued.
    /// - An implementation block is put to the blocks that wait.
    pub open spec fn index_item(
        self,
        item: &AstItem,
        index: usize,
        module: ModId,
        source_id: SourceId,
        root: Option<SourceId>,
    ) -> (WorkerView, Option<ErrorView>) {
        match *item {
            AstItem::Decl { name, span } => match lookup(self.q.names, module, name) {
                Some(existing) => (
                    self,
                    Some(
                        ErrorView {
                            span,
                            kind: ErrorKindView::ItemConflict { name, existing: existing.location },
                        },
                    ),
                ),
                None => {
                    let location = Location { source_id, span };
                    (
                        WorkerView {
                            q: QueryView {
                                items: self.q.items.push(Item { module, name, location }),
                                names: self.q.names.push(
                                    Name {
                                        module,
                                        name,
                                        binding: Binding::Item(ItemId(self.q.items.len() as usize)),
                                        location,
                                    },
                                ),
                                ..self.q
                            },
                            ..self
                        },
                        None,
                    )
                },
            },
            AstItem::Mod { name, source_id: file, span } => match lookup(self.q.names, module, name) {
                Some(existing) => (
                    self,
                    Some(
                        ErrorView {
                            span,
                            kind: match existing.binding {
                                Binding::Module(_) => ErrorKindView::ModAlreadyLoaded {
                                    name,
                                    existing: existing.location,
                                },
                                Binding::Item(_) => ErrorKindView::ItemConflict {
                                    name,
                                    existing: existing.location,
                                },
                            },
                        },
                    ),
                ),
                None => match find_module(self.q.modules, child_module(module, name)) {
                    Some(i) => (
                        self,
                        Some(
                            ErrorView {
                                span,
                                kind: ErrorKindView::ModAlreadyLoaded {
                                    name,
                                    existing: self.q.modules[i].location,
                                },
                            },
                        ),
                    ),
                    None => {
                        let id = child_module(module, name);
                        let location = Location { source_id, span };
                        (
                            WorkerView {
                                q: QueryView {
                                    modules: self.q.modules.push(
                                        Module {
                                            id,
                                            parent: Some(module),
                                            name,
                                            source_id: file,
                                            location,
                                            root,
                                        },
                                    ),
                                    names: self.q.names.push(
                                        Name { module, name, binding: Binding::Module(id), location },
                                    ),
                                    ..self.q
                                },
                                queue: self.queue.push(
                                    Task::LoadFile {
                                        kind: LoadFileKind::Module { root },
                                        source_id: file,
                                        mod_item: id,
                                    },
                                ),
                                ..self
                            },
                            None,
                        )
                    },
                },
            },
            AstItem::Use(ast) => (
                self.enqueue(
                    Task::ExpandImport(Import { kind: ImportKind::Global, module, source_id, ast }),
                ),
                None,
            ),
            AstItem::Impl(block) => (
                WorkerView {
                    q: QueryView {
                        impl_items: self.q.impl_items.push(
                            ImplItemEntry {
                                module: block.module,
                                name: block.name,
                                generics: crate::ast::first_generic(&block),
                                location: Location { source_id, span: block.span },
                                index,
                                root,
                            },
                        ),
                        ..self.q
                    },
                    ..self
                },
                None,
            ),
        }
    }

    /// Indexes the first `n` items of a file in their order, and stops at
    /// the first that fails.
    pub open spec fn index_items(
        self,
        items: Seq<AstItem>,
        n: int,
        module: ModId,
        source_id: SourceId,
        root: Option<SourceId>,
    ) -> (WorkerView, Option<ErrorView>)
        decreases n,
    {
        if n <= 0 {
            (self, None)
        } else {
            let before = self.index_items(items, n - 1, module, source_id, root);
            if before.1 is Some {
                before
            } else {
                before.0.index_item(&items[n - 1], (n - 1) as usize, module, source_id, root)
            }
        }
    }

    /// Loads a file: indexes the items of a source as the items of a
    /// module.
    ///
    /// A source that is not there, or that was indexed before, is an
    /// inconsistency of the queue and is recorded as such. A source that
    /// could not be parsed is recorded as an error, and so is the first
    /// item that cannot be indexed.
    pub open spec fn load_file(
        self,
        sources: &Sources,
        kind: LoadFileKind,
        source_id: SourceId,
        mod_item: ModId,
    ) -> WorkerView {
        match sources.source(source_id) {
            None => self.internal(source_id, "Missing queued source by id"@),
            Some(source) => if source_id.0 >= self.indexed.len() || self.indexed[source_id.0 as int] {
                self.internal(source_id, "Queued source is already loaded"@)
            } else {
                let marked = WorkerView { indexed: self.indexed.update(source_id.0 as int, true), ..self };
                match source.ast {
                    None => marked.report(
                        source_id,
                        ErrorView { span: Span { start: 0, end: 0 }, kind: ErrorKindView::ParseError },
                    ),
                    Some(items) => {
                        let after = marked.index_items(
                            items@,
                            items@.len() as int,
                            mod_item,
                            source_id,
                            root_of(kind, source_id),
                        );
                        match after.1 {
                            Some(error) => after.0.report(source_id, error),
                            None => after.0,
                        }
                    },
                }
            },
        }
    }

    /// Expands an import against the declarations that are known now.
    ///
    /// A wildcard import becomes a task of its own. An import of a name
    /// binds the name in the importing module to what it stands for in the
    /// module it is imported from. A module or a name that is not known,
    /// and a name that is bound already in the importing module, are
    /// recorded as errors at the import.
    pub open spec fn expand_import(self, import: Import) -> WorkerView {
        let span = import.ast.span;
        match import.ast.target {
            UseTarget::Wildcard => self.enqueue(
                Task::ExpandWildcardImport(
                    WildcardImport {
                        from: import.module,
                        target: import.ast.module,
                        location: Location { source_id: import.source_id, span },
                    },
                ),
            ),
            UseTarget::Name(name) => match find_module(self.q.modules, import.ast.module) {
                None => self.report(
                    import.source_id,
                    ErrorView { span, kind: ErrorKindView::MissingModule { module: import.ast.module.0 } },
                ),
                Some(_) => match lookup(self.q.names, import.ast.module, name) {
                    None => self.report(
                        import.source_id,
                        ErrorView {
                            span,
                            kind: ErrorKindView::MissingItem { module: import.ast.module.0, name },
                        },
                    ),
                    Some(found) => match lookup(self.q.names, import.module, name) {
                        Some(existing) => self.report(
                            import.source_id,
                            ErrorView {
                                span,
                                kind: ErrorKindView::ItemConflict { name, existing: existing.location },
                            },
                        ),
                        None => self.bind(
                            Name {
                                module: import.module,
                                name,
                                binding: found.binding,
                                location: Location { source_id: import.source_id, span },
                            },
                        ),
                    },
                },
            },
        }
    }

    /// Runs one task of the drain phase. A wildcard import is not
    /// expanded: it is put aside.
    pub open spec fn run_task(self, sources: &Sources, wildcards: Seq<WildcardImport>, task: Task) -> (
        WorkerView,
        Seq<WildcardImport>,
    ) {
        match task {
            Task::LoadFile { kind, source_id, mod_item } => (
                self.load_file(sources, kind, source_id, mod_item),
                wildcards,
            ),
            Task::ExpandImport(import) => (self.expand_import(import), wildcards),
            Task::ExpandWildcardImport(wildcard) => (self, wildcards.push(wildcard)),
        }
    }

    /// The drain phase: runs the tasks of the queue, first the one that
    /// has waited longest, until the queue is empty.
    pub open spec fn drained(self, sources: &Sources, wildcards: Seq<WildcardImport>) -> (
        WorkerView,
        Seq<WildcardImport>,
    )
        decreases unindexed(self.indexed), self.q.impl_items.len(), queue_weight(self.queue),
    {
        if self.queue.len() == 0 {
            (self, wildcards)
        } else {
            let next = self.popped().run_task(sources, wildcards, self.queue[0]);
            proof {
                lemma_run_task_decreases(self, sources, wildcards);
            }
            next.0.drained(sources, next.1)
        }
    }

    /// The names after the first `n` names of `names` were offered to the
    /// module `from`: each name of the module `target` that `from` does
    /// not bind yet is bound in `from` to what it stands for in `target`.
    pub open spec fn imported_names(
        names: Seq<Name>,
        n: int,
        from: ModId,
        target: ModId,
        location: Location,
    ) -> Seq<Name>
        decreases n,
    {
        if n <= 0 {
            names
        } else {
            let before = Self::imported_names(names, n - 1, from, target, location);
            let entry = names[n - 1];
            if entry.module == target && lookup(before, from, entry.name) is None {
                before.push(Name { module: from, name: entry.name, binding: entry.binding, location })
            } else {
                before
            }
        }
    }

    /// Expands one wildcard import: every name that the target module
    /// binds now is offered to the importing module. A target that is not
    /// known is recorded as an error at the import.
    pub open spec fn expand_wildcard(self, wildcard: WildcardImport) -> WorkerView {
        match find_module(self.q.modules, wildcard.target) {
            None => self.report(
                wildcard.location.source_id,
                ErrorView {
                    span: wildcard.location.span,
                    kind: ErrorKindView::MissingModule { module: wildcard.target.0 },
                },
            ),
            Some(_) => WorkerView {
                q: QueryView {
                    names: Self::imported_names(
                        self.q.names,
                        self.q.names.len() as int,
                        wildcard.from,
                        wildcard.target,
                        wildcard.location,
                    ),
                    ..self.q
                },
                ..self
            },
        }
    }

    /// The wildcard phase: expands the first `n` wildcard imports that
    /// were put aside, in their order.
    pub open spec fn expand_wildcards(self, wildcards: Seq<WildcardImport>, n: int) -> WorkerView
        decreases n,
    {
        if n <= 0 {
            self
        } else {
            self.expand_wildcards(wildcards, n - 1).expand_wildcard(wildcards[n - 1])
        }
    }

    /// Queues the first `n` imports of a function's body.
    pub open spec fn enqueue_uses(self, uses: Seq<ItemUse>, n: int, module: ModId, source_id: SourceId) -> WorkerView
        decreases n,
    {
        if n <= 0 {
            self
        } else {
            self.enqueue_uses(uses, n - 1, module, source_id).enqueue(
                Task::ExpandImport(
                    Import { kind: ImportKind::Local, module, source_id, ast: uses[n - 1] },
                ),
            )
        }
    }

    /// Attaches one function to a type and queues the imports of its
    /// body. A function of the same name that is attached already is a
    /// conflict.
    pub open spec fn attach_function(self, function: &ItemFn, item: ItemId, module: ModId, source_id: SourceId) -> (
        WorkerView,
        Option<ErrorView>,
    ) {
        match find_associated(self.q.associated, item, function.name) {
            Some(existing) => (
                self,
                Some(
                    ErrorView {
                        span: function.span,
                        kind: ErrorKindView::ItemConflict {
                            name: function.name,
                            existing: existing.location,
                        },
                    },
                ),
            ),
            None => (
                WorkerView {
                    q: QueryView {
                        associated: self.q.associated.push(
                            Associated {
                                item,
                                name: function.name,
                                location: Location { source_id, span: function.span },
                            },
                        ),
                        ..self.q
                    },
                    ..self
                }.enqueue_uses(function.uses@, function.uses@.len() as int, module, source_id),
                None,
            ),
        }
    }

    /// Attaches the first `n` functions of a block in their order, and
    /// stops at the first that fails.
    pub open spec fn attach_functions(
        self,
        functions: Seq<ItemFn>,
        n: int,
        item: ItemId,
        module: ModId,
        source_id: SourceId,
    ) -> (WorkerView, Option<ErrorView>)
        decreases n,
    {
        if n <= 0 {
            (self, None)
        } else {
            let before = self.attach_functions(functions, n - 1, item, module, source_id);
            if before.1 is Some {
                before
            } else {
                before.0.attach_function(&functions[n - 1], item, module, source_id)
            }
        }
    }

    /// Expands one implementation block: finds its type and attaches its
    /// functions.
    ///
    /// A block that the sources do not hold is an inconsistency of the
    /// bookkeeping. A module that is not known, a name that is not that of
    /// a declared item, and the first function that cannot be attached are
    /// recorded as errors at the block; generic parameters on the type are
    /// recorded at the first of them.
    pub open spec fn expand_impl(self, sources: &Sources, entry: ImplItemEntry) -> WorkerView {
        let source_id = entry.location.source_id;
        let span = entry.location.span;
        match sources.impl_at(source_id, entry.index) {
            None => self.internal(source_id, "Missing queued impl item"@),
            Some(block) => match find_module(self.q.modules, entry.module) {
                None => self.report(
                    source_id,
                    ErrorView { span, kind: ErrorKindView::MissingModule { module: entry.module.0 } },
                ),
                Some(_) => if let Some(parameter) = entry.generics {
                    self.report(
                        source_id,
                        ErrorView { span: parameter, kind: ErrorKindView::UnsupportedGenerics },
                    )
                } else {
                    match lookup(self.q.names, entry.module, entry.name) {
                        Some(Name { binding: Binding::Item(item), .. }) => {
                            let after = self.attach_functions(
                                block.functions@,
                                block.functions@.len() as int,
                                item,
                                entry.module,
                                source_id,
                            );
                            match after.1 {
                                Some(error) => after.0.report(source_id, error),
                                None => after.0,
                            }
                        },
                        _ => self.report(
                            source_id,
                            ErrorView {
                                span,
                                kind: ErrorKindView::MissingItem { module: entry.module.0, name: entry.name },
                            },
                        ),
                    }
                },
            },
        }
    }

    /// The worker without the implementation block that has waited
    /// longest.
    pub open spec fn without_first_impl(self) -> WorkerView {
        WorkerView { q: QueryView { impl_items: self.q.impl_items.drop_first(), ..self.q }, ..self }
    }

    /// The impl phase: expands the implementation blocks that wait, first
    /// the one that has waited longest, until none waits.
    pub open spec fn expand_impls(self, sources: &Sources) -> WorkerView
        decreases self.q.impl_items.len(),
    {
        if self.q.impl_items.len() == 0 {
            self
        } else {
            let next = self.without_first_impl().expand_impl(sources, self.q.impl_items[0]);
            proof {
                lemma_expand_impl_keeps(self.without_first_impl(), sources, self.q.impl_items[0]);
            }
            next.expand_impls(sources)
        }
    }

    /// One round: the drain phase, then the wildcard phase, then the impl
    /// phase.
    pub open spec fn round(self, sources: &Sources) -> WorkerView {
        let drained = self.drained(sources, Seq::empty());
        drained.0.expand_wildcards(drained.1, drained.1.len() as int).expand_impls(sources)
    }

    /// Whether there is a task or a waiting implementation block.
    pub open spec fn busy(self) -> bool {
        self.queue.len() > 0 || self.q.impl_items.len() > 0
    }

    /// The worker after indexing: rounds are run while there is a task or
    /// a waiting implementation block.
    pub open spec fn finished(self, sources: &Sources) -> WorkerView
        decreases unindexed(self.indexed), self.q.impl_items.len(), queue_weight(self.queue),
    {
        if !self.busy() {
            self
        } else {
            proof {
                lemma_round_decreases(self, sources);
            }
            self.round(sources).finished(sources)
        }
    }
}

/// Whether the first triple comes before the second, comparing the parts
/// one after the other.
pub open spec fn lex_lt(a: (nat, nat, nat), b: (nat, nat, nat)) -> bool {
    a.0 < b.0 || (a.0 == b.0 && (a.1 < b.1 || (a.1 == b.1 && a.2 < b.2)))
}

/// Whether the first triple comes before the second or is the same.
pub open spec fn lex_le(a: (nat, nat, nat), b: (nat, nat, nat)) -> bool {
    a == b || lex_lt(a, b)
}

/// A task at the end of a queue adds its weight.
pub proof fn lemma_weight_push(queue: Seq<Task>, task: Task)
    ensures
        queue_weight(queue.push(task)) == queue_weight(queue) + task_weight(task),
{
    assert(queue.push(task).drop_last() =~= queue);
}

/// The first task of a queue takes its weight with it.
pub proof fn lemma_weight_pop(queue: Seq<Task>)
    requires
        queue.len() > 0,
    ensures
        queue_weight(queue.drop_first()) + task_weight(queue[0]) == queue_weight(queue),
    decreases queue.len(),
{
    if queue.len() == 1 {
        assert(queue.drop_first() =~= Seq::<Task>::empty());
        assert(queue.drop_last() =~= Seq::<Task>::empty());
    } else {
        lemma_weight_pop(queue.drop_last());
        assert(queue.drop_last().drop_first() =~= queue.drop_first().drop_last());
        assert(queue.drop_last()[0] == queue[0]);
        assert(queue.drop_first().last() == queue.last());
    }
}

/// Marking a source that was not indexed leaves one source less to index.
pub proof fn lemma_unindexed_mark(flags: Seq<bool>, i: int)
    requires
        0 <= i < flags.len(),
        !flags[i],
    ensures
        unindexed(flags.update(i, true)) + 1 == unindexed(flags),
    decreases flags.len(),
{
    if i == flags.len() - 1 {
        assert(flags.update(i, true).drop_last() =~= flags.drop_last());
    } else {
        lemma_unindexed_mark(flags.drop_last(), i);
        assert(flags.update(i, true).drop_last() =~= flags.drop_last().update(i, true));
    }
}

/// Indexing items marks no source.
pub proof fn lemma_index_items_keeps(
    w: WorkerView,
    items: Seq<AstItem>,
    n: int,
    module: ModId,
    source_id: SourceId,
    root: Option<SourceId>,
)
    requires
        n <= items.len(),
    ensures
        w.index_items(items, n, module, source_id, root).0.indexed == w.indexed,
    decreases n,
{
    if n > 0 {
        lemma_index_items_keeps(w, items, n - 1, module, source_id, root);
    }
}

/// Every task of the drain phase leaves less work than there was.
pub proof fn lemma_run_task_decreases(w: WorkerView, sources: &Sources, wildcards: Seq<WildcardImport>)
    requires
        w.queue.len() > 0,
    ensures
        lex_lt(w.popped().run_task(sources, wildcards, w.queue[0]).0.measure(), w.measure()),
{
    lemma_weight_pop(w.queue);
    let p = w.popped();
    match w.queue[0] {
        Task::LoadFile { kind, source_id, mod_item } => {
            match sources.source(source_id) {
                None => {},
                Some(source) => {
                    if source_id.0 >= p.indexed.len() || p.indexed[source_id.0 as int] {
                    } else {
                        lemma_unindexed_mark(p.indexed, source_id.0 as int);
                        let marked = WorkerView {
                            indexed: p.indexed.update(source_id.0 as int, true),
                            ..p
                        };
                        match source.ast {
                            None => {},
                            Some(items) => {
                                lemma_index_items_keeps(
                                    marked,
                                    items@,
                                    items@.len() as int,
                                    mod_item,
                                    source_id,
                                    root_of(kind, source_id),
                                );
                            },
                        }
                    }
                },
            }
        },
        Task::ExpandImport(import) => {
            match import.ast.target {
                UseTarget::Wildcard => {
                    lemma_weight_push(
                        p.queue,
                        Task::ExpandWildcardImport(
                            WildcardImport {
                                from: import.module,
                                target: import.ast.module,
                                location: Location { source_id: import.source_id, span: import.ast.span },
                            },
                        ),
                    );
                },
                UseTarget::Name(name) => {},
            }
        },
        Task::ExpandWildcardImport(wildcard) => {},
    }
}

/// The drain phase leaves no task and no more work than there was.
pub proof fn lemma_drained(w: WorkerView, sources: &Sources, wildcards: Seq<WildcardImport>)
    ensures
        w.drained(sources, wildcards).0.queue.len() == 0,
        lex_le(w.drained(sources, wildcards).0.measure(), w.measure()),
        w.queue.len() > 0 ==> lex_lt(w.drained(sources, wildcards).0.measure(), w.measure()),
    decreases unindexed(w.indexed), w.q.impl_items.len(), queue_weight(w.queue),
{
    if w.queue.len() > 0 {
        lemma_run_task_decreases(w, sources, wildcards);
        let next = w.popped().run_task(sources, wildcards, w.queue[0]);
        lemma_drained(next.0, sources, next.1);
    }
}

/// The wildcard phase changes neither the queue, nor the marks of the
/// sources, nor the implementation blocks that wait.
pub proof fn lemma_expand_wildcards_keeps(w: WorkerView, wildcards: Seq<WildcardImport>, n: int)
    ensures
        w.expand_wildcards(wildcards, n).queue == w.queue,
        w.expand_wildcards(wildcards, n).indexed == w.indexed,
        w.expand_wildcards(wildcards, n).q.impl_items == w.q.impl_items,
    decreases n,
{
    if n > 0 {
        lemma_expand_wildcards_keeps(w, wildcards, n - 1);
    }
}

/// Queueing the imports of a function changes the queue only.
pub proof fn lemma_enqueue_uses_keeps(w: WorkerView, uses: Seq<ItemUse>, n: int, module: ModId, source_id: SourceId)
    ensures
        w.enqueue_uses(uses, n, module, source_id).indexed == w.indexed,
        w.enqueue_uses(uses, n, module, source_id).q == w.q,
    decreases n,
{
    if n > 0 {
        lemma_enqueue_uses_keeps(w, uses, n - 1, module, source_id);
    }
}

/// Attaching functions changes neither the marks of the sources nor the
/// implementation blocks that wait.
pub proof fn lemma_attach_functions_keeps(
    w: WorkerView,
    functions: Seq<ItemFn>,
    n: int,
    item: ItemId,
    module: ModId,
    source_id: SourceId,
)
    requires
        n <= functions.len(),
    ensures
        w.attach_functions(functions, n, item, module, source_id).0.indexed == w.indexed,
        w.attach_functions(functions, n, item, module, source_id).0.q.impl_items == w.q.impl_items,
    decreases n,
{
    if n > 0 {
        lemma_attach_functions_keeps(w, functions, n - 1, item, module, source_id);
        let before = w.attach_functions(functions, n - 1, item, module, source_id);
        if before.1 is None {
            let function = &functions[n - 1];
            if find_associated(before.0.q.associated, item, function.name) is None {
                let attached = WorkerView {
                    q: QueryView {
                        associated: before.0.q.associated.push(
                            Associated {
                                item,
                                name: function.name,
                                location: Location { source_id, span: function.span },
                            },
                        ),
                        ..before.0.q
                    },
                    ..before.0
                };
                lemma_enqueue_uses_keeps(
                    attached,
                    function.uses@,
                    function.uses@.len() as int,
                    module,
                    source_id,
                );
            }
        }
    }
}

/// Expanding an implementation block changes neither the marks of the
/// sources nor the implementation blocks that wait.
pub proof fn lemma_expand_impl_keeps(w: WorkerView, sources: &Sources, entry: ImplItemEntry)
    ensures
        w.expand_impl(sources, entry).indexed == w.indexed,
        w.expand_impl(sources, entry).q.impl_items == w.q.impl_items,
{
    match sources.impl_at(entry.location.source_id, entry.index) {
        None => {},
        Some(block) => {
            match lookup(w.q.names, entry.module, entry.name) {
                Some(Name { binding: Binding::Item(item), .. }) => {
                    lemma_attach_functions_keeps(
                        w,
                        block.functions@,
                        block.functions@.len() as int,
                        item,
                        entry.module,
                        entry.location.source_id,
                    );
                },
                _ => {},
            }
        },
    }
}

/// The impl phase leaves no implementation block waiting and marks no
/// source; where none waits it changes nothing.
pub proof fn lemma_expand_impls(w: WorkerView, sources: &Sources)
    ensures
        w.expand_impls(sources).q.impl_items.len() == 0,
        w.expand_impls(sources).indexed == w.indexed,
        w.q.impl_items.len() == 0 ==> w.expand_impls(sources) == w,
    decreases w.q.impl_items.len(),
{
    if w.q.impl_items.len() > 0 {
        lemma_expand_impl_keeps(w.without_first_impl(), sources, w.q.impl_items[0]);
        lemma_expand_impls(w.without_first_impl().expand_impl(sources, w.q.impl_items[0]), sources);
    }
}

/// A round leaves neither a waiting implementation block nor a wildcard
/// import, and, where there was a task or a waiting block, less work than
/// there was.
pub proof fn lemma_round_decreases(w: WorkerView, sources: &Sources)
    ensures
        w.round(sources).q.impl_items.len() == 0,
        w.busy() ==> lex_lt(w.round(sources).measure(), w.measure()),
{
    let drained = w.drained(sources, Seq::empty());
    lemma_drained(w, sources, Seq::empty());
    lemma_expand_wildcards_keeps(drained.0, drained.1, drained.1.len() as int);
    let expanded = drained.0.expand_wildcards(drained.1, drained.1.len() as int);
    lemma_expand_impls(expanded, sources);
}

impl Worker {
    /// Construct a new worker for the given sources, none of which is
    /// indexed yet.
    pub fn new(q: Query, sources: &Sources) -> (worker: Worker)
        ensures
            worker.q == q,
            worker@.queue.len() == 0,
            worker@.indexed.len() == sources.sources@.len(),
            forall|i: int| 0 <= i < worker@.indexed.len() ==> !worker@.indexed[i],
    {
        let mut indexed: Vec<bool> = Vec::new();
        let mut i: usize = 0;
        while i < sources.len()
            invariant
                i <= sources.sources@.len(),
                indexed@.len() == i,
                forall|j: int| 0 <= j < i ==> !indexed@[j],
            decreases sources.sources@.len() - i,
        {
            indexed.push(false);
            i += 1;
        }
        Worker { q, indexed, queue: VecDeque::new() }
    }

    /// Queues a task.
    pub fn push_task(&mut self, task: Task)
        ensures
            final(self)@ == old(self)@.enqueue(task),
    {
        self.queue.push_back(task);
    }

    /// Records a failed operation.
    fn report(&mut self, source_id: SourceId, error: Error)
        ensures
            final(self)@ == old(self)@.report(source_id, error@),
    {
        self.q.diagnostics.error(source_id, error);
    }

    /// Records an inconsistency of the bookkeeping.
    fn internal(&mut self, source_id: SourceId, message: &'static str)
        ensures
            final(self)@ == old(self)@.internal(source_id, message@),
    {
        self.q.diagnostics.internal(source_id, message);
    }

    /// Indexes one item of a file.
    fn index_item(
        &mut self,
        item: &AstItem,
        index: usize,
        module: ModId,
        source_id: SourceId,
        root: Option<SourceId>,
    ) -> (r: Result<(), Error>)
        ensures
            (final(self)@, reported(r)) == old(self)@.index_item(item, index, module, source_id, root),
    {
        match item {
            AstItem::Decl { name, span } => match self.q.lookup(module, *name) {
                Some(existing) => Err(
                    Error::new(*span, ErrorKind::ItemConflict { name: *name, existing: existing.location }),
                ),
                None => {
                    let location = Location { source_id, span: *span };
                    let id = ItemId(self.q.items.len());
                    self.q.items.push(Item { module, name: *name, location });
                    self.q.names.push(Name { module, name: *name, binding: Binding::Item(id), location });
                    Ok(())
                },
            },
            AstItem::Mod { name, source_id: file, span } => match self.q.lookup(module, *name) {
                Some(existing) => match existing.binding {
                    Binding::Module(_) => Err(
                        Error::new(
                            *span,
                            ErrorKind::ModAlreadyLoaded { name: *name, existing: existing.location },
                        ),
                    ),
                    Binding::Item(_) => Err(
                        Error::new(
                            *span,
                            ErrorKind::ItemConflict { name: *name, existing: existing.location },
                        ),
                    ),
                },
                None => {
                    let id = module.child(*name);
                    match self.q.module(id) {
                        Some(existing) => {
                            proof {
                                crate::query::lemma_position_is_first(
                                    self@.q.modules,
                                    |m: Module| m.id == id,
                                );
                            }
                            Err(
                                Error::new(
                                    *span,
                                    ErrorKind::ModAlreadyLoaded { name: *name, existing: existing.location },
                                ),
                            )
                        },
                        None => {
                            let location = Location { source_id, span: *span };
                            self.q.modules.push(
                                Module {
                                    id,
                                    parent: Some(module),
                                    name: *name,
                                    source_id: *file,
                                    location,
                                    root,
                                },
                            );
                            self.q.names.push(
                                Name { module, name: *name, binding: Binding::Module(id), location },
                            );
                            self.queue.push_back(
                                Task::LoadFile {
                                    kind: LoadFileKind::Module { root },
                                    source_id: *file,
                                    mod_item: id,
                                },
                            );
                            Ok(())
                        },
                    }
                },
            },
            AstItem::Use(ast) => {
                self.queue.push_back(
                    Task::ExpandImport(Import { kind: ImportKind::Global, module, source_id, ast: *ast }),
                );
                Ok(())
            },
            AstItem::Impl(block) => {
                self.q.impl_items.push_back(
                    ImplItemEntry {
                        module: block.module,
                        name: block.name,
                        generics: block.first_generic(),
                        location: Location { source_id, span: block.span },
                        index,
                        root,
                    },
                );
                Ok(())
            },
        }
    }

    /// Loads a file.
    fn load_file(&mut self, sources: &Sources, kind: LoadFileKind, source_id: SourceId, mod_item: ModId)
        ensures
            final(self)@ == old(self)@.load_file(sources, kind, source_id, mod_item),
    {
        let source = match sources.get(source_id) {
            Some(source) => source,
            None => {
                self.internal(source_id, "Missing queued source by id");
                return ;
            },
        };
        if source_id.0 >= self.indexed.len() || self.indexed[source_id.0] {
            self.internal(source_id, "Queued source is already loaded");
            return ;
        }
        self.indexed.set(source_id.0, true);
        let ghost marked = self@;
        let root = match kind {
            LoadFileKind::Root => Some(source_id),
            LoadFileKind::Module { root } => root,
        };
        let items = match &source.ast {
            Some(items) => items,
            None => {
                self.report(source_id, Error::new(Span::empty(), ErrorKind::ParseError));
                return ;
            },
        };
        let mut i: usize = 0;
        while i < items.len()
            invariant
                i <= items.len(),
                marked.index_items(items@, i as int, mod_item, source_id, root) == (self@, None::<ErrorView>),
                marked == (WorkerView {
                    indexed: old(self)@.indexed.update(source_id.0 as int, true),
                    ..old(self)@
                }),
                sources.source(source_id) == Some(source),
                source.ast == Some(*items),
                source_id.0 < old(self)@.indexed.len(),
                !old(self)@.indexed[source_id.0 as int],
                root == root_of(kind, source_id),
            decreases items.len() - i,
        {
            match self.index_item(&items[i], i, mod_item, source_id, root) {
                Ok(()) => {},
                Err(e) => {
                    proof {
                        lemma_index_items_stops(
                            marked,
                            items@,
                            i + 1,
                            items@.len() as int,
                            mod_item,
                            source_id,
                            root,
                        );
                    }
                    self.report(source_id, e);
                    return ;
                },
            }
            i += 1;
        }
    }

    /// Expands an import.
    fn expand_import(&mut self, import: Import)
        ensures
            final(self)@ == old(self)@.expand_import(import),
    {
        let span = import.ast.span;
        match import.ast.target {
            UseTarget::Wildcard => {
                self.queue.push_back(
                    Task::ExpandWildcardImport(
                        WildcardImport {
                            from: import.module,
                            target: import.ast.module,
                            location: Location { source_id: import.source_id, span },
                        },
                    ),
                );
            },
            UseTarget::Name(name) => {
                if self.q.module(import.ast.module).is_none() {
                    self.report(
                        import.source_id,
                        Error::new(span, ErrorKind::MissingModule { module: import.ast.module.0 }),
                    );
                    return ;
                }
                let found = match self.q.lookup(import.ast.module, name) {
                    Some(found) => found,
                    None => {
                        self.report(
                            import.source_id,
                            Error::new(span, ErrorKind::MissingItem { module: import.ast.module.0, name }),
                        );
                        return ;
                    },
                };
                match self.q.lookup(import.module, name) {
                    Some(existing) => {
                        self.report(
                            import.source_id,
                            Error::new(span, ErrorKind::ItemConflict { name, existing: existing.location }),
                        );
                    },
                    None => {
                        self.q.names.push(
                            Name {
                                module: import.module,
                                name,
                                binding: found.binding,
                                location: Location { source_id: import.source_id, span },
                            },
                        );
                    },
                }
            },
        }
    }

    /// Runs one task of the drain phase.
    fn run_task(&mut self, sources: &Sources, wildcard_imports: &mut Vec<WildcardImport>, task: Task)
        ensures
            (final(self)@, final(wildcard_imports)@) == old(self)@.run_task(
                sources,
                old(wildcard_imports)@,
                task,
            ),
    {
        match task {
            Task::LoadFile { kind, source_id, mod_item } => {
                self.load_file(sources, kind, source_id, mod_item);
            },
            Task::ExpandImport(import) => {
                self.expand_import(import);
            },
            Task::ExpandWildcardImport(wildcard) => {
                wildcard_imports.push(wildcard);
            },
        }
    }

    /// The drain phase: runs the tasks of the queue in the order they
    /// were queued until the queue is empty. Wildcard imports are put to
    /// `wildcard_imports`, and no name is bound through them.
    pub fn drain(&mut self, sources: &Sources, wildcard_imports: &mut Vec<WildcardImport>)
        ensures
            (final(self)@, final(wildcard_imports)@) == old(self)@.drained(sources, old(wildcard_imports)@),
            final(self)@.queue.len() == 0,
    {
        while self.queue.len() > 0
            invariant
                self@.drained(sources, wildcard_imports@) == old(self)@.drained(
                    sources,
                    old(wildcard_imports)@,
                ),
            decreases unindexed(self@.indexed), self@.q.impl_items.len(), queue_weight(self@.queue),
        {
            let ghost before = self@;
            let ghost aside = wildcard_imports@;
            proof {
                lemma_run_task_decreases(before, sources, aside);
            }
            let task = match self.queue.pop_front() {
                Some(task) => task,
                None => {
                    return ;
                },
            };
            assert(self@ == before.popped());
            self.run_task(sources, wildcard_imports, task);
        }
    }

    /// Expands one wildcard import.
    fn expand_wildcard(&mut self, wildcard: WildcardImport)
        ensures
            final(self)@ == old(self)@.expand_wildcard(wildcard),
    {
        if self.q.module(wildcard.target).is_none() {
            self.report(
                wildcard.location.source_id,
                Error::new(wildcard.location.span, ErrorKind::MissingModule { module: wildcard.target.0 }),
            );
            return ;
        }
        let n = self.q.names.len();
        let ghost names = self@.q.names;
        let mut i: usize = 0;
        while i < n
            invariant
                i <= n,
                n == names.len(),
                names == old(self)@.q.names,
                find_module(old(self)@.q.modules, wildcard.target) is Some,
                self@ == (WorkerView {
                    q: QueryView {
                        names: WorkerView::imported_names(
                            names,
                            i as int,
                            wildcard.from,
                            wildcard.target,
                            wildcard.location,
                        ),
                        ..old(self)@.q
                    },
                    ..old(self)@
                }),
            decreases n - i,
        {
            proof {
                lemma_imported_names_extend(names, i as int, wildcard.from, wildcard.target, wildcard.location);
            }
            let entry = self.q.names[i];
            if entry.module == wildcard.target && self.q.lookup(wildcard.from, entry.name).is_none() {
                self.q.names.push(
                    Name {
                        module: wildcard.from,
                        name: entry.name,
                        binding: entry.binding,
                        location: wildcard.location,
                    },
                );
            }
            i += 1;
        }
    }

    /// The wildcard phase: expands every wildcard import that was put
    /// aside, in the order they were met, and empties the buffer.
    pub fn expand_wildcards(&mut self, wildcard_imports: &mut Vec<WildcardImport>)
        ensures
            final(self)@ == old(self)@.expand_wildcards(
                old(wildcard_imports)@,
                old(wildcard_imports)@.len() as int,
            ),
            final(wildcard_imports)@.len() == 0,
    {
        let mut i: usize = 0;
        while i < wildcard_imports.len()
            invariant
                i <= wildcard_imports.len(),
                *wildcard_imports == *old(wildcard_imports),
                self@ == old(self)@.expand_wildcards(wildcard_imports@, i as int),
            decreases wildcard_imports.len() - i,
        {
            let wildcard = wildcard_imports[i];
            self.expand_wildcard(wildcard);
            i += 1;
        }
        wildcard_imports.clear();
    }

    /// Attaches one function to a type.
    fn attach_function(&mut self, function: &ItemFn, item: ItemId, module: ModId, source_id: SourceId) -> (r: Result<
        (),
        Error,
    >)
        ensures
            (final(self)@, reported(r)) == old(self)@.attach_function(function, item, module, source_id),
    {
        match self.q.find_associated(item, function.name) {
            Some(existing) => Err(
                Error::new(
                    function.span,
                    ErrorKind::ItemConflict { name: function.name, existing: existing.location },
                ),
            ),
            None => {
                self.q.associated.push(
                    Associated {
                        item,
                        name: function.name,
                        location: Location { source_id, span: function.span },
                    },
                );
                let ghost attached = self@;
                let mut i: usize = 0;
                while i < function.uses.len()
                    invariant
                        i <= function.uses.len(),
                        self@ == attached.enqueue_uses(function.uses@, i as int, module, source_id),
                    decreases function.uses.len() - i,
                {
                    self.queue.push_back(
                        Task::ExpandImport(
                            Import { kind: ImportKind::Local, module, source_id, ast: function.uses[i] },
                        ),
                    );
                    i += 1;
                }
                Ok(())
            },
        }
    }

    /// Expands one implementation block.
    fn expand_impl(&mut self, sources: &Sources, entry: ImplItemEntry)
        ensures
            final(self)@ == old(self)@.expand_impl(sources, entry),
    {
        let source_id = entry.location.source_id;
        let span = entry.location.span;
        let block = match find_impl(sources, source_id, entry.index) {
            Some(block) => block,
            None => {
                self.internal(source_id, "Missing queued impl item");
                return ;
            },
        };
        if self.q.module(entry.module).is_none() {
            self.report(source_id, Error::new(span, ErrorKind::MissingModule { module: entry.module.0 }));
            return ;
        }
        if let Some(parameter) = entry.generics {
            self.report(source_id, Error::new(parameter, ErrorKind::UnsupportedGenerics));
            return ;
        }
        let item = match self.q.lookup(entry.module, entry.name) {
            Some(Name { binding: Binding::Item(item), .. }) => item,
            _ => {
                self.report(
                    source_id,
                    Error::new(span, ErrorKind::MissingItem { module: entry.module.0, name: entry.name }),
                );
                return ;
            },
        };
        let ghost start = self@;
        let mut i: usize = 0;
        while i < block.functions.len()
            invariant
                i <= block.functions.len(),
                start == old(self)@,
                sources.impl_at(source_id, entry.index) == Some(*block),
                source_id == entry.location.source_id,
                span == entry.location.span,
                find_module(start.q.modules, entry.module) is Some,
                entry.generics is None,
                lookup(start.q.names, entry.module, entry.name) matches Some(found) && found.binding
                    == Binding::Item(item),
                start.attach_functions(block.functions@, i as int, item, entry.module, source_id) == (
                    self@,
                    None::<ErrorView>,
                ),
            decreases block.functions.len() - i,
        {
            match self.attach_function(&block.functions[i], item, entry.module, source_id) {
                Ok(()) => {},
                Err(e) => {
                    proof {
                        lemma_attach_functions_stops(
                            start,
                            block.functions@,
                            i + 1,
                            block.functions@.len() as int,
                            item,
                            entry.module,
                            source_id,
                        );
                    }
                    self.report(source_id, e);
                    return ;
                },
            }
            i += 1;
        }
    }

    /// The impl phase: expands the implementation blocks that wait, first
    /// the one that has waited longest, until none waits.
    pub fn expand_impls(&mut self, sources: &Sources)
        ensures
            final(self)@ == old(self)@.expand_impls(sources),
            final(self)@.q.impl_items.len() == 0,
    {
        while self.q.impl_items.len() > 0
            invariant
                self@.expand_impls(sources) == old(self)@.expand_impls(sources),
            decreases self@.q.impl_items.len(),
        {
            let ghost before = self@;
            let entry = match self.q.next_impl_item_entry() {
                Some(entry) => entry,
                None => {
                    return ;
                },
            };
            assert(self@ == before.without_first_impl());
            proof {
                lemma_expand_impl_keeps(before.without_first_impl(), sources, entry);
            }
            self.expand_impl(sources, entry);
        }
    }

    /// Perform indexing in the worker.
    ///
    /// Rounds of the three phases are run while there is a task or a
    /// waiting implementation block; at the end the queue is empty, no
    /// wildcard import is put aside and no implementation block waits.
    /// Nothing that goes wrong stops the work: it is recorded in the
    /// diagnostics.
    pub fn index(&mut self, sources: &Sources)
        ensures
            final(self)@ == old(self)@.finished(sources),
            final(self)@.queue.len() == 0,
            final(self)@.q.impl_items.len() == 0,
    {
        let mut wildcard_imports: Vec<WildcardImport> = Vec::new();
        while self.queue.len() > 0 || self.q.impl_items.len() > 0
            invariant
                wildcard_imports@.len() == 0,
                self@.finished(sources) == old(self)@.finished(sources),
            decreases unindexed(self@.indexed), self@.q.impl_items.len(), queue_weight(self@.queue),
        {
            let ghost before = self@;
            proof {
                lemma_round_decreases(before, sources);
                assert(wildcard_imports@ =~= Seq::<WildcardImport>::empty());
            }
            self.drain(sources, &mut wildcard_imports);
            self.expand_wildcards(&mut wildcard_imports);
            self.expand_impls(sources);
            assert(self@ == before.round(sources));
        }
    }
}

/// The implementation block at a place of a source.
pub fn find_impl(sources: &Sources, source_id: SourceId, index: usize) -> (r: Option<&ItemImpl>)
    ensures
        match sources.impl_at(source_id, index) {
            Some(block) => r == Some(&block),
            None => r is None,
        },
{
    match sources.get(source_id) {
        Some(source) => match &source.ast {
            Some(items) => if index < items.len() {
                match &items[index] {
                    AstItem::Impl(block) => Some(block),
                    _ => None,
                }
            } else {
                None
            },
            None => None,
        },
        None => None,
    }
}

/// Once an item has failed, indexing more items changes nothing.
pub proof fn lemma_index_items_stops(
    w: WorkerView,
    items: Seq<AstItem>,
    n: int,
    m: int,
    module: ModId,
    source_id: SourceId,
    root: Option<SourceId>,
)
    requires
        0 <= n <= m,
        w.index_items(items, n, module, source_id, root).1 is Some,
    ensures
        w.index_items(items, m, module, source_id, root) == w.index_items(items, n, module, source_id, root),
    decreases m - n,
{
    if n < m {
        lemma_index_items_stops(w, items, n, m - 1, module, source_id, root);
    }
}

/// Once a function has failed, attaching more functions changes nothing.
pub proof fn lemma_attach_functions_stops(
    w: WorkerView,
    functions: Seq<ItemFn>,
    n: int,
    m: int,
    item: ItemId,
    module: ModId,
    source_id: SourceId,
)
    requires
        0 <= n <= m,
        w.attach_functions(functions, n, item, module, source_id).1 is Some,
    ensures
        w.attach_functions(functions, m, item, module, source_id) == w.attach_functions(
            functions,
            n,
            item,
            module,
            source_id,
        ),
    decreases m - n,
{
    if n < m {
        lemma_attach_functions_stops(w, functions, n, m - 1, item, module, source_id);
    }
}

/// Offering names only adds names behind those that were there.
pub proof fn lemma_imported_names_extend(names: Seq<Name>, n: int, from: ModId, target: ModId, location: Location)
    requires
        0 <= n <= names.len(),
    ensures
        WorkerView::imported_names(names, n, from, target, location).len() >= names.len(),
        forall|i: int|
            0 <= i < names.len() ==> WorkerView::imported_names(names, n, from, target, location)[i]
                == names[i],
    decreases n,
{
    if n > 0 {
        lemma_imported_names_extend(names, n - 1, from, target, location);
    }
}

/// A wildcard import that the drain phase meets is put aside: the worker
/// is left as it was, so nothing can be resolved through the import
/// before the wildcard phase.
pub proof fn lemma_wildcard_is_deferred(
    w: WorkerView,
    sources: &Sources,
    wildcards: Seq<WildcardImport>,
    wildcard: WildcardImport,
)
    ensures
        w.run_task(sources, wildcards, Task::ExpandWildcardImport(wildcard)) == (w, wildcards.push(wildcard)),
{
}

/// Where the importing module does not bind a name and the target module
/// binds it, the names that were offered up to `n` bind the name in the
/// importing module exactly if the target's entry for it was among them,
/// and then to what it stands for in the target module.
pub proof fn lemma_imported_names_bind(
    names: Seq<Name>,
    n: int,
    from: ModId,
    target: ModId,
    location: Location,
    name: crate::hash::Hash,
)
    requires
        0 <= n <= names.len(),
        lookup(names, from, name) is None,
        lookup(names, target, name) is Some,
    ensures
        ({
            let first = crate::query::position(names, |e: Name| e.module == target && e.name == name)->0;
            let bound = lookup(WorkerView::imported_names(names, n, from, target, location), from, name);
            if n <= first {
                bound is None
            } else {
                bound matches Some(entry) && entry.binding == names[first].binding && entry.module == from
                    && entry.name == name
            }
        }),
    decreases n,
{
    let in_target = |e: Name| e.module == target && e.name == name;
    let in_from = |e: Name| e.module == from && e.name == name;
    crate::query::lemma_position_is_first(names, in_target);
    let first = crate::query::position(names, in_target)->0;
    if n > 0 {
        lemma_imported_names_bind(names, n - 1, from, target, location, name);
        let before = WorkerView::imported_names(names, n - 1, from, target, location);
        let entry = names[n - 1];
        if entry.module == target && lookup(before, from, entry.name) is None {
            let added = Name { module: from, name: entry.name, binding: entry.binding, location };
            crate::query::lemma_position_push(before, in_from, added);
            crate::query::lemma_position_is_first(before.push(added), in_from);
            if n - 1 < first {
                assert(!in_target(names[n - 1]));
            }
        } else {
            if n - 1 == first {
                assert(in_target(names[first]));
            }
        }
    }
}

/// A name that the target of a wildcard import binds, and the importing
/// module does not, is bound in the importing module once the import is
/// expanded, and stands for what it stands for in the target. Before that,
/// while the import is put aside, it is not bound there.
pub proof fn lemma_wildcard_binds(w: WorkerView, wildcard: WildcardImport, name: crate::hash::Hash)
    requires
        find_module(w.q.modules, wildcard.target) is Some,
        lookup(w.q.names, wildcard.from, name) is None,
        lookup(w.q.names, wildcard.target, name) is Some,
    ensures
        lookup(w.expand_wildcard(wildcard).q.names, wildcard.from, name) matches Some(entry)
            && entry.binding == lookup(w.q.names, wildcard.target, name)->0.binding,
{
    crate::query::lemma_position_is_first(
        w.q.names,
        |e: Name| e.module == wildcard.target && e.name == name,
    );
    lemma_imported_names_bind(
        w.q.names,
        w.q.names.len() as int,
        wildcard.from,
        wildcard.target,
        wildcard.location,
        name,
    );
}

} // verus!
