//! What the resolver knows: evaluated constants and the scopes of names.

use vstd::prelude::*;
use std::collections::HashMap;
use std::collections::VecDeque;
use crate::const_value::{ConstValue, ConstView};
use crate::diagnostics::{DiagnosticView, Diagnostics};
use crate::hash::associated_function_hash;
use crate::span::{Location, SourceId, Span};

verus! {

/// The values of the constants that were evaluated, by fingerprint.
pub struct QueryInner {
    /// The evaluated constants.
    pub constants: HashMap<u64, ConstValue>,
}

impl View for QueryInner {
    type V = Map<u64, ConstView>;

    open spec fn view(&self) -> Map<u64, ConstView> {
        self.constants@.map_values(|c: ConstValue| c@)
    }
}

impl QueryInner {
    /// A store without constants.
    pub fn new() -> (inner: QueryInner)
        ensures
            inner@ == Map::<u64, ConstView>::empty(),
    {
        let inner = QueryInner { constants: HashMap::new() };
        assert(inner@ =~= Map::<u64, ConstView>::empty());
        inner
    }

    /// Keeps the value of an evaluated constant. A value that was kept
    /// under the fingerprint before is replaced.
    pub fn insert_const_value(&mut self, hash: crate::hash::Hash, value: ConstValue)
        ensures
            final(self)@ == old(self)@.insert(hash.0, value@),
    {
        self.constants.insert(hash.0, value);
        assert(self@ =~= old(self)@.insert(hash.0, value@));
    }

    /// The value of an evaluated constant.
    pub fn get_const_value(&self, hash: crate::hash::Hash) -> (r: Option<&ConstValue>)
        ensures
            self@.contains_key(hash.0) <==> r is Some,
            r matches Some(c) ==> c@ == self@[hash.0],
    {
        self.constants.get(&hash.0)
    }
}

/// The value of a constant in a store, if it has one.
pub open spec fn const_value_of(constants: Map<u64, ConstView>, hash: u64) -> Option<ConstView> {
    if constants.contains_key(hash) {
        Some(constants[hash])
    } else {
        None
    }
}

/// The index of the first element of a sequence that a predicate holds
/// of.
pub open spec fn position<T>(s: Seq<T>, p: spec_fn(T) -> bool) -> Option<int>
    decreases s.len(),
{
    if s.len() == 0 {
        None
    } else if p(s[0]) {
        Some(0)
    } else {
        match position(s.drop_first(), p) {
            Some(i) => Some(i + 1),
            None => None,
        }
    }
}

/// Where the predicate holds of none of the first `i` elements, the
/// position is `i` if it holds there, and there is none if `i` is the
/// length.
pub proof fn lemma_position<T>(s: Seq<T>, p: spec_fn(T) -> bool, i: int)
    requires
        0 <= i <= s.len(),
        forall|j: int| 0 <= j < i ==> !p(#[trigger] s[j]),
    ensures
        i < s.len() && p(s[i]) ==> position(s, p) == Some(i),
        i == s.len() ==> position(s, p) is None,
    decreases s.len(),
{
    if s.len() > 0 && i > 0 {
        assert(!p(s[0]));
        assert forall|j: int| 0 <= j < i - 1 implies !p(#[trigger] s.drop_first()[j]) by {
            assert(s.drop_first()[j] == s[j + 1]);
        }
        lemma_position(s.drop_first(), p, i - 1);
        if i < s.len() {
            assert(s.drop_first()[i - 1] == s[i]);
        }
    }
}

/// A position is in range, the predicate holds there and nowhere before.
pub proof fn lemma_position_is_first<T>(s: Seq<T>, p: spec_fn(T) -> bool)
    ensures
        position(s, p) matches Some(i) ==> 0 <= i < s.len() && p(s[i]) && forall|j: int|
            0 <= j < i ==> !p(#[trigger] s[j]),
        position(s, p) is None ==> forall|j: int| 0 <= j < s.len() ==> !p(#[trigger] s[j]),
    decreases s.len(),
{
    if s.len() > 0 {
        lemma_position_is_first(s.drop_first(), p);
        if !p(s[0]) {
            match position(s.drop_first(), p) {
                Some(i) => {
                    assert(s.drop_first()[i] == s[i + 1]);
                    assert forall|j: int| 0 <= j < i + 1 implies !p(#[trigger] s[j]) by {
                        if j > 0 {
                            assert(s.drop_first()[j - 1] == s[j]);
                        }
                    }
                },
                None => {
                    assert forall|j: int| 0 <= j < s.len() implies !p(#[trigger] s[j]) by {
                        if j > 0 {
                            assert(s.drop_first()[j - 1] == s[j]);
                        }
                    }
                },
            }
        }
    }
}

/// An element at the end of a sequence changes the position only where
/// there was none: then the position is that of the new element, if the
/// predicate holds of it.
pub proof fn lemma_position_push<T>(s: Seq<T>, p: spec_fn(T) -> bool, e: T)
    ensures
        position(s.push(e), p) == if position(s, p) is Some {
            position(s, p)
        } else if p(e) {
            Some(s.len() as int)
        } else {
            None
        },
{
    lemma_position_is_first(s, p);
    match position(s, p) {
        Some(i) => {
            assert forall|j: int| 0 <= j < i implies !p(#[trigger] s.push(e)[j]) by {
                assert(s.push(e)[j] == s[j]);
            }
            assert(s.push(e)[i] == s[i]);
            lemma_position(s.push(e), p, i);
        },
        None => {
            assert forall|j: int| 0 <= j < s.len() implies !p(#[trigger] s.push(e)[j]) by {
                assert(s.push(e)[j] == s[j]);
            }
            if p(e) {
                lemma_position(s.push(e), p, s.len() as int);
            } else {
                assert forall|j: int| 0 <= j < s.push(e).len() implies !p(#[trigger] s.push(e)[j]) by {
                    if j < s.len() {
                        assert(s.push(e)[j] == s[j]);
                    }
                }
                lemma_position(s.push(e), p, s.push(e).len() as int);
            }
        },
    }
}

/// A module, named by the fingerprint of its path.
#[derive(Clone, Copy, Debug, PartialEq, Eq, Structural)]
pub struct ModId(pub crate::hash::Hash);

/// The number of a declared item.
#[derive(Clone, Copy, Debug, PartialEq, Eq, Structural)]
pub struct ItemId(pub usize);

/// The module `name` inside the module `parent`.
pub open spec fn child_module(parent: ModId, name: crate::hash::Hash) -> ModId {
    ModId(crate::hash::Hash(associated_function_hash(parent.0.0, name.0)))
}

impl ModId {
    /// The root module.
    pub fn root() -> (id: ModId)
        ensures
            id == ModId(crate::hash::Hash(0)),
    {
        ModId(crate::hash::Hash(0))
    }

    /// The module `name` inside this one.
    pub fn child(self, name: crate::hash::Hash) -> (id: ModId)
        ensures
            id == child_module(self, name),
    {
        ModId(crate::hash::Hash::associated_function(self.0, name))
    }
}

/// A registered module.
#[derive(Clone, Copy, Debug, PartialEq, Eq, Structural)]
pub struct Module {
    /// The module.
    pub id: ModId,
    /// The module that it was declared in; the root has none.
    pub parent: Option<ModId>,
    /// Its name.
    pub name: crate::hash::Hash,
    /// The source that holds its items.
    pub source_id: SourceId,
    /// Where it was declared.
    pub location: Location,
    /// The root source that it was reached from.
    pub root: Option<SourceId>,
}

/// What a name stands for.
#[derive(Clone, Copy, Debug, PartialEq, Eq, Structural)]
pub enum Binding {
    /// A declared item.
    Item(ItemId),
    /// A module.
    Module(ModId),
}

/// A name of a module's scope.
#[derive(Clone, Copy, Debug, PartialEq, Eq, Structural)]
pub struct Name {
    /// The module whose scope holds the name.
    pub module: ModId,
    /// The name.
    pub name: crate::hash::Hash,
    /// What it stands for.
    pub binding: Binding,
    /// Where it was declared or imported.
    pub location: Location,
}

/// A declared item.
#[derive(Clone, Copy, Debug, PartialEq, Eq, Structural)]
pub struct Item {
    /// The module that declares it.
    pub module: ModId,
    /// Its name.
    pub name: crate::hash::Hash,
    /// Where it was declared.
    pub location: Location,
}

/// A function attached to a type by an implementation block.
#[derive(Clone, Copy, Debug, PartialEq, Eq, Structural)]
pub struct Associated {
    /// The type.
    pub item: ItemId,
    /// The name of the function.
    pub name: crate::hash::Hash,
    /// Where the function is.
    pub location: Location,
}

/// An implementation block that waits for its type.
#[derive(Clone, Copy, Debug, PartialEq, Eq, Structural)]
pub struct ImplItemEntry {
    /// The module of the type.
    pub module: ModId,
    /// The name of the type.
    pub name: crate::hash::Hash,
    /// The span of the first generic parameter that the block gives the
    /// type, if it gives one.
    pub generics: Option<Span>,
    /// Where the block is.
    pub location: Location,
    /// The place of the block among the items of its source.
    pub index: usize,
    /// The root source that the block was reached from.
    pub root: Option<SourceId>,
}

/// What the resolver knows, as a mathematical value.
pub struct QueryView {
    /// The registered modules.
    pub modules: Seq<Module>,
    /// The names of all scopes, in the order they were registered.
    pub names: Seq<Name>,
    /// The declared items.
    pub items: Seq<Item>,
    /// The functions attached to types.
    pub associated: Seq<Associated>,
    /// The implementation blocks that wait for their type.
    pub impl_items: Seq<ImplItemEntry>,
    /// The diagnostics.
    pub diagnostics: Seq<DiagnosticView>,
}

/// What the resolver knows.
pub struct Query {
    /// The registered modules.
    pub modules: Vec<Module>,
    /// The names of all scopes, in the order they were registered.
    pub names: Vec<Name>,
    /// The declared items.
    pub items: Vec<Item>,
    /// The functions attached to types.
    pub associated: Vec<Associated>,
    /// The implementation blocks that wait for their type.
    pub impl_items: VecDeque<ImplItemEntry>,
    /// The diagnostics.
    pub diagnostics: Diagnostics,
}

impl View for Query {
    type V = QueryView;

    open spec fn view(&self) -> QueryView {
        QueryView {
            modules: self.modules@,
            names: self.names@,
            items: self.items@,
            associated: self.associated@,
            impl_items: self.impl_items@,
            diagnostics: self.diagnostics@,
        }
    }
}

/// The entry of the root module.
pub open spec fn root_module() -> Module {
    Module {
        id: ModId(crate::hash::Hash(0)),
        parent: None,
        name: crate::hash::Hash(0),
        source_id: SourceId(usize::MAX),
        location: Location { source_id: SourceId(usize::MAX), span: Span { start: 0, end: 0 } },
        root: None,
    }
}

/// The index of the module `id` among the registered modules.
pub open spec fn find_module(modules: Seq<Module>, id: ModId) -> Option<int> {
    position(modules, |m: Module| m.id == id)
}

/// The first entry for `name` in the scope of `module`.
pub open spec fn lookup(names: Seq<Name>, module: ModId, name: crate::hash::Hash) -> Option<Name> {
    match position(names, |n: Name| n.module == module && n.name == name) {
        Some(i) => Some(names[i]),
        None => None,
    }
}

/// The first function `name` attached to the type `item`.
pub open spec fn find_associated(associated: Seq<Associated>, item: ItemId, name: crate::hash::Hash) -> Option<
    Associated,
> {
    match position(associated, |a: Associated| a.item == item && a.name == name) {
        Some(i) => Some(associated[i]),
        None => None,
    }
}

impl Query {
    /// A resolver that knows the root module and nothing else.
    pub fn new() -> (q: Query)
        ensures
            q@ == (QueryView {
                modules: seq![root_module()],
                names: Seq::empty(),
                items: Seq::empty(),
                associated: Seq::empty(),
                impl_items: Seq::empty(),
                diagnostics: Seq::empty(),
            }),
    {
        let mut modules: Vec<Module> = Vec::new();
        modules.push(
            Module {
                id: ModId::root(),
                parent: None,
                name: crate::hash::Hash(0),
                source_id: SourceId::empty(),
                location: Location { source_id: SourceId::empty(), span: Span::empty() },
                root: None,
            },
        );
        assert(modules@ =~= seq![root_module()]);
        Query {
            modules,
            names: Vec::new(),
            items: Vec::new(),
            associated: Vec::new(),
            impl_items: VecDeque::new(),
            diagnostics: Diagnostics::new(),
        }
    }

    /// The entry of a module.
    pub fn module(&self, id: ModId) -> (r: Option<Module>)
        ensures
            r == match find_module(self@.modules, id) {
                Some(i) => Some(self@.modules[i]),
                None => None,
            },
    {
        let mut i: usize = 0;
        while i < self.modules.len()
            invariant
                i <= self.modules.len(),
                forall|j: int| 0 <= j < i ==> self.modules@[j].id != id,
            decreases self.modules.len() - i,
        {
            if self.modules[i].id == id {
                proof {
                    lemma_position(self.modules@, |m: Module| m.id == id, i as int);
                }
                return Some(self.modules[i]);
            }
            i += 1;
        }
        proof {
            lemma_position(self.modules@, |m: Module| m.id == id, i as int);
        }
        None
    }

    /// The first entry for a name in the scope of a module.
    pub fn lookup(&self, module: ModId, name: crate::hash::Hash) -> (r: Option<Name>)
        ensures
            r == lookup(self@.names, module, name),
    {
        let mut i: usize = 0;
        while i < self.names.len()
            invariant
                i <= self.names.len(),
                forall|j: int|
                    0 <= j < i ==> !(self.names@[j].module == module && self.names@[j].name == name),
            decreases self.names.len() - i,
        {
            if self.names[i].module == module && self.names[i].name == name {
                proof {
                    lemma_position(self.names@, |n: Name| n.module == module && n.name == name, i as int);
                }
                return Some(self.names[i]);
            }
            i += 1;
        }
        proof {
            lemma_position(self.names@, |n: Name| n.module == module && n.name == name, i as int);
        }
        None
    }

    /// What a name stands for in the scope of a module, as far as the
    /// resolver knows now.
    pub fn resolve(&self, module: ModId, name: crate::hash::Hash) -> (r: Option<Binding>)
        ensures
            r == match lookup(self@.names, module, name) {
                Some(entry) => Some(entry.binding),
                None => None,
            },
    {
        match self.lookup(module, name) {
            Some(entry) => Some(entry.binding),
            None => None,
        }
    }

    /// The first function of a name that is attached to a type.
    pub fn find_associated(&self, item: ItemId, name: crate::hash::Hash) -> (r: Option<Associated>)
        ensures
            r == find_associated(self@.associated, item, name),
    {
        let mut i: usize = 0;
        while i < self.associated.len()
            invariant
                i <= self.associated.len(),
                forall|j: int|
                    0 <= j < i ==> !(self.associated@[j].item == item && self.associated@[j].name == name),
            decreases self.associated.len() - i,
        {
            if self.associated[i].item == item && self.associated[i].name == name {
                proof {
                    lemma_position(
                        self.associated@,
                        |a: Associated| a.item == item && a.name == name,
                        i as int,
                    );
                }
                return Some(self.associated[i]);
            }
            i += 1;
        }
        proof {
            lemma_position(self.associated@, |a: Associated| a.item == item && a.name == name, i as int);
        }
        None
    }

    /// Takes the implementation block that has waited longest.
    pub fn next_impl_item_entry(&mut self) -> (r: Option<ImplItemEntry>)
        ensures
            match r {
                Some(entry) => ({
                    &&& old(self)@.impl_items.len() > 0
                    &&& entry == old(self)@.impl_items[0]
                    &&& final(self)@ == (QueryView {
                        impl_items: old(self)@.impl_items.drop_first(),
                        ..old(self)@
                    })
                }),
                None => old(self)@.impl_items.len() == 0 && final(self)@ == old(self)@,
            },
    {
        self.impl_items.pop_front()
    }
}

} // verus!
