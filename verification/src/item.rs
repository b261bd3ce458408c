//! Item paths and their components.

use vstd::prelude::*;
use vstd::string::StringSliceAdditionalSpecFns;
use vstd::utf8::encode_utf8;
use crate::hash::{fold, fold_bytes, mix, step, OFFSET_BASIS, TYPE_SEED};
use crate::memory::Error;
use crate::text::{decimal, push_decimal, push_text};
use crate::try_clone::TryClone;

verus! {

/// What a component holds.
pub enum ComponentView {
    /// The name of a crate.
    Crate(Seq<char>),
    /// A name.
    Str(Seq<char>),
    /// The number of an anonymous part among its siblings.
    Id(usize),
}

/// One component of an item path.
///
/// All numbers refer to siblings: two anonymous siblings could have the
/// numbers `1` and `2`.
#[derive(Debug, Clone, PartialEq, Eq, PartialOrd, Ord, Hash)]
#[non_exhaustive]
pub enum Component {
    /// A crate component.
    Crate(String),
    /// A regular string component.
    Str(String),
    /// A nested anonymous part with an identifier.
    Id(usize),
}

/// A borrowed component of an item path.
#[derive(Debug, Clone, Copy, PartialEq, Eq, PartialOrd, Ord, Hash)]
pub enum ComponentRef<'a> {
    /// A crate component.
    Crate(&'a str),
    /// A regular string component.
    Str(&'a str),
    /// A nested anonymous part with an identifier.
    Id(usize),
}

impl View for Component {
    type V = ComponentView;

    open spec fn view(&self) -> ComponentView {
        match self {
            Component::Crate(s) => ComponentView::Crate(s@),
            Component::Str(s) => ComponentView::Str(s@),
            Component::Id(n) => ComponentView::Id(*n),
        }
    }
}

impl DeepView for Component {
    type V = ComponentView;

    open spec fn deep_view(&self) -> ComponentView {
        self@
    }
}

impl<'a> View for ComponentRef<'a> {
    type V = ComponentView;

    open spec fn view(&self) -> ComponentView {
        match self {
            ComponentRef::Crate(s) => ComponentView::Crate(s@),
            ComponentRef::Str(s) => ComponentView::Str(s@),
            ComponentRef::Id(n) => ComponentView::Id(*n),
        }
    }
}

/// The text of a component: a crate is written with `::` before its name,
/// a name as it is, and an anonymous part as `$` and its number.
pub open spec fn component_text(c: ComponentView) -> Seq<char> {
    match c {
        ComponentView::Crate(s) => seq![':', ':'] + s,
        ComponentView::Str(s) => s,
        ComponentView::Id(n) => seq!['$'] + decimal(n as nat),
    }
}

/// The fold of one component into a fingerprint state: a tag for the kind,
/// then the name's UTF-8 encoding or the number.
pub open spec fn component_fold(state: u64, c: ComponentView) -> u64 {
    match c {
        ComponentView::Crate(s) => fold_bytes(mix(state, 1), encode_utf8(s)),
        ComponentView::Str(s) => fold_bytes(mix(state, 2), encode_utf8(s)),
        ComponentView::Id(n) => mix(mix(state, 3), n as u64),
    }
}

impl Component {
    /// Get the identifier of the component.
    pub fn id(&self) -> (r: Option<usize>)
        ensures
            r == match self@ {
                ComponentView::Id(n) => Some(n),
                _ => None,
            },
    {
        match self {
            Component::Id(n) => Some(*n),
            _ => None,
        }
    }

    /// Convert into component reference.
    pub fn as_component_ref(&self) -> (r: ComponentRef<'_>)
        ensures
            r@ == self@,
    {
        match self {
            Component::Crate(s) => ComponentRef::Crate(s.as_str()),
            Component::Str(s) => ComponentRef::Str(s.as_str()),
            Component::Id(n) => ComponentRef::Id(*n),
        }
    }

    /// The text of the component.
    pub fn to_string(&self) -> (s: String)
        ensures
            s@ == component_text(self@),
    {
        let mut s = String::new();
        self.push_to(&mut s);
        assert(s@ =~= component_text(self@));
        s
    }

    /// Appends the text of the component to `out`.
    pub fn push_to(&self, out: &mut String)
        ensures
            final(out)@ == old(out)@ + component_text(self@),
    {
        proof {
            reveal_strlit("::");
            reveal_strlit("$");
        }
        match self {
            Component::Crate(s) => {
                push_text(out, "::");
                push_text(out, s.as_str());
                assert(out@ =~= old(out)@ + component_text(self@));
            },
            Component::Str(s) => {
                push_text(out, s.as_str());
            },
            Component::Id(n) => {
                push_text(out, "$");
                push_decimal(out, *n as u64);
                assert(out@ =~= old(out)@ + component_text(self@));
            },
        }
    }

    /// Folds the component into a fingerprint state.
    pub fn fold_into(&self, state: u64) -> (next: u64)
        ensures
            next == component_fold(state, self@),
    {
        match self {
            Component::Crate(s) => fold(step(state, 1), s.as_str().as_bytes()),
            Component::Str(s) => fold(step(state, 2), s.as_str().as_bytes()),
            Component::Id(n) => step(step(state, 3), *n as u64),
        }
    }
}

impl TryClone for Component {
    fn try_clone(&self) -> (r: Result<Self, Error>)
        ensures
            r matches Ok(c) && c@ == self@,
    {
        Ok(
            match self {
                Component::Crate(s) => Component::Crate(s.clone()),
                Component::Str(s) => Component::Str(s.clone()),
                Component::Id(n) => Component::Id(*n),
            },
        )
    }
}

/// The path of an item: its components from the outermost inwards.
#[derive(Debug, Clone, PartialEq, Eq, PartialOrd, Ord, Hash)]
pub struct ItemBuf {
    /// The components of the path.
    pub components: Vec<Component>,
}

impl View for ItemBuf {
    type V = Seq<ComponentView>;

    open spec fn view(&self) -> Seq<ComponentView> {
        self.components@.map_values(|c: Component| c@)
    }
}

impl DeepView for ItemBuf {
    type V = Seq<ComponentView>;

    open spec fn deep_view(&self) -> Seq<ComponentView> {
        self@
    }
}

/// The components of a path written one after the other with `::` between
/// them.
pub open spec fn joined_text(item: Seq<ComponentView>) -> Seq<char>
    decreases item.len(),
{
    if item.len() == 0 {
        Seq::empty()
    } else if item.len() == 1 {
        component_text(item[0])
    } else {
        joined_text(item.drop_last()) + seq![':', ':'] + component_text(item.last())
    }
}

/// The text of a path; the empty path is written `{root}`.
pub open spec fn item_text(item: Seq<ComponentView>) -> Seq<char> {
    if item.len() == 0 {
        "{root}"@
    } else {
        joined_text(item)
    }
}

/// The fold of the components of a path, from the outermost inwards.
pub open spec fn item_fold(state: u64, item: Seq<ComponentView>) -> u64
    decreases item.len(),
{
    if item.len() == 0 {
        state
    } else {
        component_fold(item_fold(state, item.drop_last()), item.last())
    }
}

/// The fingerprint of an item path.
pub open spec fn type_hash_of(item: Seq<ComponentView>) -> u64 {
    item_fold(mix(OFFSET_BASIS, TYPE_SEED), item)
}

impl ItemBuf {
    /// The empty path.
    pub fn new() -> (item: ItemBuf)
        ensures
            item@ == Seq::<ComponentView>::empty(),
    {
        let item = ItemBuf { components: Vec::new() };
        assert(item@ =~= Seq::<ComponentView>::empty());
        item
    }

    /// The path with the given components.
    pub fn with_item(components: Vec<Component>) -> (item: ItemBuf)
        ensures
            item.components == components,
    {
        ItemBuf { components }
    }

    /// Appends a component.
    pub fn push(&mut self, component: Component)
        ensures
            final(self)@ == old(self)@.push(component@),
    {
        self.components.push(component);
        assert(self@ =~= old(self)@.push(component@));
    }

    /// The number of components.
    pub fn len(&self) -> (n: usize)
        ensures
            n == self@.len(),
    {
        self.components.len()
    }

    /// The text of the path.
    pub fn to_string(&self) -> (s: String)
        ensures
            s@ == item_text(self@),
    {
        let mut s = String::new();
        if self.components.len() == 0 {
            push_text(&mut s, "{root}");
            assert(s@ =~= item_text(self@));
            return s;
        }
        self.components[0].push_to(&mut s);
        assert(self@.take(1) =~= seq![self@[0]]);
        assert(s@ =~= joined_text(self@.take(1)));
        let mut i: usize = 1;
        while i < self.components.len()
            invariant
                1 <= i <= self.components.len(),
                s@ == joined_text(self@.take(i as int)),
            decreases self.components.len() - i,
        {
            proof {
                reveal_strlit("::");
                assert(self@.take(i + 1).drop_last() =~= self@.take(i as int));
            }
            let ghost before = s@;
            push_text(&mut s, "::");
            self.components[i].push_to(&mut s);
            assert(s@ =~= before + seq![':', ':'] + component_text(self@[i as int]));
            i += 1;
        }
        assert(self@.take(self.components.len() as int) =~= self@);
        s
    }

    /// A copy of the path.
    pub fn to_owned(&self) -> (item: ItemBuf)
        ensures
            item@ == self@,
    {
        let mut out: Vec<Component> = Vec::with_capacity(self.components.len());
        let mut i: usize = 0;
        while i < self.components.len()
            invariant
                i <= self.components.len(),
                out.len() == i,
                forall|j: int| 0 <= j < i ==> out@[j]@ == self.components@[j]@,
            decreases self.components.len() - i,
        {
            let c = match &self.components[i] {
                Component::Crate(s) => Component::Crate(s.clone()),
                Component::Str(s) => Component::Str(s.clone()),
                Component::Id(n) => Component::Id(*n),
            };
            out.push(c);
            i += 1;
        }
        let item = ItemBuf { components: out };
        assert(item@ =~= self@);
        item
    }
}

impl TryClone for ItemBuf {
    fn try_clone(&self) -> (r: Result<Self, Error>)
        ensures
            r matches Ok(c) && c@ == self@,
    {
        Ok(self.to_owned())
    }
}

impl crate::hash::Hash {
    /// Fingerprint of an item path.
    pub fn type_hash(item: &ItemBuf) -> (h: crate::hash::Hash)
        ensures
            h.0 == type_hash_of(item@),
    {
        let mut state = step(OFFSET_BASIS, TYPE_SEED);
        let mut i: usize = 0;
        while i < item.components.len()
            invariant
                i <= item.components.len(),
                state == item_fold(mix(OFFSET_BASIS, TYPE_SEED), item@.take(i as int)),
            decreases item.components.len() - i,
        {
            proof {
                assert(item@.take(i + 1).drop_last() =~= item@.take(i as int));
            }
            state = item.components[i].fold_into(state);
            i += 1;
        }
        assert(item@.take(item.components.len() as int) =~= item@);
        crate::hash::Hash(state)
    }
}

} // verus!
