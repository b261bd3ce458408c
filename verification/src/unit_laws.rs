//! Laws of the assembler, stated over its mathematical model.

use vstd::prelude::*;
use crate::const_value::ConstView;
use crate::context::FunctionHandler;
use crate::diagnostics::DiagnosticView;
use crate::error::ErrorKindView;
use crate::inst::{lowered_call, Inst, UnitFn};
use crate::item::type_hash_of;
use crate::meta::{Fields, Kind, Meta};
use crate::assembly::Assembly;
use crate::unit_builder::{
    alias_target, calls_recorded, record_call, AliasEnd, CallSite, ResolutionView,
    interned, is_missing, listed, missing_function, missing_functions, pool_wf, BuilderView, Interned,
    ReExport, RequiredView,
};

verus! {

/// The slots of a pool after `value` was interned under `hash`.
pub open spec fn slots_after<V>(slots: Seq<V>, rev: Map<u64, usize>, hash: u64, value: V) -> Seq<V> {
    match interned(slots, rev, hash, value) {
        Interned::Fresh(slot) => slots.push(value),
        _ => slots,
    }
}

/// The reverse table of a pool after `value` was interned under `hash`.
pub open spec fn rev_after<V>(slots: Seq<V>, rev: Map<u64, usize>, hash: u64, value: V) -> Map<u64, usize> {
    match interned(slots, rev, hash, value) {
        Interned::Fresh(slot) => rev.insert(hash, slot),
        _ => rev,
    }
}

/// The slot that interning comes to, if it is not a conflict.
pub open spec fn slot_of<V>(outcome: Interned<V>) -> Option<usize> {
    match outcome {
        Interned::Existing(slot) => Some(slot),
        Interned::Fresh(slot) => Some(slot),
        Interned::Conflict(_) => None,
    }
}

/// Interning keeps the pool well formed.
pub proof fn lemma_intern_keeps_pool<V>(slots: Seq<V>, rev: Map<u64, usize>, hash: u64, value: V)
    requires
        pool_wf(slots.len(), rev),
        slots.len() < usize::MAX,
    ensures
        pool_wf(slots_after(slots, rev, hash, value).len(), rev_after(slots, rev, hash, value)),
{
}

/// Interning the same content under the same fingerprint a second time
/// yields the slot of the first time and leaves the pool as it is.
pub proof fn lemma_intern_twice<V>(slots: Seq<V>, rev: Map<u64, usize>, hash: u64, value: V)
    requires
        pool_wf(slots.len(), rev),
        slots.len() < usize::MAX,
        slot_of(interned(slots, rev, hash, value)) is Some,
    ensures
        interned(slots_after(slots, rev, hash, value), rev_after(slots, rev, hash, value), hash, value)
            == Interned::<V>::Existing(slot_of(interned(slots, rev, hash, value))->0),
{
}

/// A content that is in the pool keeps its slot whatever is interned
/// after it: interning it again yields the same slot, in whatever order
/// other contents came in between.
pub proof fn lemma_intern_keeps_slots<V>(
    slots: Seq<V>,
    rev: Map<u64, usize>,
    hash: u64,
    value: V,
    other_hash: u64,
    other: V,
)
    requires
        pool_wf(slots.len(), rev),
        slots.len() < usize::MAX,
        interned(slots, rev, hash, value) is Existing,
    ensures
        interned(
            slots_after(slots, rev, other_hash, other),
            rev_after(slots, rev, other_hash, other),
            hash,
            value,
        ) == interned(slots, rev, hash, value),
{
}

/// Two different contents under one fingerprint: the second is refused
/// with a conflict that holds the first.
pub proof fn lemma_intern_collision<V>(slots: Seq<V>, rev: Map<u64, usize>, hash: u64, first: V, second: V)
    requires
        pool_wf(slots.len(), rev),
        slots.len() < usize::MAX,
        first != second,
        slot_of(interned(slots, rev, hash, first)) is Some,
    ensures
        interned(slots_after(slots, rev, hash, first), rev_after(slots, rev, hash, first), hash, second)
            == Interned::Conflict(first),
{
}

/// In a pool whose slots are indexed under the fingerprint of their
/// content, no two slots hold the same content.
pub proof fn lemma_indexed_slots_are_distinct(b: BuilderView)
    requires
        b.pools_indexed(),
    ensures
        forall|i: int, j: int|
            0 <= i < j < b.static_strings.len() ==> #[trigger] b.static_strings[i]
                != #[trigger] b.static_strings[j],
        forall|i: int, j: int|
            0 <= i < j < b.static_bytes.len() ==> #[trigger] b.static_bytes[i] != #[trigger] b.static_bytes[j],
        forall|i: int, j: int|
            0 <= i < j < b.static_object_keys.len() ==> #[trigger] b.static_object_keys[i]
                != #[trigger] b.static_object_keys[j],
{
}

/// Neither a declaration, nor a function, nor a re-export touches the
/// pools, so that they stay indexed by their content.
pub proof fn lemma_pools_are_kept(
    b: BuilderView,
    meta: &Meta,
    constant: Option<ConstView>,
    item: Seq<crate::item::ComponentView>,
    instance: Option<(crate::hash::Hash, Seq<char>)>,
    args: usize,
    call: crate::inst::Call,
    debug_args: Seq<Seq<char>>,
    offset: usize,
    body: &Assembly,
    source_id: crate::span::SourceId,
)
    requires
        b.pools_indexed(),
    ensures
        b.insert_meta(meta, constant) matches Ok(next) ==> next.pools_indexed(),
        b.new_function(item, instance, args, call, debug_args, offset) matches Ok(next)
            ==> next.pools_indexed() && next.add_assembly(body, source_id, offset).pools_indexed(),
{
}

/// A declaration never replaces what the function table, the type
/// descriptors or the variant descriptors hold: where it succeeds, every
/// entry that was there is there unchanged.
pub proof fn lemma_insert_meta_keeps_entries(b: BuilderView, meta: &Meta, constant: Option<ConstView>)
    requires
        b.insert_meta(meta, constant) is Ok,
    ensures
        b.functions.submap_of(b.insert_meta(meta, constant)->Ok_0.functions),
        b.rtti.submap_of(b.insert_meta(meta, constant)->Ok_0.rtti),
        b.variant_rtti.submap_of(b.insert_meta(meta, constant)->Ok_0.variant_rtti),
{
}

/// The fingerprint under which a declaration registers a constructor in
/// the function table, if it registers one.
pub open spec fn declared_function(meta: &Meta) -> Option<u64> {
    match meta.kind {
        Kind::Struct { fields: Fields::Empty } => Some(meta.hash.0),
        Kind::Struct { fields: Fields::Unnamed(_) } => Some(meta.hash.0),
        Kind::Variant { enum_hash, fields: Fields::Empty } => Some(meta.hash.0),
        Kind::Variant { enum_hash, fields: Fields::Unnamed(_) } => Some(meta.hash.0),
        _ => None,
    }
}

/// The fingerprint under which a declaration registers a type
/// descriptor, if it registers one.
pub open spec fn declared_type(meta: &Meta) -> Option<u64> {
    match meta.kind {
        Kind::Type => Some(type_hash_of(meta.item@)),
        Kind::Struct { fields: Fields::Named(_) } => Some(type_hash_of(meta.item@)),
        Kind::Struct { fields } => Some(meta.hash.0),
        Kind::Enum => Some(meta.hash.0),
        _ => None,
    }
}

/// The fingerprint under which a declaration registers a variant
/// descriptor, if it registers one.
pub open spec fn declared_variant(meta: &Meta) -> Option<u64> {
    match meta.kind {
        Kind::Variant { enum_hash, fields: Fields::Named(_) } => Some(type_hash_of(meta.item@)),
        Kind::Variant { enum_hash, fields } => Some(meta.hash.0),
        _ => None,
    }
}

/// A declaration whose fingerprint is taken in the table that it would
/// register in always fails with a conflict: a taken type descriptor and a
/// taken variant descriptor with the conflict that names the fingerprint,
/// a taken function with a conflict of types, of variants or of functions.
/// Where only the function table holds the fingerprint, the conflict names
/// the fingerprint and holds the signature of the function that is there.
pub proof fn lemma_insert_meta_refuses_duplicates(b: BuilderView, meta: &Meta, constant: Option<ConstView>)
    ensures
        declared_type(meta) is Some && b.rtti.contains_key(declared_type(meta)->0) ==> b.insert_meta(
            meta,
            constant,
        ) == Err::<BuilderView, ErrorKindView>(
            ErrorKindView::TypeRttiConflict { hash: crate::hash::Hash(declared_type(meta)->0) },
        ),
        declared_variant(meta) is Some && b.variant_rtti.contains_key(declared_variant(meta)->0)
            ==> b.insert_meta(meta, constant) == Err::<BuilderView, ErrorKindView>(
            ErrorKindView::VariantRttiConflict { hash: crate::hash::Hash(declared_variant(meta)->0) },
        ),
        declared_function(meta) matches Some(h) && b.functions.contains_key(h) ==> ({
            let r = b.insert_meta(meta, constant);
            &&& r is Err
            &&& r->Err_0 is TypeRttiConflict || r->Err_0 is VariantRttiConflict || r->Err_0
                is FunctionConflict
        }),
        declared_function(meta) is Some && b.functions.contains_key(meta.hash.0) && !b.rtti.contains_key(
            meta.hash.0,
        ) && !b.variant_rtti.contains_key(meta.hash.0) ==> b.insert_meta(meta, constant) == Err::<
            BuilderView,
            ErrorKindView,
        >(ErrorKindView::FunctionConflict { hash: meta.hash, existing: b.signature(meta.hash.0) }),
        b.insert_meta(meta, constant) matches Ok(next) ==> ({
            &&& declared_type(meta) matches Some(h) ==> !b.rtti.contains_key(h) && next.rtti.contains_key(h)
            &&& declared_variant(meta) matches Some(h) ==> !b.variant_rtti.contains_key(h)
                && next.variant_rtti.contains_key(h)
            &&& declared_function(meta) matches Some(h) ==> !b.functions.contains_key(h)
                && next.functions.contains_key(h)
        }),
{
}

/// Declaring a function never replaces an entry of the function table.
pub proof fn lemma_new_function_keeps_entries(
    b: BuilderView,
    item: Seq<crate::item::ComponentView>,
    instance: Option<(crate::hash::Hash, Seq<char>)>,
    args: usize,
    call: crate::inst::Call,
    debug_args: Seq<Seq<char>>,
    offset: usize,
)
    requires
        b.new_function(item, instance, args, call, debug_args, offset) is Ok,
    ensures
        b.functions.submap_of(b.new_function(item, instance, args, call, debug_args, offset)->Ok_0.functions),
{
}

/// Resolving the first `n` re-exports succeeds exactly where each of them
/// resolves.
pub proof fn lemma_resolved_iff_each(b: BuilderView, registered: BuilderView, n: int)
    requires
        0 <= n <= registered.reexports.len(),
    ensures
        b.resolved(registered, n) is Ok <==> forall|i: int|
            0 <= i < n ==> registered.resolution(#[trigger] registered.reexports[i]) is Ok,
    decreases n,
{
    if n > 0 {
        lemma_resolved_iff_each(b, registered, n - 1);
    }
}

/// Where the re-export at `k` is the first that does not resolve,
/// resolving it and any more fails with its error.
pub proof fn lemma_first_failure(b: BuilderView, registered: BuilderView, k: int, n: int)
    requires
        0 <= k < n <= registered.reexports.len(),
        registered.resolution(registered.reexports[k]) is Err,
        forall|i: int| 0 <= i < k ==> registered.resolution(#[trigger] registered.reexports[i]) is Ok,
    ensures
        b.resolved(registered, n) == Err::<BuilderView, ErrorKindView>(
            registered.resolution(registered.reexports[k])->Err_0,
        ),
{
    lemma_resolved_iff_each(b, registered, k);
    assert(b.resolved(registered, k + 1) is Err);
    crate::unit_builder::lemma_resolve_stops(b, registered, k + 1, n);
}

/// With no alias registered twice, the target of an alias is the target
/// of the re-export that holds the alias, wherever in the list it
/// stands.
pub proof fn lemma_alias_target_at(reexports: Seq<ReExport>, k: int)
    requires
        0 <= k < reexports.len(),
        forall|i: int, j: int|
            0 <= i < j < reexports.len() ==> (#[trigger] reexports[i]).from != (#[trigger] reexports[j]).from,
    ensures
        alias_target(reexports, reexports[k].from) == Some(reexports[k].to),
{
    let p = |r: ReExport| r.from == reexports[k].from;
    crate::query::lemma_position_is_first(reexports, p);
    assert(p(reexports[k]));
    let i = crate::query::position(reexports, p)->0;
    if i < k {
        assert(reexports[i].from != reexports[k].from);
    }
}

/// An alias of an alias stands for what the second alias stands for, in
/// whatever order the two were registered: a re-export whose target is
/// the alias of a re-export of a function resolves to that function.
pub proof fn lemma_alias_of_alias(b: BuilderView, k: int, j: int)
    requires
        b.wf(),
        0 <= k < b.reexports.len(),
        0 <= j < b.reexports.len(),
        b.reexports[k].to == b.reexports[j].from,
        b.functions.contains_key(b.reexports[j].to.0),
        !b.functions.contains_key(b.reexports[j].from.0),
        !b.constants.contains_key(b.reexports[j].from.0),
        !b.functions.contains_key(b.reexports[k].from.0),
        !b.constants.contains_key(b.reexports[k].from.0),
    ensures
        b.resolution(b.reexports[k]) == Ok::<ResolutionView, ErrorKindView>(
            ResolutionView::Function {
                from: b.reexports[k].from,
                info: b.functions[b.reexports[j].to.0],
                signature: b.signature(b.reexports[j].to.0),
            },
        ),
        b.resolution(b.reexports[j]) == Ok::<ResolutionView, ErrorKindView>(
            ResolutionView::Function {
                from: b.reexports[j].from,
                info: b.functions[b.reexports[j].to.0],
                signature: b.signature(b.reexports[j].to.0),
            },
        ),
{
    lemma_alias_target_at(b.reexports, j);
    let len = b.reexports.len();
    let c = b.reexports[j].from;
    let f = b.reexports[j].to;
    assert(b.alias_end(f, (len - 1) as nat) == AliasEnd::Function(f));
    assert(b.alias_end(f, len) == AliasEnd::Function(f));
    assert(b.alias_end(c, len) == b.alias_end(f, (len - 1) as nat));
}

/// Whether the re-export at `i` resolves to a function under the
/// fingerprint `h`.
pub open spec fn function_alias(b: BuilderView, i: int, h: u64) -> bool {
    &&& b.reexports[i].from.0 == h
    &&& b.resolution(b.reexports[i]) matches Ok(resolution)
    &&& resolution is Function
}

/// Whether the re-export at `i` resolves to a constant under the
/// fingerprint `h`.
pub open spec fn constant_alias(b: BuilderView, i: int, h: u64) -> bool {
    &&& b.reexports[i].from.0 == h
    &&& b.resolution(b.reexports[i]) matches Ok(resolution)
    &&& resolution is Constant
}

/// What the tables hold under a fingerprint once the first `n` re-exports
/// are resolved: what they held before, or, under the fingerprint of an
/// alias, the entry that the alias resolved to.
pub proof fn lemma_resolved_tables(b: BuilderView, registered: BuilderView, n: int, h: u64)
    requires
        0 <= n <= registered.reexports.len(),
        forall|i: int, j: int|
            0 <= i < j < registered.reexports.len() ==> (#[trigger] registered.reexports[i]).from != (
            #[trigger] registered.reexports[j]).from,
        b.resolved(registered, n) is Ok,
    ensures
        ({
            let next = b.resolved(registered, n)->Ok_0;
            &&& next.functions.contains_key(h) <==> b.functions.contains_key(h) || exists|i: int|
                0 <= i < n && #[trigger] function_alias(registered, i, h)
            &&& next.constants.contains_key(h) <==> b.constants.contains_key(h) || exists|i: int|
                0 <= i < n && #[trigger] constant_alias(registered, i, h)
            &&& forall|i: int|
                0 <= i < n && #[trigger] function_alias(registered, i, h) ==> next.functions[h]
                    == registered.resolution(registered.reexports[i])->Ok_0->info
            &&& forall|i: int|
                0 <= i < n && #[trigger] constant_alias(registered, i, h) ==> next.constants[h]
                    == registered.resolution(registered.reexports[i])->Ok_0->value
            &&& (forall|i: int| 0 <= i < n ==> !#[trigger] function_alias(registered, i, h))
                && b.functions.contains_key(h) ==> next.functions[h] == b.functions[h]
            &&& (forall|i: int| 0 <= i < n ==> !#[trigger] constant_alias(registered, i, h))
                && b.constants.contains_key(h) ==> next.constants[h] == b.constants[h]
        }),
    decreases n,
{
    if n > 0 {
        lemma_resolved_tables(b, registered, n - 1, h);
        let prev = b.resolved(registered, n - 1)->Ok_0;
        let last = registered.reexports[n - 1];
        let next = b.resolved(registered, n)->Ok_0;
        assert(next == prev.with_resolution(registered.resolution(last)->Ok_0));
        assert forall|i: int| 0 <= i < n - 1 implies (#[trigger] registered.reexports[i]).from.0
            != last.from.0 by {
            assert(registered.reexports[i].from != registered.reexports[n - 1].from);
        }
        if function_alias(registered, n - 1, h) {
        } else if constant_alias(registered, n - 1, h) {
        } else {
            assert(last.from.0 != h);
        }
        assert forall|i: int| 0 <= i < n - 1 && function_alias(registered, i, h) implies last.from.0
            != h by {
            assert(registered.reexports[i].from.0 != last.from.0);
        }
        assert forall|i: int| 0 <= i < n - 1 && constant_alias(registered, i, h) implies last.from.0
            != h by {
            assert(registered.reexports[i].from.0 != last.from.0);
        }
    }
}

/// With no alias registered twice, the target of an alias depends only on
/// which re-exports are registered, not on their order.
pub proof fn lemma_alias_target_by_membership(first: Seq<ReExport>, second: Seq<ReExport>, hash: crate::hash::Hash)
    requires
        forall|i: int, j: int|
            0 <= i < j < first.len() ==> (#[trigger] first[i]).from != (#[trigger] first[j]).from,
        forall|i: int, j: int|
            0 <= i < j < second.len() ==> (#[trigger] second[i]).from != (#[trigger] second[j]).from,
        forall|r: ReExport| first.contains(r) <==> second.contains(r),
    ensures
        alias_target(first, hash) == alias_target(second, hash),
{
    let p = |r: ReExport| r.from == hash;
    crate::query::lemma_position_is_first(first, p);
    crate::query::lemma_position_is_first(second, p);
    match crate::query::position(first, p) {
        Some(i) => {
            assert(first.contains(first[i]));
            let j = choose|j: int| 0 <= j < second.len() && second[j] == first[i];
            lemma_alias_target_at(second, j);
        },
        None => {
            match crate::query::position(second, p) {
                Some(j) => {
                    assert(second.contains(second[j]));
                    let i = choose|i: int| 0 <= i < first.len() && first[i] == second[j];
                    assert(p(first[i]));
                },
                None => {},
            }
        },
    }
}

/// Where a fingerprint leads does not depend on the order of the
/// re-exports.
pub proof fn lemma_alias_end_by_membership(b1: BuilderView, b2: BuilderView, hash: crate::hash::Hash, fuel: nat)
    requires
        same_but_order(b1, b2),
    ensures
        b1.alias_end(hash, fuel) == b2.alias_end(hash, fuel),
    decreases fuel,
{
    lemma_alias_target_by_membership(b1.reexports, b2.reexports, hash);
    if !b1.functions.contains_key(hash.0) && !b1.constants.contains_key(hash.0) && fuel > 0 {
        match alias_target(b1.reexports, hash) {
            Some(to) => lemma_alias_end_by_membership(b1, b2, to, (fuel - 1) as nat),
            None => {},
        }
    }
}

/// Whether two assemblers differ only in the order of their re-exports.
pub open spec fn same_but_order(b1: BuilderView, b2: BuilderView) -> bool {
    &&& b1.wf()
    &&& b2.wf()
    &&& b2 == (BuilderView { reexports: b2.reexports, ..b1 })
    &&& b1.reexports.len() == b2.reexports.len()
    &&& forall|r: ReExport| b1.reexports.contains(r) <==> b2.reexports.contains(r)
}

/// What a re-export resolves to does not depend on the order of the
/// re-exports.
pub proof fn lemma_resolution_by_membership(b1: BuilderView, b2: BuilderView, r: ReExport)
    requires
        same_but_order(b1, b2),
    ensures
        b1.resolution(r) == b2.resolution(r),
{
    lemma_alias_end_by_membership(b1, b2, r.to, b1.reexports.len());
}

/// Where every re-export of one order resolves, every re-export of the
/// other order resolves.
pub proof fn lemma_each_resolves_by_membership(b1: BuilderView, b2: BuilderView)
    requires
        same_but_order(b1, b2),
        forall|i: int| 0 <= i < b1.reexports.len() ==> b1.resolution(#[trigger] b1.reexports[i]) is Ok,
    ensures
        forall|i: int| 0 <= i < b2.reexports.len() ==> b2.resolution(#[trigger] b2.reexports[i]) is Ok,
{
    assert forall|i: int| 0 <= i < b2.reexports.len() implies b2.resolution(
        #[trigger] b2.reexports[i],
    ) is Ok by {
        assert(b2.reexports.contains(b2.reexports[i]));
        let j = choose|j: int| 0 <= j < b1.reexports.len() && b1.reexports[j] == b2.reexports[i];
        assert(b1.resolution(b1.reexports[j]) is Ok);
        lemma_resolution_by_membership(b1, b2, b2.reexports[i]);
    }
}

/// An alias that resolves to a function or a constant in one order does
/// so in the other order, to the same entry.
pub proof fn lemma_alias_by_membership(b1: BuilderView, b2: BuilderView, i: int, h: u64) -> (j: int)
    requires
        same_but_order(b1, b2),
        0 <= i < b1.reexports.len(),
        b1.reexports[i].from.0 == h,
    ensures
        0 <= j < b2.reexports.len(),
        b2.reexports[j] == b1.reexports[i],
        b2.resolution(b2.reexports[j]) == b1.resolution(b1.reexports[i]),
        function_alias(b1, i, h) <==> function_alias(b2, j, h),
        constant_alias(b1, i, h) <==> constant_alias(b2, j, h),
{
    assert(b1.reexports.contains(b1.reexports[i]));
    let j = choose|j: int| 0 <= j < b2.reexports.len() && b2.reexports[j] == b1.reexports[i];
    lemma_resolution_by_membership(b1, b2, b1.reexports[i]);
    j
}

/// Under each fingerprint, the function table and the constants hold the
/// same once the re-exports are resolved, in whichever order they were
/// registered.
pub proof fn lemma_entry_by_membership(b1: BuilderView, b2: BuilderView, h: u64)
    requires
        same_but_order(b1, b2),
        b1.resolve_reexports(b1.reexports.len() as int) is Ok,
        b2.resolve_reexports(b2.reexports.len() as int) is Ok,
    ensures
        ({
            let first = b1.resolve_reexports(b1.reexports.len() as int)->Ok_0;
            let second = b2.resolve_reexports(b2.reexports.len() as int)->Ok_0;
            &&& first.functions.contains_key(h) <==> second.functions.contains_key(h)
            &&& first.functions.contains_key(h) ==> first.functions[h] == second.functions[h]
            &&& first.constants.contains_key(h) <==> second.constants.contains_key(h)
            &&& first.constants.contains_key(h) ==> first.constants[h] == second.constants[h]
        }),
{
    let n = b1.reexports.len() as int;
    lemma_resolved_tables(b1, b1, n, h);
    lemma_resolved_tables(b2, b2, n, h);
    assert forall|i: int| 0 <= i < n && b1.reexports[i].from.0 == h implies exists|j: int|
        0 <= j < n && b2.resolution(b2.reexports[j]) == b1.resolution(#[trigger] b1.reexports[i]) && (
        function_alias(b1, i, h) <==> #[trigger] function_alias(b2, j, h)) && (constant_alias(b1, i, h)
            <==> #[trigger] constant_alias(b2, j, h)) by {
        let j = lemma_alias_by_membership(b1, b2, i, h);
    }
    assert forall|j: int| 0 <= j < n && b2.reexports[j].from.0 == h implies exists|i: int|
        0 <= i < n && b1.resolution(b1.reexports[i]) == b2.resolution(#[trigger] b2.reexports[j]) && (
        function_alias(b2, j, h) <==> #[trigger] function_alias(b1, i, h)) && (constant_alias(b2, j, h)
            <==> #[trigger] constant_alias(b1, i, h)) by {
        let i = lemma_alias_by_membership(b2, b1, j, h);
    }
}

/// Where the re-exports resolve in one order, they resolve in the other.
pub proof fn lemma_resolves_by_membership(b1: BuilderView, b2: BuilderView)
    requires
        same_but_order(b1, b2),
        b1.resolve_reexports(b1.reexports.len() as int) is Ok,
    ensures
        b2.resolve_reexports(b2.reexports.len() as int) is Ok,
{
    lemma_resolved_iff_each(b1, b1, b1.reexports.len() as int);
    lemma_each_resolves_by_membership(b1, b2);
    lemma_resolved_iff_each(b2, b2, b2.reexports.len() as int);
}

/// Where the re-exports resolve in both orders, they resolve to the same
/// function table and the same constants.
pub proof fn lemma_tables_by_membership(b1: BuilderView, b2: BuilderView)
    requires
        same_but_order(b1, b2),
        b1.resolve_reexports(b1.reexports.len() as int) is Ok,
        b2.resolve_reexports(b2.reexports.len() as int) is Ok,
    ensures
        b1.resolve_reexports(b1.reexports.len() as int)->Ok_0.functions == b2.resolve_reexports(
            b2.reexports.len() as int,
        )->Ok_0.functions,
        b1.resolve_reexports(b1.reexports.len() as int)->Ok_0.constants == b2.resolve_reexports(
            b2.reexports.len() as int,
        )->Ok_0.constants,
{
    let first = b1.resolve_reexports(b1.reexports.len() as int)->Ok_0;
    let second = b2.resolve_reexports(b2.reexports.len() as int)->Ok_0;
    assert forall|h: u64| #[trigger]
        first.functions.contains_key(h) == second.functions.contains_key(h) && (
        first.functions.contains_key(h) ==> first.functions[h] == second.functions[h]) by {
        lemma_entry_by_membership(b1, b2, h);
    }
    assert forall|h: u64| #[trigger]
        first.constants.contains_key(h) == second.constants.contains_key(h) && (
        first.constants.contains_key(h) ==> first.constants[h] == second.constants[h]) by {
        lemma_entry_by_membership(b1, b2, h);
    }
    assert(first.functions =~= second.functions);
    assert(first.constants =~= second.constants);
}

/// The order in which re-exports were registered does not matter to the
/// build: two assemblers that differ only in that order either both fail
/// to resolve their re-exports, or both resolve them to the same function
/// table and the same constants.
pub proof fn lemma_order_of_reexports(b1: BuilderView, b2: BuilderView)
    requires
        same_but_order(b1, b2),
    ensures
        b1.resolve_reexports(b1.reexports.len() as int) is Ok <==> b2.resolve_reexports(
            b2.reexports.len() as int,
        ) is Ok,
        b1.resolve_reexports(b1.reexports.len() as int) matches Ok(first) ==> ({
            let second = b2.resolve_reexports(b2.reexports.len() as int)->Ok_0;
            &&& first.functions == second.functions
            &&& first.constants == second.constants
        }),
{
    assert(same_but_order(b2, b1));
    if b1.resolve_reexports(b1.reexports.len() as int) is Ok {
        lemma_resolves_by_membership(b1, b2);
        lemma_tables_by_membership(b1, b2);
    }
    if b2.resolve_reexports(b2.reexports.len() as int) is Ok {
        lemma_resolves_by_membership(b2, b1);
    }
}

/// A re-export whose target leads to a fingerprint that is neither
/// function, constant nor alias makes the build fail; where the
/// re-exports before it resolve, the failure names that fingerprint.
pub proof fn lemma_missing_target_fails(b: BuilderView, k: int)
    requires
        0 <= k < b.reexports.len(),
        b.alias_end(b.reexports[k].to, b.reexports.len()) is Missing,
    ensures
        b.resolve_reexports(b.reexports.len() as int) is Err,
        (forall|i: int| 0 <= i < k ==> b.resolution(#[trigger] b.reexports[i]) is Ok)
            ==> b.resolve_reexports(b.reexports.len() as int) == Err::<BuilderView, ErrorKindView>(
            ErrorKindView::MissingFunctionHash {
                hash: b.alias_end(b.reexports[k].to, b.reexports.len())->Missing_0,
            },
        ),
{
    lemma_resolved_iff_each(b, b, b.reexports.len() as int);
    assert(b.resolution(b.reexports[k]) is Err);
    if forall|i: int| 0 <= i < k ==> b.resolution(#[trigger] b.reexports[i]) is Ok {
        lemma_first_failure(b, b, k, b.reexports.len() as int);
    }
}

/// A target that is neither function, constant nor alias is where
/// following it ends: it is missing.
pub proof fn lemma_unknown_target_is_missing(b: BuilderView, hash: crate::hash::Hash, fuel: nat)
    requires
        !b.functions.contains_key(hash.0),
        !b.constants.contains_key(hash.0),
        alias_target(b.reexports, hash) is None,
    ensures
        b.alias_end(hash, fuel) == AliasEnd::Missing(hash),
{
}

/// A re-export whose own fingerprint is a function or a constant already
/// makes the build fail; where the re-exports before it resolve and its
/// target leads to a function or a constant, the failure is a conflict
/// on its own fingerprint.
pub proof fn lemma_alias_conflict_fails(b: BuilderView, k: int)
    requires
        0 <= k < b.reexports.len(),
        b.functions.contains_key(b.reexports[k].from.0) || b.constants.contains_key(b.reexports[k].from.0),
    ensures
        b.resolve_reexports(b.reexports.len() as int) is Err,
        (forall|i: int| 0 <= i < k ==> b.resolution(#[trigger] b.reexports[i]) is Ok) && !(b.alias_end(
            b.reexports[k].to,
            b.reexports.len(),
        ) is Missing) ==> ({
            let e = b.resolve_reexports(b.reexports.len() as int)->Err_0;
            ||| e == (ErrorKindView::FunctionConflictHash { hash: b.reexports[k].from })
            ||| e == (ErrorKindView::ConstantConflict { hash: b.reexports[k].from })
        }),
{
    lemma_resolved_iff_each(b, b, b.reexports.len() as int);
    assert(b.resolution(b.reexports[k]) is Err);
    if forall|i: int| 0 <= i < k ==> b.resolution(#[trigger] b.reexports[i]) is Ok {
        lemma_first_failure(b, b, k, b.reexports.len() as int);
    }
}

/// A call is lowered to a call by offset exactly where the function
/// table holds the callee at an offset when the call is lowered; any
/// other call stays a call by fingerprint.
pub proof fn lemma_call_lowering(functions: Map<u64, UnitFn>, hash: crate::hash::Hash, args: usize)
    ensures
        functions.contains_key(hash.0) && functions[hash.0] is Offset <==> lowered_call(
            functions,
            hash,
            args,
        ) is CallOffset,
        !(functions.contains_key(hash.0) && functions[hash.0] is Offset) ==> lowered_call(
            functions,
            hash,
            args,
        ) == (Inst::Call { hash, args }),
{
}

/// The number of diagnostics of a list that are about the function `hash`.
pub open spec fn reports_of(diagnostics: Seq<DiagnosticView>, required: RequiredView) -> nat
    decreases diagnostics.len(),
{
    if diagnostics.len() == 0 {
        0
    } else {
        reports_of(diagnostics.drop_last(), required) + if diagnostics.last() == missing_function(required) {
            1nat
        } else {
            0nat
        }
    }
}

/// No diagnostic of linking is about a function that is not required.
pub proof fn lemma_unlisted_function_is_not_reported(
    required: Seq<RequiredView>,
    functions: Map<u64, UnitFn>,
    context: Map<u64, FunctionHandler>,
    entry: RequiredView,
)
    requires
        !listed(required, entry.hash),
    ensures
        reports_of(missing_functions(required, functions, context), entry) == 0,
    decreases required.len(),
{
    if required.len() > 0 {
        assert forall|i: int| 0 <= i < required.drop_last().len() implies (
        #[trigger] required.drop_last()[i]).hash != entry.hash by {
            assert(required.drop_last()[i] == required[i]);
        }
        lemma_unlisted_function_is_not_reported(required.drop_last(), functions, context, entry);
        assert(required[required.len() - 1].hash != entry.hash);
        let rest = missing_functions(required.drop_last(), functions, context);
        if is_missing(functions, context, required.last().hash) {
            assert(rest.push(missing_function(required.last())).drop_last() =~= rest);
        }
    }
}

/// Linking reports a required function that neither the unit nor the host
/// provides exactly once, with its fingerprint and every place where it is
/// called; it reports no function that one of them provides.
pub proof fn lemma_link_reports_once(
    required: Seq<RequiredView>,
    functions: Map<u64, UnitFn>,
    context: Map<u64, FunctionHandler>,
    k: int,
)
    requires
        0 <= k < required.len(),
        forall|i: int, j: int|
            0 <= i < j < required.len() ==> (#[trigger] required[i]).hash != (#[trigger] required[j]).hash,
    ensures
        reports_of(missing_functions(required, functions, context), required[k]) == if is_missing(
            functions,
            context,
            required[k].hash,
        ) {
            1nat
        } else {
            0nat
        },
    decreases required.len(),
{
    let rest = missing_functions(required.drop_last(), functions, context);
    let last = required.last();
    if is_missing(functions, context, last.hash) {
        assert(rest.push(missing_function(last)).drop_last() =~= rest);
    }
    if k == required.len() - 1 {
        assert forall|i: int| 0 <= i < required.drop_last().len() implies (
        #[trigger] required.drop_last()[i]).hash != required[k].hash by {
            assert(required.drop_last()[i] == required[i]);
        }
        lemma_unlisted_function_is_not_reported(required.drop_last(), functions, context, required[k]);
    } else {
        assert forall|i: int, j: int| 0 <= i < j < required.drop_last().len() implies (
        #[trigger] required.drop_last()[i]).hash != (#[trigger] required.drop_last()[j]).hash by {
            assert(required.drop_last()[i] == required[i]);
            assert(required.drop_last()[j] == required[j]);
        }
        assert(required.drop_last()[k] == required[k]);
        lemma_link_reports_once(required.drop_last(), functions, context, k);
        assert(required[k].hash != required[required.len() - 1].hash);
    }
}

/// Recording a call lists its function, and keeps every function listed
/// that was.
pub proof fn lemma_record_call_lists(required: Seq<RequiredView>, hash: crate::hash::Hash, site: CallSite, other: crate::hash::Hash)
    ensures
        listed(record_call(required, hash, site), hash),
        listed(required, other) ==> listed(record_call(required, hash, site), other),
{
    let after = record_call(required, hash, site);
    if listed(required, hash) {
        let i = choose|i: int| 0 <= i < required.len() && (#[trigger] required[i]).hash == hash;
        assert(after[i].hash == hash);
    } else {
        assert(after[required.len() as int].hash == hash);
    }
    if listed(required, other) {
        let j = choose|j: int| 0 <= j < required.len() && (#[trigger] required[j]).hash == other;
        assert(after[j].hash == other);
    }
}

/// A call that is not lowered to a call by offset is among the required
/// functions once its instruction is lowered, so that linking checks it.
pub proof fn lemma_unresolved_call_is_required(
    required: Seq<RequiredView>,
    functions: Map<u64, UnitFn>,
    body: &Assembly,
    base: usize,
    n: int,
    i: int,
)
    requires
        0 <= i < n <= body.instructions@.len(),
        body.lowered_inst(functions, base, i) is Call,
    ensures
        listed(calls_recorded(required, functions, body, base, n), body.lowered_inst(functions, base, i)->Call_hash),
    decreases n,
{
    let hash = body.lowered_inst(functions, base, i)->Call_hash;
    let prev = calls_recorded(required, functions, body, base, n - 1);
    if i < n - 1 {
        lemma_unresolved_call_is_required(required, functions, body, base, n - 1, i);
    }
    match body.lowered_inst(functions, base, n - 1) {
        Inst::Call { hash: last, args } => {
            lemma_record_call_lists(
                prev,
                last,
                CallSite { span: body.instructions@[n - 1].span, source_id: body.location.source_id },
                hash,
            );
        },
        _ => {},
    }
}

} // verus!
