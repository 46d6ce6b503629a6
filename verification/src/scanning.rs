//! The category scanners and the category dispatcher.
//!
//! `scan_object` reads the object's category tag and routes to exactly one
//! category scanner; each scanner enumerates its category's edges in terms of
//! the reference-region table plus the category's extra slots, and pushes
//! every edge to the visitor before returning.  Weak/soft/phantom referents
//! are routed to the deferral lists instead, unless reference-category
//! handling is disabled by the runtime-wide flag.

use vstd::prelude::*;

use crate::abi::{
    InstanceClassLoaderKlass, InstanceKlass, InstanceMirrorKlass, InstanceRefKlass, KlassID,
    KlassKind, ObjArrayKlass, ObjPayload, Oop, OopMapBlock, ReferenceType, TypeArrayKlass,
};
use crate::edges::{
    block_edges, lemma_seq_add_empty, lemma_seq_push_units, maps_edges, maps_fit, run_edges,
    run_fits, slot_bytes,
};
use crate::sink::{Deferral, EdgeVisitor};

verus! {

/// Whether a reference category is routed to the deferral lists when
/// reference-category handling is enabled.
pub open spec fn is_deferred_category(t: ReferenceType) -> bool {
    t is Weak || t is Soft || t is Phantom
}

/// The edges a reference-like object yields beyond its instance part: none
/// while its category is deferred, else the referent and discovered slots,
/// treated as strong edges.
pub open spec fn ref_extra_edges(base: u64, rk: InstanceRefKlass, no_reference_types: bool) -> Seq<
    u64,
> {
    if !no_reference_types && is_deferred_category(rk.reference_type) {
        Seq::empty()
    } else {
        seq![(base + rk.referent_offset) as u64, (base + rk.discovered_offset) as u64]
    }
}

/// What a reference-like object appends to the weak-candidate list.
pub open spec fn weak_deferred(base: u64, rk: InstanceRefKlass, no_reference_types: bool) -> Seq<
    u64,
> {
    if !no_reference_types && rk.reference_type is Weak {
        seq![base]
    } else {
        Seq::empty()
    }
}

/// What a reference-like object appends to the soft-candidate list.
pub open spec fn soft_deferred(base: u64, rk: InstanceRefKlass, no_reference_types: bool) -> Seq<
    u64,
> {
    if !no_reference_types && rk.reference_type is Soft {
        seq![base]
    } else {
        Seq::empty()
    }
}

/// What a reference-like object appends to the phantom-candidate list.
pub open spec fn phantom_deferred(base: u64, rk: InstanceRefKlass, no_reference_types: bool) -> Seq<
    u64,
> {
    if !no_reference_types && rk.reference_type is Phantom {
        seq![base]
    } else {
        Seq::empty()
    }
}

/// The full ordered edge sequence a scan of `oop` pushes to the visitor.
pub open spec fn scan_edges(oop: Oop, compressed: bool, no_reference_types: bool) -> Seq<u64> {
    let step = slot_bytes(compressed);
    match oop.klass.kind {
        KlassKind::Instance(ik) => maps_edges(oop.base, ik.oop_maps@, step),
        KlassKind::InstanceClassLoader(ck) => maps_edges(
            oop.base,
            ck.instance_klass.oop_maps@,
            step,
        ),
        KlassKind::InstanceMirror(mk) => maps_edges(oop.base, mk.instance_klass.oop_maps@, step)
            + run_edges(oop.static_base(), oop.static_count(), step),
        KlassKind::ObjArray(_) => run_edges(oop.array_data_start(), oop.array_length(), step),
        KlassKind::TypeArray(_) => Seq::empty(),
        KlassKind::InstanceRef(rk) => maps_edges(oop.base, rk.instance_klass.oop_maps@, step)
            + ref_extra_edges(oop.base, rk, no_reference_types),
    }
}

/// What a scan of `oop` appends to the weak-candidate list.
pub open spec fn scan_weak_deferred(oop: Oop, no_reference_types: bool) -> Seq<u64> {
    match oop.klass.kind {
        KlassKind::InstanceRef(rk) => weak_deferred(oop.base, rk, no_reference_types),
        _ => Seq::empty(),
    }
}

/// What a scan of `oop` appends to the soft-candidate list.
pub open spec fn scan_soft_deferred(oop: Oop, no_reference_types: bool) -> Seq<u64> {
    match oop.klass.kind {
        KlassKind::InstanceRef(rk) => soft_deferred(oop.base, rk, no_reference_types),
        _ => Seq::empty(),
    }
}

/// What a scan of `oop` appends to the phantom-candidate list.
pub open spec fn scan_phantom_deferred(oop: Oop, no_reference_types: bool) -> Seq<u64> {
    match oop.klass.kind {
        KlassKind::InstanceRef(rk) => phantom_deferred(oop.base, rk, no_reference_types),
        _ => Seq::empty(),
    }
}

/// Visits `count` slots, `step` bytes apart, starting at `start`.
pub(crate) fn visit_run<V: EdgeVisitor>(start: u64, count: u64, step: u64, closure: &mut V)
    requires
        run_fits(start, count, step),
    ensures
        final(closure).visited() == old(closure).visited() + run_edges(start, count, step),
{
    let mut addr = start;
    let mut i: u64 = 0;
    while i < count
        invariant
            i <= count,
            run_fits(addr, (count - i) as u64, step),
            closure.visited() + run_edges(addr, (count - i) as u64, step) == old(closure).visited()
                + run_edges(start, count, step),
        decreases count - i,
    {
        proof {
            assert(run_edges(addr, (count - i) as u64, step) == seq![addr] + run_edges(
                (addr + step) as u64,
                (count - i - 1) as u64,
                step,
            ));
            assert(closure.visited().push(addr) + run_edges(
                (addr + step) as u64,
                (count - i - 1) as u64,
                step,
            ) =~= closure.visited() + run_edges(addr, (count - i) as u64, step));
        }
        closure.visit_edge(addr);
        addr = addr + step;
        i = i + 1;
    }
    proof {
        assert(closure.visited() + run_edges(addr, 0, step) =~= closure.visited());
    }
}

impl OopMapBlock {
    /// Visits every slot of this region: `count` slots starting `offset`
    /// bytes past the object's base.
    pub fn oop_iterate<const COMPRESSED: bool, V: EdgeVisitor>(&self, oop: &Oop, closure: &mut V)
        requires
            oop.base + self.offset <= u64::MAX,
            run_fits((oop.base + self.offset) as u64, self.count, slot_bytes(COMPRESSED)),
        ensures
            final(closure).visited() == old(closure).visited() + block_edges(
                oop.base,
                *self,
                slot_bytes(COMPRESSED),
            ),
    {
        let step: u64 = if COMPRESSED {
            4
        } else {
            8
        };
        let start = oop.base + self.offset;
        visit_run(start, self.count, step, closure);
    }
}

impl InstanceKlass {
    /// Visits every region of the reference-region table, in table order.
    pub fn oop_iterate<const COMPRESSED: bool, V: EdgeVisitor>(&self, oop: &Oop, closure: &mut V)
        requires
            maps_fit(oop.base, self.oop_maps@, slot_bytes(COMPRESSED)),
        ensures
            final(closure).visited() == old(closure).visited() + maps_edges(
                oop.base,
                self.oop_maps@,
                slot_bytes(COMPRESSED),
            ),
    {
        let n = self.oop_maps.len();
        let mut idx: usize = 0;
        while idx < n
            invariant
                idx <= n,
                n == self.oop_maps.len(),
                maps_fit(oop.base, self.oop_maps@, slot_bytes(COMPRESSED)),
                closure.visited() == old(closure).visited() + maps_edges(
                    oop.base,
                    self.oop_maps@.take(idx as int),
                    slot_bytes(COMPRESSED),
                ),
            decreases n - idx,
        {
            let block = self.oop_maps[idx];
            block.oop_iterate::<COMPRESSED, V>(oop, closure);
            proof {
                let maps = self.oop_maps@;
                let step = slot_bytes(COMPRESSED);
                assert(maps.take(idx as int + 1).drop_last() =~= maps.take(idx as int));
                assert(maps.take(idx as int + 1).last() == block);
                assert(closure.visited() =~= old(closure).visited() + maps_edges(
                    oop.base,
                    maps.take(idx as int + 1),
                    step,
                ));
            }
            idx = idx + 1;
        }
        proof {
            assert(self.oop_maps@.take(n as int) =~= self.oop_maps@);
        }
    }
}

impl InstanceMirrorKlass {
    /// Visits the instance part's regions, then the mirror's static-field
    /// run, whose base and count are read from the object itself.
    pub fn oop_iterate<const COMPRESSED: bool, V: EdgeVisitor>(&self, oop: &Oop, closure: &mut V)
        requires
            maps_fit(oop.base, self.instance_klass.oop_maps@, slot_bytes(COMPRESSED)),
            oop.payload is Mirror,
            run_fits(oop.static_base(), oop.static_count(), slot_bytes(COMPRESSED)),
        ensures
            final(closure).visited() == old(closure).visited() + maps_edges(
                oop.base,
                self.instance_klass.oop_maps@,
                slot_bytes(COMPRESSED),
            ) + run_edges(oop.static_base(), oop.static_count(), slot_bytes(COMPRESSED)),
    {
        self.instance_klass.oop_iterate::<COMPRESSED, V>(oop, closure);
        let step: u64 = if COMPRESSED {
            4
        } else {
            8
        };
        match &oop.payload {
            ObjPayload::Mirror { static_base, static_count } => {
                visit_run(*static_base, *static_count, step, closure);
            },
            _ => {
                proof {
                    assert(false);
                }
            },
        }
    }
}

impl InstanceClassLoaderKlass {
    /// Scans exactly as a plain instance: class-loader metadata propagation
    /// is out of scope, so there are no extra slots.
    pub fn oop_iterate<const COMPRESSED: bool, V: EdgeVisitor>(&self, oop: &Oop, closure: &mut V)
        requires
            maps_fit(oop.base, self.instance_klass.oop_maps@, slot_bytes(COMPRESSED)),
        ensures
            final(closure).visited() == old(closure).visited() + maps_edges(
                oop.base,
                self.instance_klass.oop_maps@,
                slot_bytes(COMPRESSED),
            ),
    {
        self.instance_klass.oop_iterate::<COMPRESSED, V>(oop, closure);
    }
}

impl ObjArrayKlass {
    /// Visits every element slot of a reference array, from element 0 to the
    /// declared length.
    pub fn oop_iterate<const COMPRESSED: bool, V: EdgeVisitor>(&self, oop: &Oop, closure: &mut V)
        requires
            oop.payload is Array,
            run_fits(oop.array_data_start(), oop.array_length(), slot_bytes(COMPRESSED)),
        ensures
            final(closure).visited() == old(closure).visited() + run_edges(
                oop.array_data_start(),
                oop.array_length(),
                slot_bytes(COMPRESSED),
            ),
    {
        let step: u64 = if COMPRESSED {
            4
        } else {
            8
        };
        match &oop.payload {
            ObjPayload::Array { data_start, length } => {
                visit_run(*data_start, *length, step, closure);
            },
            _ => {
                proof {
                    assert(false);
                }
            },
        }
    }
}

impl TypeArrayKlass {
    /// Primitive arrays hold no reference slots; skipping them entirely is a
    /// required property, not just an optimization.
    pub fn oop_iterate<const COMPRESSED: bool, V: EdgeVisitor>(&self, _oop: &Oop, _closure: &mut V)
        ensures
            final(_closure).visited() == old(_closure).visited(),
    {
    }
}

impl InstanceRefKlass {
    /// Whether weak/soft/phantom categories are deferred at all; the
    /// runtime-wide "disable reference-category handling" flag turns the
    /// deferral off.
    pub fn should_scan_weak_refs(no_reference_types: bool) -> (r: bool)
        ensures
            r == !no_reference_types,
    {
        !no_reference_types
    }

    /// Visits the referent and discovered slots as if they were the fields
    /// of a plain two-field instance.
    pub fn process_ref_as_strong<V: EdgeVisitor>(&self, oop: &Oop, closure: &mut V)
        requires
            oop.base + self.referent_offset <= u64::MAX,
            oop.base + self.discovered_offset <= u64::MAX,
        ensures
            final(closure).visited() == old(closure).visited() + seq![
                (oop.base + self.referent_offset) as u64,
                (oop.base + self.discovered_offset) as u64,
            ],
    {
        let referent_addr = oop.base + self.referent_offset;
        closure.visit_edge(referent_addr);
        let discovered_addr = oop.base + self.discovered_offset;
        closure.visit_edge(discovered_addr);
        proof {
            assert(old(closure).visited().push(referent_addr).push(discovered_addr) =~= old(
                closure,
            ).visited() + seq![referent_addr, discovered_addr]);
        }
    }

    /// Visits the instance part's regions, then classifies by reference
    /// category: a deferred category appends the object to its candidate
    /// list and visits no referent; `Final` and `Other`, or any category
    /// while handling is disabled, are treated as strong references.
    pub fn oop_iterate<const COMPRESSED: bool, V: EdgeVisitor>(
        &self,
        oop: &Oop,
        closure: &mut V,
        deferral: &mut Deferral,
        no_reference_types: bool,
    )
        requires
            maps_fit(oop.base, self.instance_klass.oop_maps@, slot_bytes(COMPRESSED)),
            !(self.reference_type is RefNone),
            oop.base + self.referent_offset <= u64::MAX,
            oop.base + self.discovered_offset <= u64::MAX,
        ensures
            final(closure).visited() == old(closure).visited() + maps_edges(
                oop.base,
                self.instance_klass.oop_maps@,
                slot_bytes(COMPRESSED),
            ) + ref_extra_edges(oop.base, *self, no_reference_types),
            final(deferral).weak@ == old(deferral).weak@ + weak_deferred(
                oop.base,
                *self,
                no_reference_types,
            ),
            final(deferral).soft@ == old(deferral).soft@ + soft_deferred(
                oop.base,
                *self,
                no_reference_types,
            ),
            final(deferral).phantom@ == old(deferral).phantom@ + phantom_deferred(
                oop.base,
                *self,
                no_reference_types,
            ),
    {
        self.instance_klass.oop_iterate::<COMPRESSED, V>(oop, closure);
        if Self::should_scan_weak_refs(no_reference_types) {
            let reference = oop.base;
            match self.reference_type {
                ReferenceType::RefNone => {
                    proof {
                        assert(false);
                    }
                },
                ReferenceType::Weak => deferral.add_weak_candidate(reference),
                ReferenceType::Soft => deferral.add_soft_candidate(reference),
                ReferenceType::Phantom => deferral.add_phantom_candidate(reference),
                ReferenceType::Final | ReferenceType::Other => {
                    self.process_ref_as_strong(oop, closure);
                },
            }
        } else {
            self.process_ref_as_strong(oop, closure);
        }
        proof {
            lemma_seq_add_empty(closure.visited());
            lemma_seq_add_empty(deferral.weak@);
            lemma_seq_add_empty(deferral.soft@);
            lemma_seq_add_empty(deferral.phantom@);
            lemma_seq_push_units(old(deferral).weak@, oop.base);
            lemma_seq_push_units(old(deferral).soft@, oop.base);
            lemma_seq_push_units(old(deferral).phantom@, oop.base);
        }
    }
}

/// Reads the object's category tag and dispatches to exactly one category
/// scanner.  Every edge of the object is pushed to the visitor before the
/// call returns; weak-style referents go to the deferral lists instead,
/// under the policy flag.
pub fn oop_iterate<const COMPRESSED: bool, V: EdgeVisitor>(
    oop: &Oop,
    closure: &mut V,
    deferral: &mut Deferral,
    no_reference_types: bool,
)
    requires
        oop.wf(COMPRESSED),
    ensures
        final(closure).visited() == old(closure).visited() + scan_edges(
            *oop,
            COMPRESSED,
            no_reference_types,
        ),
        final(deferral).weak@ == old(deferral).weak@ + scan_weak_deferred(
            *oop,
            no_reference_types,
        ),
        final(deferral).soft@ == old(deferral).soft@ + scan_soft_deferred(
            *oop,
            no_reference_types,
        ),
        final(deferral).phantom@ == old(deferral).phantom@ + scan_phantom_deferred(
            *oop,
            no_reference_types,
        ),
{
    match &oop.klass.kind {
        KlassKind::Instance(instance_klass) => {
            instance_klass.oop_iterate::<COMPRESSED, V>(oop, closure);
        },
        KlassKind::InstanceClassLoader(instance_klass) => {
            instance_klass.oop_iterate::<COMPRESSED, V>(oop, closure);
        },
        KlassKind::InstanceMirror(instance_klass) => {
            instance_klass.oop_iterate::<COMPRESSED, V>(oop, closure);
            proof {
                let m = maps_edges(
                    oop.base,
                    oop.klass.instance_oop_maps(),
                    slot_bytes(COMPRESSED),
                );
                let r = run_edges(oop.static_base(), oop.static_count(), slot_bytes(COMPRESSED));
                assert((old(closure).visited() + m) + r =~= old(closure).visited() + (m + r));
            }
        },
        KlassKind::ObjArray(array_klass) => {
            array_klass.oop_iterate::<COMPRESSED, V>(oop, closure);
        },
        KlassKind::TypeArray(_) => {
            // Skip scanning primitive arrays as they contain no reference fields.
        },
        KlassKind::InstanceRef(instance_klass) => {
            instance_klass.oop_iterate::<COMPRESSED, V>(oop, closure, deferral, no_reference_types);
            proof {
                let m = maps_edges(
                    oop.base,
                    oop.klass.instance_oop_maps(),
                    slot_bytes(COMPRESSED),
                );
                let e = ref_extra_edges(oop.base, oop.klass.kind->InstanceRef_0, no_reference_types);
                assert((old(closure).visited() + m) + e =~= old(closure).visited() + (m + e));
            }
        },
    }
    proof {
        lemma_seq_add_empty(old(closure).visited());
        lemma_seq_add_empty(old(deferral).weak@);
        lemma_seq_add_empty(old(deferral).soft@);
        lemma_seq_add_empty(old(deferral).phantom@);
    }
}

/// Scans one object: enumerates every reference-valued slot in it and pushes
/// each slot's address to the visitor, deferring weak-style referents per the
/// policy flag.
pub fn scan_object<const COMPRESSED: bool, V: EdgeVisitor>(
    object: &Oop,
    closure: &mut V,
    deferral: &mut Deferral,
    no_reference_types: bool,
)
    requires
        object.wf(COMPRESSED),
    ensures
        final(closure).visited() == old(closure).visited() + scan_edges(
            *object,
            COMPRESSED,
            no_reference_types,
        ),
        final(deferral).weak@ == old(deferral).weak@ + scan_weak_deferred(
            *object,
            no_reference_types,
        ),
        final(deferral).soft@ == old(deferral).soft@ + scan_soft_deferred(
            *object,
            no_reference_types,
        ),
        final(deferral).phantom@ == old(deferral).phantom@ + scan_phantom_deferred(
            *object,
            no_reference_types,
        ),
{
    oop_iterate::<COMPRESSED, V>(object, closure, deferral, no_reference_types);
}

/// Whether the object is a reference array.
pub fn is_obj_array(oop: &Oop) -> (r: bool)
    ensures
        r == (oop.klass.spec_id() == KlassID::ObjArray),
{
    oop.klass.id() == KlassID::ObjArray
}

/// Whether the object is a primitive array.
pub fn is_val_array(oop: &Oop) -> (r: bool)
    ensures
        r == (oop.klass.spec_id() == KlassID::TypeArray),
{
    oop.klass.id() == KlassID::TypeArray
}

} // verus!
