//! Proved properties of the scanner, stated over the same spec functions the
//! scanners' own contracts use: the fast path agrees with the category
//! dispatcher on every layout it claims to handle, primitive arrays yield no
//! edges, reference arrays yield one edge per element, mirrors append their
//! static-field run, and weak references defer exactly as the policy flag
//! says.

use vstd::prelude::*;

use crate::abi::{KlassKind, Oop, OopMapBlock};
use crate::edges::{
    lemma_run_edges_index, lemma_seq_add_empty, maps_edges, run_edges, slot_bytes,
};
use crate::encoding::{pattern_edges, AlignmentEncodingPattern};
use crate::scanning::{
    scan_edges, scan_phantom_deferred, scan_soft_deferred, scan_weak_deferred,
};

verus! {

/// The reference-region table that lays an instance out exactly as a given
/// fixed pattern encodes, under the full reference width: the pattern's
/// field positions, one word each, past the two-word header.
pub open spec fn canonical_oop_maps(p: AlignmentEncodingPattern) -> Seq<OopMapBlock> {
    match p {
        AlignmentEncodingPattern::Ref0 => seq![OopMapBlock { offset: 16, count: 1 }],
        AlignmentEncodingPattern::Ref1_2_3 => seq![OopMapBlock { offset: 24, count: 3 }],
        AlignmentEncodingPattern::Ref4_5_6 => seq![OopMapBlock { offset: 48, count: 3 }],
        AlignmentEncodingPattern::Ref2 => seq![OopMapBlock { offset: 32, count: 1 }],
        AlignmentEncodingPattern::Ref0_1 => seq![OopMapBlock { offset: 16, count: 2 }],
        _ => Seq::empty(),
    }
}

/// For every pattern other than `Fallback` and `RefArray`, the fast path and
/// the category dispatcher produce identical ordered edge sequences on an
/// instance whose reference-region table lays its fields out as the pattern
/// encodes, under the full reference width.
pub proof fn lemma_fast_path_matches_slow_path(
    p: AlignmentEncodingPattern,
    oop: Oop,
    no_reference_types: bool,
)
    requires
        !(p is Fallback),
        !(p is RefArray),
        oop.klass.kind matches KlassKind::Instance(ik) && ik.oop_maps@ == canonical_oop_maps(p),
        oop.base + 64 <= u64::MAX,
    ensures
        pattern_edges(p, oop, false, no_reference_types) == scan_edges(
            oop,
            false,
            no_reference_types,
        ),
{
    reveal_with_fuel(run_edges, 5);
    reveal_with_fuel(maps_edges, 3);
    let maps = canonical_oop_maps(p);
    if maps.len() > 0 {
        assert(maps.drop_last() =~= Seq::<OopMapBlock>::empty());
    }
    assert(pattern_edges(p, oop, false, no_reference_types) =~= scan_edges(
        oop,
        false,
        no_reference_types,
    ));
}

/// The same layouts with every field in a region of its own: the encoded
/// slots are single word-wide fields, so a table of one-slot regions at the
/// same byte offsets describes them under either reference width.
pub open spec fn canonical_slot_maps(p: AlignmentEncodingPattern) -> Seq<OopMapBlock> {
    match p {
        AlignmentEncodingPattern::Ref0 => seq![OopMapBlock { offset: 16, count: 1 }],
        AlignmentEncodingPattern::Ref1_2_3 => seq![
            OopMapBlock { offset: 24, count: 1 },
            OopMapBlock { offset: 32, count: 1 },
            OopMapBlock { offset: 40, count: 1 },
        ],
        AlignmentEncodingPattern::Ref4_5_6 => seq![
            OopMapBlock { offset: 48, count: 1 },
            OopMapBlock { offset: 56, count: 1 },
            OopMapBlock { offset: 64, count: 1 },
        ],
        AlignmentEncodingPattern::Ref2 => seq![OopMapBlock { offset: 32, count: 1 }],
        AlignmentEncodingPattern::Ref0_1 => seq![
            OopMapBlock { offset: 16, count: 1 },
            OopMapBlock { offset: 24, count: 1 },
        ],
        _ => Seq::empty(),
    }
}

/// The fast path also agrees with the dispatcher under either reference
/// width on an instance whose region table holds the pattern's fields as
/// one-slot regions: a one-slot region yields its single address whatever
/// the slot width.
pub proof fn lemma_fast_path_matches_slow_path_split_regions(
    p: AlignmentEncodingPattern,
    oop: Oop,
    compressed: bool,
    no_reference_types: bool,
)
    requires
        !(p is Fallback),
        !(p is RefArray),
        oop.klass.kind matches KlassKind::Instance(ik) && ik.oop_maps@ == canonical_slot_maps(p),
        oop.base + 64 <= u64::MAX,
    ensures
        pattern_edges(p, oop, compressed, no_reference_types) == scan_edges(
            oop,
            compressed,
            no_reference_types,
        ),
{
    reveal_with_fuel(run_edges, 3);
    reveal_with_fuel(maps_edges, 5);
    assert(pattern_edges(p, oop, compressed, no_reference_types) =~= scan_edges(
        oop,
        compressed,
        no_reference_types,
    ));
}

/// On a reference array under the full reference width, the `RefArray`
/// pattern delegates to the same element-run rule the dispatcher applies,
/// so the two paths agree there as well.
pub proof fn lemma_fast_path_ref_array_matches_slow_path(
    oop: Oop,
    no_reference_types: bool,
)
    requires
        oop.klass.kind is ObjArray,
    ensures
        pattern_edges(AlignmentEncodingPattern::RefArray, oop, false, no_reference_types)
            == scan_edges(oop, false, no_reference_types),
{
}

/// A primitive array of any declared length yields no edges and defers
/// nothing.
pub proof fn lemma_primitive_array_scans_nothing(
    oop: Oop,
    compressed: bool,
    no_reference_types: bool,
)
    requires
        oop.klass.kind is TypeArray,
    ensures
        scan_edges(oop, compressed, no_reference_types) == Seq::<u64>::empty(),
        scan_weak_deferred(oop, no_reference_types) == Seq::<u64>::empty(),
        scan_soft_deferred(oop, no_reference_types) == Seq::<u64>::empty(),
        scan_phantom_deferred(oop, no_reference_types) == Seq::<u64>::empty(),
{
}

/// A reference array of declared length `N` yields exactly `N` edges, at
/// consecutive slot-width-spaced addresses starting at the array's data
/// base, and defers nothing.
pub proof fn lemma_obj_array_edges(oop: Oop, compressed: bool, no_reference_types: bool)
    requires
        oop.klass.kind is ObjArray,
        oop.wf(compressed),
    ensures
        scan_edges(oop, compressed, no_reference_types).len() == oop.array_length(),
        forall|i: int|
            0 <= i < oop.array_length() ==> #[trigger] scan_edges(
                oop,
                compressed,
                no_reference_types,
            )[i] == oop.array_data_start() + i * slot_bytes(compressed),
        scan_weak_deferred(oop, no_reference_types) == Seq::<u64>::empty(),
        scan_soft_deferred(oop, no_reference_types) == Seq::<u64>::empty(),
        scan_phantom_deferred(oop, no_reference_types) == Seq::<u64>::empty(),
{
    lemma_run_edges_index(oop.array_data_start(), oop.array_length(), slot_bytes(compressed));
}

/// A mirror object with a declared static-field count of `K` yields its
/// instance-delegated edges followed by exactly `K` additional edges at the
/// computed static-field base, each one slot-width past the one before.
pub proof fn lemma_mirror_static_fields(oop: Oop, compressed: bool, no_reference_types: bool)
    requires
        oop.klass.kind is InstanceMirror,
        oop.wf(compressed),
    ensures
        scan_edges(oop, compressed, no_reference_types) == maps_edges(
            oop.base,
            oop.klass.instance_oop_maps(),
            slot_bytes(compressed),
        ) + run_edges(oop.static_base(), oop.static_count(), slot_bytes(compressed)),
        scan_edges(oop, compressed, no_reference_types).len() == maps_edges(
            oop.base,
            oop.klass.instance_oop_maps(),
            slot_bytes(compressed),
        ).len() + oop.static_count(),
        run_edges(oop.static_base(), oop.static_count(), slot_bytes(compressed)).len()
            == oop.static_count(),
        forall|i: int|
            0 <= i < oop.static_count() ==> #[trigger] run_edges(
                oop.static_base(),
                oop.static_count(),
                slot_bytes(compressed),
            )[i] == oop.static_base() + i * slot_bytes(compressed),
{
    lemma_run_edges_index(oop.static_base(), oop.static_count(), slot_bytes(compressed));
}

/// A weak-reference instance yields its instance-delegated edges and no
/// referent-slot edge, and goes to the weak-candidate list, and only there;
/// with reference-category handling disabled, the same object instead yields
/// the referent and discovered slots as strong edges and defers nothing.
pub proof fn lemma_weak_ref_scan(oop: Oop, compressed: bool)
    requires
        oop.klass.kind matches KlassKind::InstanceRef(rk) && rk.reference_type is Weak,
    ensures
        scan_edges(oop, compressed, false) == maps_edges(
            oop.base,
            oop.klass.instance_oop_maps(),
            slot_bytes(compressed),
        ),
        scan_weak_deferred(oop, false) == seq![oop.base],
        scan_soft_deferred(oop, false) == Seq::<u64>::empty(),
        scan_phantom_deferred(oop, false) == Seq::<u64>::empty(),
        scan_edges(oop, compressed, true) == maps_edges(
            oop.base,
            oop.klass.instance_oop_maps(),
            slot_bytes(compressed),
        ) + seq![
            (oop.base + oop.klass.referent_offset()) as u64,
            (oop.base + oop.klass.discovered_offset()) as u64,
        ],
        scan_weak_deferred(oop, true) == Seq::<u64>::empty(),
        scan_soft_deferred(oop, true) == Seq::<u64>::empty(),
        scan_phantom_deferred(oop, true) == Seq::<u64>::empty(),
{
    lemma_seq_add_empty(maps_edges(oop.base, oop.klass.instance_oop_maps(), slot_bytes(compressed)));
}

} // verus!
