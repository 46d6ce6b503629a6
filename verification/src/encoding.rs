//! The alignment-encoding fast path.
//!
//! A type descriptor's address is word-aligned, so its low bits are free; a
//! 3-bit pattern tag packed into them names one of 8 canonical reference
//! layouts.  Decoding is a mask and a shift; the decode/encode pair is a
//! proved round-trip identity.  For a decoded pattern other than `Fallback`
//! the scanner visits the pattern's fixed slots directly and never walks the
//! reference-region table; `Fallback` routes to the full category dispatcher.

use vstd::prelude::*;

use crate::abi::{Klass, ObjPayload, Oop};
use crate::edges::{lemma_seq_add_empty, lemma_seq_push_units, run_edges, run_fits};
use crate::scanning::{
    oop_iterate, scan_edges, scan_phantom_deferred, scan_soft_deferred, scan_weak_deferred,
    visit_run,
};
use crate::sink::{Deferral, EdgeVisitor};

verus! {

/// Width in bits of the pattern tag packed into a descriptor's address.
pub const FIELD_WIDTH: u64 = 3;

/// How many patterns the tag can name: two to the `FIELD_WIDTH`.
pub const MAX_ALIGN_WORDS: u64 = 8;

/// The tag sits just above the word-alignment bits of the address.
pub const FIELD_SHIFT: u64 = 3;

/// Mask selecting the tag bits of a descriptor's address:
/// `MAX_ALIGN_WORDS - 1` shifted up by `FIELD_SHIFT`.
pub const KLASS_MASK: u64 = 0x38;

/// Bytes in a machine word; the encoded patterns' fixed base is two words
/// past the object's base, and their slots are one word each.
pub const BYTES_IN_WORD: u64 = 8;

/// The closed catalogue of alignment-encoded layout patterns: no reference
/// fields, a handful of fixed field positions past the two-word header, a
/// reference array, or a layout the encoding cannot express.
#[derive(Clone, Copy, Debug, PartialEq, Eq, Structural)]
pub enum AlignmentEncodingPattern {
    Fallback,
    RefArray,
    NoRef,
    Ref0,
    Ref1_2_3,
    Ref4_5_6,
    Ref2,
    Ref0_1,
}

/// The 3-bit code of a pattern.
pub open spec fn spec_pattern_code(p: AlignmentEncodingPattern) -> u8 {
    match p {
        AlignmentEncodingPattern::NoRef => 0,
        AlignmentEncodingPattern::Ref0 => 1,
        AlignmentEncodingPattern::Ref1_2_3 => 2,
        AlignmentEncodingPattern::Ref4_5_6 => 3,
        AlignmentEncodingPattern::Ref2 => 4,
        AlignmentEncodingPattern::Ref0_1 => 5,
        AlignmentEncodingPattern::RefArray => 6,
        AlignmentEncodingPattern::Fallback => 7,
    }
}

/// The pattern a 3-bit code names.
pub open spec fn spec_pattern_from_code(code: u8) -> AlignmentEncodingPattern {
    if code == 0 {
        AlignmentEncodingPattern::NoRef
    } else if code == 1 {
        AlignmentEncodingPattern::Ref0
    } else if code == 2 {
        AlignmentEncodingPattern::Ref1_2_3
    } else if code == 3 {
        AlignmentEncodingPattern::Ref4_5_6
    } else if code == 4 {
        AlignmentEncodingPattern::Ref2
    } else if code == 5 {
        AlignmentEncodingPattern::Ref0_1
    } else if code == 6 {
        AlignmentEncodingPattern::RefArray
    } else {
        AlignmentEncodingPattern::Fallback
    }
}

/// Decoding then encoding a 3-bit code gives the code back.
pub proof fn lemma_alignment_code_round_trip(code: u8)
    requires
        code < 8,
    ensures
        spec_pattern_code(spec_pattern_from_code(code)) == code,
{
}

/// Encoding then decoding a pattern gives the pattern back.
pub proof fn lemma_alignment_pattern_round_trip(p: AlignmentEncodingPattern)
    ensures
        spec_pattern_from_code(spec_pattern_code(p)) == p,
{
}

/// The pattern named by the given 3-bit code.
pub fn pattern_from_code(code: u8) -> (r: AlignmentEncodingPattern)
    requires
        code < 8,
    ensures
        r == spec_pattern_from_code(code),
{
    match code {
        0 => AlignmentEncodingPattern::NoRef,
        1 => AlignmentEncodingPattern::Ref0,
        2 => AlignmentEncodingPattern::Ref1_2_3,
        3 => AlignmentEncodingPattern::Ref4_5_6,
        4 => AlignmentEncodingPattern::Ref2,
        5 => AlignmentEncodingPattern::Ref0_1,
        6 => AlignmentEncodingPattern::RefArray,
        _ => AlignmentEncodingPattern::Fallback,
    }
}

/// The 3-bit code of the given pattern.
pub fn pattern_code(p: AlignmentEncodingPattern) -> (r: u8)
    ensures
        r == spec_pattern_code(p),
        r < 8,
{
    match p {
        AlignmentEncodingPattern::NoRef => 0,
        AlignmentEncodingPattern::Ref0 => 1,
        AlignmentEncodingPattern::Ref1_2_3 => 2,
        AlignmentEncodingPattern::Ref4_5_6 => 3,
        AlignmentEncodingPattern::Ref2 => 4,
        AlignmentEncodingPattern::Ref0_1 => 5,
        AlignmentEncodingPattern::RefArray => 6,
        AlignmentEncodingPattern::Fallback => 7,
    }
}

/// The 3-bit tag carried in the spare low bits of a descriptor's address.
pub open spec fn klass_align_code(address: u64) -> u8 {
    ((address & KLASS_MASK) >> FIELD_SHIFT) as u8
}

/// The mask/shift pair that reads a layout-pattern tag out of a type
/// descriptor's address.
pub struct AlignmentEncoding {}

impl AlignmentEncoding {
    /// Decodes the pattern tag packed into the descriptor's address.
    pub fn get_klass_code_for_region(klass: &Klass) -> (r: AlignmentEncodingPattern)
        ensures
            r == spec_pattern_from_code(klass_align_code(klass.address)),
    {
        let align_code = (klass.address & KLASS_MASK) >> FIELD_SHIFT;
        proof {
            let a = klass.address;
            assert((a & 0x38) >> 3u64 < 8) by (bit_vector);
        }
        let ret = pattern_from_code(align_code as u8);
        proof {
            // the encode direction recovers the decoded 3-bit code exactly
            lemma_alignment_code_round_trip(align_code as u8);
            assert(spec_pattern_code(ret) == align_code);
        }
        ret
    }
}

/// What the fast path demands of an object before it may visit the decoded
/// pattern's slots: `Fallback` needs the full well-formedness of the slow
/// path; `RefArray` is only valid under the full reference width; a fixed
/// pattern only needs its fixed slots to lie in the address space.
pub open spec fn pattern_fits(p: AlignmentEncodingPattern, oop: Oop, compressed: bool) -> bool {
    match p {
        AlignmentEncodingPattern::Fallback => oop.wf(compressed),
        AlignmentEncodingPattern::RefArray => {
            &&& !compressed
            &&& oop.payload is Array
            &&& run_fits(oop.array_data_start(), oop.array_length(), 8)
        },
        AlignmentEncodingPattern::NoRef => true,
        _ => oop.base + 8 * BYTES_IN_WORD <= u64::MAX,
    }
}

/// The edges the fast path pushes for a decoded pattern: the pattern's fixed
/// word-wide slots past the two-word header, the whole element run for
/// `RefArray`, or exactly the slow path's edges for `Fallback`.
pub open spec fn pattern_edges(
    p: AlignmentEncodingPattern,
    oop: Oop,
    compressed: bool,
    no_reference_types: bool,
) -> Seq<u64> {
    match p {
        AlignmentEncodingPattern::Fallback => scan_edges(oop, compressed, no_reference_types),
        AlignmentEncodingPattern::RefArray => run_edges(
            oop.array_data_start(),
            oop.array_length(),
            8,
        ),
        AlignmentEncodingPattern::NoRef => Seq::empty(),
        AlignmentEncodingPattern::Ref0 => seq![(oop.base + 16) as u64],
        AlignmentEncodingPattern::Ref1_2_3 => seq![
            (oop.base + 24) as u64,
            (oop.base + 32) as u64,
            (oop.base + 40) as u64,
        ],
        AlignmentEncodingPattern::Ref4_5_6 => seq![
            (oop.base + 48) as u64,
            (oop.base + 56) as u64,
            (oop.base + 64) as u64,
        ],
        AlignmentEncodingPattern::Ref2 => seq![(oop.base + 32) as u64],
        AlignmentEncodingPattern::Ref0_1 => seq![(oop.base + 16) as u64, (oop.base + 24) as u64],
    }
}

/// What the fast path appends to the weak-candidate list: only `Fallback`
/// reaches the reference-category scanner.
pub open spec fn pattern_weak_deferred(
    p: AlignmentEncodingPattern,
    oop: Oop,
    no_reference_types: bool,
) -> Seq<u64> {
    if p is Fallback {
        scan_weak_deferred(oop, no_reference_types)
    } else {
        Seq::empty()
    }
}

/// What the fast path appends to the soft-candidate list.
pub open spec fn pattern_soft_deferred(
    p: AlignmentEncodingPattern,
    oop: Oop,
    no_reference_types: bool,
) -> Seq<u64> {
    if p is Fallback {
        scan_soft_deferred(oop, no_reference_types)
    } else {
        Seq::empty()
    }
}

/// What the fast path appends to the phantom-candidate list.
pub open spec fn pattern_phantom_deferred(
    p: AlignmentEncodingPattern,
    oop: Oop,
    no_reference_types: bool,
) -> Seq<u64> {
    if p is Fallback {
        scan_phantom_deferred(oop, no_reference_types)
    } else {
        Seq::empty()
    }
}

impl AlignmentEncodingPattern {
    /// Visits the slots this pattern encodes, without walking the
    /// reference-region table; `Fallback` routes to the category dispatcher.
    pub fn oop_iterate<const COMPRESSED: bool, V: EdgeVisitor>(
        &self,
        oop: &Oop,
        closure: &mut V,
        deferral: &mut Deferral,
        no_reference_types: bool,
    )
        requires
            pattern_fits(*self, *oop, COMPRESSED),
        ensures
            final(closure).visited() == old(closure).visited() + pattern_edges(
                *self,
                *oop,
                COMPRESSED,
                no_reference_types,
            ),
            final(deferral).weak@ == old(deferral).weak@ + pattern_weak_deferred(
                *self,
                *oop,
                no_reference_types,
            ),
            final(deferral).soft@ == old(deferral).soft@ + pattern_soft_deferred(
                *self,
                *oop,
                no_reference_types,
            ),
            final(deferral).phantom@ == old(deferral).phantom@ + pattern_phantom_deferred(
                *self,
                *oop,
                no_reference_types,
            ),
    {
        match self {
            AlignmentEncodingPattern::Fallback => {
                oop_iterate::<COMPRESSED, V>(oop, closure, deferral, no_reference_types);
            },
            AlignmentEncodingPattern::RefArray => {
                // only valid under the full width: the precondition rejects
                // compressed references for this pattern
                match &oop.payload {
                    ObjPayload::Array { data_start, length } => {
                        visit_run(*data_start, *length, 8, closure);
                    },
                    _ => {
                        proof {
                            assert(false);
                        }
                    },
                }
            },
            AlignmentEncodingPattern::NoRef => {},
            AlignmentEncodingPattern::Ref0 => {
                // the first field is a reference: offset 16 from the object
                let start = oop.base + 2 * BYTES_IN_WORD;
                closure.visit_edge(start);
                proof {
                    lemma_seq_push_units(old(closure).visited(), start);
                }
            },
            AlignmentEncodingPattern::Ref1_2_3 => {
                let start = oop.base + 2 * BYTES_IN_WORD;
                closure.visit_edge(start + BYTES_IN_WORD);
                closure.visit_edge(start + 2 * BYTES_IN_WORD);
                closure.visit_edge(start + 3 * BYTES_IN_WORD);
                proof {
                    assert(old(closure).visited().push((start + 8) as u64).push(
                        (start + 16) as u64,
                    ).push((start + 24) as u64) =~= old(closure).visited() + pattern_edges(
                        *self,
                        *oop,
                        COMPRESSED,
                        no_reference_types,
                    ));
                }
            },
            AlignmentEncodingPattern::Ref4_5_6 => {
                let start = oop.base + 2 * BYTES_IN_WORD;
                closure.visit_edge(start + 4 * BYTES_IN_WORD);
                closure.visit_edge(start + 5 * BYTES_IN_WORD);
                closure.visit_edge(start + 6 * BYTES_IN_WORD);
                proof {
                    assert(old(closure).visited().push((start + 32) as u64).push(
                        (start + 40) as u64,
                    ).push((start + 48) as u64) =~= old(closure).visited() + pattern_edges(
                        *self,
                        *oop,
                        COMPRESSED,
                        no_reference_types,
                    ));
                }
            },
            AlignmentEncodingPattern::Ref2 => {
                let start = oop.base + 2 * BYTES_IN_WORD;
                closure.visit_edge(start + 2 * BYTES_IN_WORD);
                proof {
                    lemma_seq_push_units(old(closure).visited(), (start + 16) as u64);
                }
            },
            AlignmentEncodingPattern::Ref0_1 => {
                let start = oop.base + 2 * BYTES_IN_WORD;
                closure.visit_edge(start);
                closure.visit_edge(start + BYTES_IN_WORD);
                proof {
                    assert(old(closure).visited().push(start).push((start + 8) as u64) =~= old(
                        closure,
                    ).visited() + pattern_edges(*self, *oop, COMPRESSED, no_reference_types));
                }
            },
        }
        proof {
            lemma_seq_add_empty(old(closure).visited());
            lemma_seq_add_empty(old(deferral).weak@);
            lemma_seq_add_empty(old(deferral).soft@);
            lemma_seq_add_empty(old(deferral).phantom@);
        }
    }
}

/// Scans one object through the fast path: decodes the pattern tag from the
/// descriptor's address and visits the slots that pattern encodes.
pub fn oop_iterate_with_encoding<const COMPRESSED: bool, V: EdgeVisitor>(
    oop: &Oop,
    closure: &mut V,
    deferral: &mut Deferral,
    no_reference_types: bool,
)
    requires
        pattern_fits(spec_pattern_from_code(klass_align_code(oop.klass.address)), *oop, COMPRESSED),
    ensures
        final(closure).visited() == old(closure).visited() + pattern_edges(
            spec_pattern_from_code(klass_align_code(oop.klass.address)),
            *oop,
            COMPRESSED,
            no_reference_types,
        ),
        final(deferral).weak@ == old(deferral).weak@ + pattern_weak_deferred(
            spec_pattern_from_code(klass_align_code(oop.klass.address)),
            *oop,
            no_reference_types,
        ),
        final(deferral).soft@ == old(deferral).soft@ + pattern_soft_deferred(
            spec_pattern_from_code(klass_align_code(oop.klass.address)),
            *oop,
            no_reference_types,
        ),
        final(deferral).phantom@ == old(deferral).phantom@ + pattern_phantom_deferred(
            spec_pattern_from_code(klass_align_code(oop.klass.address)),
            *oop,
            no_reference_types,
        ),
{
    let pattern = AlignmentEncoding::get_klass_code_for_region(&oop.klass);
    pattern.oop_iterate::<COMPRESSED, V>(oop, closure, deferral, no_reference_types);
}

} // verus!
