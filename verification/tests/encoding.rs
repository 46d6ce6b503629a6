//! Runtime tests of the alignment-encoding fast path.

use object_scanning::abi::{
    InstanceKlass, InstanceRefKlass, Klass, KlassKind, ObjArrayKlass, ObjPayload, Oop, OopMapBlock,
    ReferenceType,
};
use object_scanning::encoding::{
    oop_iterate_with_encoding, pattern_code, pattern_from_code, AlignmentEncoding,
    AlignmentEncodingPattern,
};
use object_scanning::scanning::scan_object;
use object_scanning::sink::{Deferral, EdgeSink};

fn instance_oop_with_address(base: u64, address: u64, table: &[(u64, u64)]) -> Oop {
    Oop {
        base,
        klass: Klass {
            address,
            kind: KlassKind::Instance(InstanceKlass {
                oop_maps: table
                    .iter()
                    .map(|&(offset, count)| OopMapBlock { offset, count })
                    .collect(),
            }),
        },
        payload: ObjPayload::Fields,
    }
}

fn fast_scan(oop: &Oop, no_reference_types: bool) -> (Vec<u64>, Deferral) {
    let mut sink = EdgeSink::new();
    let mut deferral = Deferral::new();
    oop_iterate_with_encoding::<false, EdgeSink>(oop, &mut sink, &mut deferral, no_reference_types);
    (sink.edges, deferral)
}

fn slow_scan(oop: &Oop, no_reference_types: bool) -> (Vec<u64>, Deferral) {
    let mut sink = EdgeSink::new();
    let mut deferral = Deferral::new();
    scan_object::<false, EdgeSink>(oop, &mut sink, &mut deferral, no_reference_types);
    (sink.edges, deferral)
}

#[test]
fn alignment_code_round_trip() {
    // decode(encode(decode(c))) == decode(c) for all 8 codes.
    for code in 0u8..8 {
        let pattern = pattern_from_code(code);
        assert_eq!(pattern_code(pattern), code);
        assert_eq!(pattern_from_code(pattern_code(pattern)), pattern);
    }
}

#[test]
fn pattern_codes_are_fixed() {
    assert_eq!(pattern_code(AlignmentEncodingPattern::NoRef), 0);
    assert_eq!(pattern_code(AlignmentEncodingPattern::Ref0), 1);
    assert_eq!(pattern_code(AlignmentEncodingPattern::Ref1_2_3), 2);
    assert_eq!(pattern_code(AlignmentEncodingPattern::Ref4_5_6), 3);
    assert_eq!(pattern_code(AlignmentEncodingPattern::Ref2), 4);
    assert_eq!(pattern_code(AlignmentEncodingPattern::Ref0_1), 5);
    assert_eq!(pattern_code(AlignmentEncodingPattern::RefArray), 6);
    assert_eq!(pattern_code(AlignmentEncodingPattern::Fallback), 7);
}

#[test]
fn tag_is_read_from_descriptor_address() {
    // The 3-bit tag sits in bits 3..6 of the descriptor's address; other
    // bits do not matter.
    for code in 0u8..8 {
        let address = 0x7F40 | ((code as u64) << 3);
        let klass = Klass {
            address,
            kind: KlassKind::Instance(InstanceKlass {
                oop_maps: Vec::new(),
            }),
        };
        let decoded = AlignmentEncoding::get_klass_code_for_region(&klass);
        assert_eq!(decoded, pattern_from_code(code));
    }
}

#[test]
fn fast_path_matches_slow_path_on_canonical_layouts() {
    // For every non-Fallback, non-RefArray pattern, the fast path and the
    // category-dispatcher path produce identical ordered edge sequences on
    // an instance whose region table matches the encoded layout.
    let canonical: [(u8, &[(u64, u64)]); 6] = [
        (0, &[]),           // NoRef
        (1, &[(16, 1)]),    // Ref0
        (2, &[(24, 3)]),    // Ref1_2_3
        (3, &[(48, 3)]),    // Ref4_5_6
        (4, &[(32, 1)]),    // Ref2
        (5, &[(16, 2)]),    // Ref0_1
    ];
    for &(code, table) in canonical.iter() {
        let address = (code as u64) << 3;
        let oop = instance_oop_with_address(4096, address, table);
        let (fast, _) = fast_scan(&oop, false);
        let (slow, _) = slow_scan(&oop, false);
        assert_eq!(fast, slow, "pattern code {code}");
    }
}

#[test]
fn fast_path_matches_slow_path_compressed_split_regions() {
    // Under the compressed width a one-slot region yields its single
    // address whatever the slot width, so a table of one-slot regions at
    // the pattern's byte offsets is equivalent to the pattern there too.
    let canonical: [(u8, &[(u64, u64)]); 6] = [
        (0, &[]),
        (1, &[(16, 1)]),
        (2, &[(24, 1), (32, 1), (40, 1)]),
        (3, &[(48, 1), (56, 1), (64, 1)]),
        (4, &[(32, 1)]),
        (5, &[(16, 1), (24, 1)]),
    ];
    for &(code, table) in canonical.iter() {
        let address = (code as u64) << 3;
        let oop = instance_oop_with_address(8192, address, table);
        let mut fast_sink = EdgeSink::new();
        let mut fast_deferral = Deferral::new();
        oop_iterate_with_encoding::<true, EdgeSink>(
            &oop,
            &mut fast_sink,
            &mut fast_deferral,
            false,
        );
        let mut slow_sink = EdgeSink::new();
        let mut slow_deferral = Deferral::new();
        scan_object::<true, EdgeSink>(&oop, &mut slow_sink, &mut slow_deferral, false);
        assert_eq!(fast_sink.edges, slow_sink.edges, "pattern code {code}");
    }
}

#[test]
fn fast_path_fixed_patterns_exact_edges() {
    let base = 4096u64;
    let cases: [(u8, Vec<u64>); 6] = [
        (0, vec![]),
        (1, vec![base + 16]),
        (2, vec![base + 24, base + 32, base + 40]),
        (3, vec![base + 48, base + 56, base + 64]),
        (4, vec![base + 32]),
        (5, vec![base + 16, base + 24]),
    ];
    for (code, expected) in cases {
        let address = (code as u64) << 3;
        let oop = instance_oop_with_address(base, address, &[]);
        let (fast, deferral) = fast_scan(&oop, false);
        assert_eq!(fast, expected, "pattern code {code}");
        assert!(deferral.weak.is_empty());
    }
}

#[test]
fn fast_path_ref_array_delegates_to_array_rule() {
    let oop = Oop {
        base: 1024,
        klass: Klass {
            address: 6 << 3,
            kind: KlassKind::ObjArray(ObjArrayKlass {}),
        },
        payload: ObjPayload::Array {
            data_start: 1040,
            length: 3,
        },
    };
    let (fast, _) = fast_scan(&oop, false);
    let (slow, _) = slow_scan(&oop, false);
    assert_eq!(fast, vec![1040, 1048, 1056]);
    assert_eq!(fast, slow);
}

#[test]
fn fast_path_fallback_routes_to_dispatcher() {
    // A weak reference cannot be alignment-encoded; its descriptor carries
    // the Fallback tag and the fast path defers exactly as the slow path.
    let oop = Oop {
        base: 500,
        klass: Klass {
            address: 7 << 3,
            kind: KlassKind::InstanceRef(InstanceRefKlass {
                instance_klass: InstanceKlass {
                    oop_maps: vec![OopMapBlock {
                        offset: 16,
                        count: 1,
                    }],
                },
                reference_type: ReferenceType::Weak,
                referent_offset: 24,
                discovered_offset: 32,
            }),
        },
        payload: ObjPayload::Fields,
    };
    let (fast, deferral) = fast_scan(&oop, false);
    assert_eq!(fast, vec![516]);
    assert_eq!(deferral.weak, vec![500]);
    assert!(deferral.soft.is_empty());
    assert!(deferral.phantom.is_empty());
}
