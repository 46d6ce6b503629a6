//! Runtime tests of the category scanners and the dispatcher.

use object_scanning::abi::{
    InstanceClassLoaderKlass, InstanceKlass, InstanceMirrorKlass, InstanceRefKlass, Klass,
    KlassKind, ObjArrayKlass, ObjPayload, Oop, OopMapBlock, ReferenceType, TypeArrayKlass,
};
use object_scanning::scanning::{is_obj_array, is_val_array, scan_object};
use object_scanning::sink::{Deferral, EdgeSink, EdgeVisitor};

fn regions(table: &[(u64, u64)]) -> Vec<OopMapBlock> {
    table
        .iter()
        .map(|&(offset, count)| OopMapBlock { offset, count })
        .collect()
}

fn instance_oop(base: u64, table: &[(u64, u64)]) -> Oop {
    Oop {
        base,
        klass: Klass {
            address: 0,
            kind: KlassKind::Instance(InstanceKlass {
                oop_maps: regions(table),
            }),
        },
        payload: ObjPayload::Fields,
    }
}

fn ref_oop(
    base: u64,
    table: &[(u64, u64)],
    reference_type: ReferenceType,
    referent_offset: u64,
    discovered_offset: u64,
) -> Oop {
    Oop {
        base,
        klass: Klass {
            address: 0,
            kind: KlassKind::InstanceRef(InstanceRefKlass {
                instance_klass: InstanceKlass {
                    oop_maps: regions(table),
                },
                reference_type,
                referent_offset,
                discovered_offset,
            }),
        },
        payload: ObjPayload::Fields,
    }
}

fn scan_full(oop: &Oop, no_reference_types: bool) -> (Vec<u64>, Deferral) {
    let mut sink = EdgeSink::new();
    let mut deferral = Deferral::new();
    scan_object::<false, EdgeSink>(oop, &mut sink, &mut deferral, no_reference_types);
    (sink.edges, deferral)
}

fn scan_compressed(oop: &Oop, no_reference_types: bool) -> (Vec<u64>, Deferral) {
    let mut sink = EdgeSink::new();
    let mut deferral = Deferral::new();
    scan_object::<true, EdgeSink>(oop, &mut sink, &mut deferral, no_reference_types);
    (sink.edges, deferral)
}

#[test]
fn instance_region_table_scenario() {
    // Reference-Region Table [(16, 2), (40, 1)], slot width 8: edges at
    // O+16, O+24, O+40, in that order.
    let oop = instance_oop(1000, &[(16, 2), (40, 1)]);
    let (edges, deferral) = scan_full(&oop, false);
    assert_eq!(edges, vec![1016, 1024, 1040]);
    assert!(deferral.weak.is_empty());
    assert!(deferral.soft.is_empty());
    assert!(deferral.phantom.is_empty());
}

#[test]
fn instance_region_table_compressed_width() {
    // The same table under the compressed width: slots are 4 bytes apart.
    let oop = instance_oop(1000, &[(16, 2), (40, 1)]);
    let (edges, _) = scan_compressed(&oop, false);
    assert_eq!(edges, vec![1016, 1020, 1040]);
}

#[test]
fn instance_empty_region_table() {
    let oop = instance_oop(64, &[]);
    let (edges, _) = scan_full(&oop, false);
    assert!(edges.is_empty());
}

#[test]
fn class_loader_like_delegates_to_instance() {
    let oop = Oop {
        base: 0,
        klass: Klass {
            address: 0,
            kind: KlassKind::InstanceClassLoader(InstanceClassLoaderKlass {
                instance_klass: InstanceKlass {
                    oop_maps: regions(&[(8, 2)]),
                },
            }),
        },
        payload: ObjPayload::Fields,
    };
    let (edges, _) = scan_full(&oop, false);
    assert_eq!(edges, vec![8, 16]);
}

#[test]
fn primitive_array_scans_nothing() {
    // Primitive arrays of any declared length produce zero visited edges.
    for length in [0u64, 1, 7, 4096] {
        let oop = Oop {
            base: 512,
            klass: Klass {
                address: 0,
                kind: KlassKind::TypeArray(TypeArrayKlass {}),
            },
            payload: ObjPayload::Array {
                data_start: 528,
                length,
            },
        };
        let (edges, deferral) = scan_full(&oop, false);
        assert!(edges.is_empty());
        assert!(deferral.weak.is_empty());
        assert!(deferral.soft.is_empty());
        assert!(deferral.phantom.is_empty());
    }
}

#[test]
fn obj_array_one_edge_per_element() {
    // An array of length N produces exactly N edges, one slot width apart,
    // starting at the array's data base.
    let oop = Oop {
        base: 1024,
        klass: Klass {
            address: 0,
            kind: KlassKind::ObjArray(ObjArrayKlass {}),
        },
        payload: ObjPayload::Array {
            data_start: 2000,
            length: 3,
        },
    };
    let (edges, deferral) = scan_full(&oop, false);
    assert_eq!(edges, vec![2000, 2008, 2016]);
    assert!(deferral.weak.is_empty());
}

#[test]
fn obj_array_compressed_width() {
    let oop = Oop {
        base: 1024,
        klass: Klass {
            address: 0,
            kind: KlassKind::ObjArray(ObjArrayKlass {}),
        },
        payload: ObjPayload::Array {
            data_start: 2000,
            length: 4,
        },
    };
    let (edges, _) = scan_compressed(&oop, false);
    assert_eq!(edges, vec![2000, 2004, 2008, 2012]);
}

#[test]
fn obj_array_empty() {
    let oop = Oop {
        base: 1024,
        klass: Klass {
            address: 0,
            kind: KlassKind::ObjArray(ObjArrayKlass {}),
        },
        payload: ObjPayload::Array {
            data_start: 2000,
            length: 0,
        },
    };
    let (edges, _) = scan_full(&oop, false);
    assert!(edges.is_empty());
}

#[test]
fn mirror_appends_static_field_run() {
    // Instance-delegated edges first, then K static-field edges at the
    // computed base, one slot width apart.
    let oop = Oop {
        base: 100,
        klass: Klass {
            address: 0,
            kind: KlassKind::InstanceMirror(InstanceMirrorKlass {
                instance_klass: InstanceKlass {
                    oop_maps: regions(&[(16, 1)]),
                },
            }),
        },
        payload: ObjPayload::Mirror {
            static_base: 3000,
            static_count: 2,
        },
    };
    let (edges, _) = scan_full(&oop, false);
    assert_eq!(edges, vec![116, 3000, 3008]);
}

#[test]
fn mirror_no_static_fields() {
    let oop = Oop {
        base: 100,
        klass: Klass {
            address: 0,
            kind: KlassKind::InstanceMirror(InstanceMirrorKlass {
                instance_klass: InstanceKlass {
                    oop_maps: regions(&[(16, 1)]),
                },
            }),
        },
        payload: ObjPayload::Mirror {
            static_base: 3000,
            static_count: 0,
        },
    };
    let (edges, _) = scan_full(&oop, false);
    assert_eq!(edges, vec![116]);
}

#[test]
fn weak_ref_is_deferred() {
    // A weak reference yields its instance-delegated edges, no referent
    // edge, and exactly one weak-candidate entry holding the object itself.
    let oop = ref_oop(500, &[(16, 1)], ReferenceType::Weak, 24, 32);
    let (edges, deferral) = scan_full(&oop, false);
    assert_eq!(edges, vec![516]);
    assert_eq!(deferral.weak, vec![500]);
    assert!(deferral.soft.is_empty());
    assert!(deferral.phantom.is_empty());
}

#[test]
fn weak_ref_with_handling_disabled_is_strong() {
    // With the "disable reference-category handling" flag set, the same
    // object yields the referent and discovered slots and no deferral call.
    let oop = ref_oop(500, &[(16, 1)], ReferenceType::Weak, 24, 32);
    let (edges, deferral) = scan_full(&oop, true);
    assert_eq!(edges, vec![516, 524, 532]);
    assert!(deferral.weak.is_empty());
    assert!(deferral.soft.is_empty());
    assert!(deferral.phantom.is_empty());
}

#[test]
fn soft_ref_is_deferred() {
    let oop = ref_oop(640, &[], ReferenceType::Soft, 16, 24);
    let (edges, deferral) = scan_full(&oop, false);
    assert!(edges.is_empty());
    assert!(deferral.weak.is_empty());
    assert_eq!(deferral.soft, vec![640]);
    assert!(deferral.phantom.is_empty());
}

#[test]
fn phantom_ref_is_deferred() {
    let oop = ref_oop(640, &[], ReferenceType::Phantom, 16, 24);
    let (edges, deferral) = scan_full(&oop, false);
    assert!(edges.is_empty());
    assert!(deferral.weak.is_empty());
    assert!(deferral.soft.is_empty());
    assert_eq!(deferral.phantom, vec![640]);
}

#[test]
fn final_ref_treated_as_strong() {
    // Category Final, referent offset 16, discovered offset 24: two edges
    // O+16 and O+24, no deferral call.
    let oop = ref_oop(100, &[], ReferenceType::Final, 16, 24);
    let (edges, deferral) = scan_full(&oop, false);
    assert_eq!(edges, vec![116, 124]);
    assert!(deferral.weak.is_empty());
    assert!(deferral.soft.is_empty());
    assert!(deferral.phantom.is_empty());
}

#[test]
fn other_ref_treated_as_strong() {
    let oop = ref_oop(100, &[(8, 1)], ReferenceType::Other, 16, 24);
    let (edges, deferral) = scan_full(&oop, false);
    assert_eq!(edges, vec![108, 116, 124]);
    assert!(deferral.weak.is_empty());
}

#[test]
fn process_ref_as_strong_visits_both_slots() {
    let rk = InstanceRefKlass {
        instance_klass: InstanceKlass {
            oop_maps: Vec::new(),
        },
        reference_type: ReferenceType::Final,
        referent_offset: 16,
        discovered_offset: 24,
    };
    let oop = ref_oop(200, &[], ReferenceType::Final, 16, 24);
    let mut sink = EdgeSink::new();
    rk.process_ref_as_strong(&oop, &mut sink);
    assert_eq!(sink.edges, vec![216, 224]);
}

#[test]
fn should_scan_weak_refs_follows_flag() {
    assert!(InstanceRefKlass::should_scan_weak_refs(false));
    assert!(!InstanceRefKlass::should_scan_weak_refs(true));
}

#[test]
fn category_predicates() {
    let array = Oop {
        base: 0,
        klass: Klass {
            address: 0,
            kind: KlassKind::ObjArray(ObjArrayKlass {}),
        },
        payload: ObjPayload::Array {
            data_start: 16,
            length: 0,
        },
    };
    let primitive = Oop {
        base: 0,
        klass: Klass {
            address: 0,
            kind: KlassKind::TypeArray(TypeArrayKlass {}),
        },
        payload: ObjPayload::Array {
            data_start: 16,
            length: 0,
        },
    };
    let plain = instance_oop(0, &[]);
    assert!(is_obj_array(&array));
    assert!(!is_val_array(&array));
    assert!(is_val_array(&primitive));
    assert!(!is_obj_array(&primitive));
    assert!(!is_obj_array(&plain));
    assert!(!is_val_array(&plain));
}

#[test]
fn visitor_keeps_edge_order() {
    let mut sink = EdgeSink::new();
    sink.visit_edge(3);
    sink.visit_edge(1);
    sink.visit_edge(2);
    assert_eq!(sink.edges, vec![3, 1, 2]);
}

#[test]
fn deferral_lists_are_independent() {
    let mut deferral = Deferral::new();
    deferral.add_weak_candidate(10);
    deferral.add_soft_candidate(20);
    deferral.add_phantom_candidate(30);
    deferral.add_weak_candidate(11);
    assert_eq!(deferral.weak, vec![10, 11]);
    assert_eq!(deferral.soft, vec![20]);
    assert_eq!(deferral.phantom, vec![30]);
}
