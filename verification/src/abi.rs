//! The modelled runtime ABI: objects, type descriptors, and the
//! reference-region table.
//!
//! An object is an opaque handle into the managed heap; the scanner reads only
//! its base address, its type descriptor, and the few per-object values that
//! some categories keep in the object itself (an array's length, a mirror's
//! static-field run).  A type descriptor carries the object's category tag
//! and, for the instance family, the reference-region table: an ordered list
//! of (offset, count) pairs naming contiguous runs of reference-valued slots.

use vstd::prelude::*;

use crate::edges::{maps_fit, run_fits, slot_bytes};

verus! {

/// The closed set of object-category tags a type descriptor can carry.
#[derive(Clone, Copy, Debug, PartialEq, Eq, Structural)]
pub enum KlassID {
    Instance,
    InstanceRef,
    InstanceMirror,
    InstanceClassLoader,
    ObjArray,
    TypeArray,
}

/// The reference category recorded for reference-like instances.
///
/// `RefNone` is never observed on a live reference-like object during a scan;
/// the scanners exclude it by precondition.
#[derive(Clone, Copy, Debug, PartialEq, Eq, Structural)]
pub enum ReferenceType {
    RefNone,
    Soft,
    Weak,
    Final,
    Phantom,
    Other,
}

/// One entry of the reference-region table: a run of `count` reference slots
/// starting `offset` bytes past the object's base address.
#[derive(Clone, Copy, Debug, PartialEq, Eq, Structural)]
pub struct OopMapBlock {
    pub offset: u64,
    pub count: u64,
}

/// The instance-family part of a type descriptor: its reference-region table.
pub struct InstanceKlass {
    pub oop_maps: Vec<OopMapBlock>,
}

/// Descriptor of a type-metadata mirror instance.  Its static-field run is
/// read from the object itself, not from the descriptor.
pub struct InstanceMirrorKlass {
    pub instance_klass: InstanceKlass,
}

/// Descriptor of a class-loader-like instance; scans exactly as a plain
/// instance does.
pub struct InstanceClassLoaderKlass {
    pub instance_klass: InstanceKlass,
}

/// Descriptor of a reference array; every element is a reference slot.
pub struct ObjArrayKlass {}

/// Descriptor of a primitive array; objects of this category hold no
/// reference slots at all.
pub struct TypeArrayKlass {}

/// Descriptor of a weak/soft/phantom/final-reference-like instance: a plain
/// instance part plus the byte offsets of the referent and discovered slots.
pub struct InstanceRefKlass {
    pub instance_klass: InstanceKlass,
    pub reference_type: ReferenceType,
    pub referent_offset: u64,
    pub discovered_offset: u64,
}

/// The category-specific payload of a type descriptor.
pub enum KlassKind {
    Instance(InstanceKlass),
    InstanceRef(InstanceRefKlass),
    InstanceMirror(InstanceMirrorKlass),
    InstanceClassLoader(InstanceClassLoaderKlass),
    ObjArray(ObjArrayKlass),
    TypeArray(TypeArrayKlass),
}

/// A type descriptor: its own address in the metadata space (whose spare low
/// bits may carry an alignment-encoding tag) and its category payload.
pub struct Klass {
    pub address: u64,
    pub kind: KlassKind,
}

/// Per-object values that some categories keep in the object itself.
pub enum ObjPayload {
    /// Instance-family objects carry nothing beyond their fields.
    Fields,
    /// A mirror object's static-field run: an absolute base address and a
    /// slot count, both read from the object.
    Mirror { static_base: u64, static_count: u64 },
    /// An array's element run: the absolute address of element 0 and the
    /// declared element count.
    Array { data_start: u64, length: u64 },
}

/// A managed object as the scanner sees it: base address, type descriptor,
/// and the per-object payload its category calls for.
pub struct Oop {
    pub base: u64,
    pub klass: Klass,
    pub payload: ObjPayload,
}

impl Klass {
    /// The category tag this descriptor carries.
    pub open spec fn spec_id(&self) -> KlassID {
        match self.kind {
            KlassKind::Instance(_) => KlassID::Instance,
            KlassKind::InstanceRef(_) => KlassID::InstanceRef,
            KlassKind::InstanceMirror(_) => KlassID::InstanceMirror,
            KlassKind::InstanceClassLoader(_) => KlassID::InstanceClassLoader,
            KlassKind::ObjArray(_) => KlassID::ObjArray,
            KlassKind::TypeArray(_) => KlassID::TypeArray,
        }
    }

    /// Reads the category tag.
    pub fn id(&self) -> (r: KlassID)
        ensures
            r == self.spec_id(),
    {
        match self.kind {
            KlassKind::Instance(_) => KlassID::Instance,
            KlassKind::InstanceRef(_) => KlassID::InstanceRef,
            KlassKind::InstanceMirror(_) => KlassID::InstanceMirror,
            KlassKind::InstanceClassLoader(_) => KlassID::InstanceClassLoader,
            KlassKind::ObjArray(_) => KlassID::ObjArray,
            KlassKind::TypeArray(_) => KlassID::TypeArray,
        }
    }

    /// The reference-region table of the descriptor's instance part, or the
    /// empty table for the array categories.
    pub open spec fn instance_oop_maps(&self) -> Seq<OopMapBlock> {
        match self.kind {
            KlassKind::Instance(ik) => ik.oop_maps@,
            KlassKind::InstanceRef(rk) => rk.instance_klass.oop_maps@,
            KlassKind::InstanceMirror(mk) => mk.instance_klass.oop_maps@,
            KlassKind::InstanceClassLoader(ck) => ck.instance_klass.oop_maps@,
            KlassKind::ObjArray(_) => Seq::empty(),
            KlassKind::TypeArray(_) => Seq::empty(),
        }
    }

    /// The reference category, for reference-like descriptors.
    pub open spec fn ref_type(&self) -> ReferenceType
        recommends
            self.kind is InstanceRef,
    {
        match self.kind {
            KlassKind::InstanceRef(rk) => rk.reference_type,
            _ => ReferenceType::RefNone,
        }
    }

    /// The referent slot's byte offset, for reference-like descriptors.
    pub open spec fn referent_offset(&self) -> u64
        recommends
            self.kind is InstanceRef,
    {
        match self.kind {
            KlassKind::InstanceRef(rk) => rk.referent_offset,
            _ => 0,
        }
    }

    /// The discovered slot's byte offset, for reference-like descriptors.
    pub open spec fn discovered_offset(&self) -> u64
        recommends
            self.kind is InstanceRef,
    {
        match self.kind {
            KlassKind::InstanceRef(rk) => rk.discovered_offset,
            _ => 0,
        }
    }
}

impl Oop {
    /// The address of element 0, for array objects.
    pub open spec fn array_data_start(&self) -> u64
        recommends
            self.payload is Array,
    {
        match self.payload {
            ObjPayload::Array { data_start, .. } => data_start,
            _ => 0,
        }
    }

    /// The declared element count, for array objects.
    pub open spec fn array_length(&self) -> u64
        recommends
            self.payload is Array,
    {
        match self.payload {
            ObjPayload::Array { length, .. } => length,
            _ => 0,
        }
    }

    /// The static-field run's base address, for mirror objects.
    pub open spec fn static_base(&self) -> u64
        recommends
            self.payload is Mirror,
    {
        match self.payload {
            ObjPayload::Mirror { static_base, .. } => static_base,
            _ => 0,
        }
    }

    /// The static-field run's slot count, for mirror objects.
    pub open spec fn static_count(&self) -> u64
        recommends
            self.payload is Mirror,
    {
        match self.payload {
            ObjPayload::Mirror { static_count, .. } => static_count,
            _ => 0,
        }
    }

    /// Well-formedness of an object under a given reference width: the
    /// payload matches the category, every slot run the scanners will walk
    /// stays within the address space, and a live reference-like object
    /// never carries the `RefNone` category.
    pub open spec fn wf(&self, compressed: bool) -> bool {
        let step = slot_bytes(compressed);
        &&& maps_fit(self.base, self.klass.instance_oop_maps(), step)
        &&& match self.klass.kind {
            KlassKind::Instance(_) => self.payload is Fields,
            KlassKind::InstanceClassLoader(_) => self.payload is Fields,
            KlassKind::InstanceMirror(_) => {
                &&& self.payload is Mirror
                &&& run_fits(self.static_base(), self.static_count(), step)
            },
            KlassKind::ObjArray(_) => {
                &&& self.payload is Array
                &&& run_fits(self.array_data_start(), self.array_length(), step)
            },
            KlassKind::TypeArray(_) => self.payload is Array,
            KlassKind::InstanceRef(rk) => {
                &&& self.payload is Fields
                &&& !(rk.reference_type is RefNone)
                &&& self.base + rk.referent_offset <= u64::MAX
                &&& self.base + rk.discovered_offset <= u64::MAX
            },
        }
    }
}

} // verus!
