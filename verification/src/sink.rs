//! The edge-visitor sink and the reference-category deferral lists.
//!
//! Every discovered edge is pushed, synchronously, to an edge visitor; the
//! visitor's contract records the exact sequence of addresses it has been
//! handed.  Weak-style referents are not visited: the whole object is
//! appended to one of three category-specific candidate lists instead.

use vstd::prelude::*;

verus! {

/// The external consumer of discovered edges.  `visited` is the sequence of
/// slot addresses the visitor has received so far, oldest first; `visit_edge`
/// appends exactly one address to it.
pub trait EdgeVisitor: Sized {
    spec fn visited(&self) -> Seq<u64>;

    fn visit_edge(&mut self, edge: u64)
        ensures
            final(self).visited() == old(self).visited().push(edge),
    ;
}

/// An edge visitor that records the discovered edges in order.
pub struct EdgeSink {
    pub edges: Vec<u64>,
}

impl EdgeSink {
    /// An empty sink.
    pub fn new() -> (r: EdgeSink)
        ensures
            r.visited() == Seq::<u64>::empty(),
    {
        EdgeSink { edges: Vec::new() }
    }
}

impl EdgeVisitor for EdgeSink {
    open spec fn visited(&self) -> Seq<u64> {
        self.edges@
    }

    fn visit_edge(&mut self, edge: u64) {
        self.edges.push(edge);
    }
}

/// The three append-only candidate lists of the reference-category deferral
/// phase.  Each entry is the deferred object itself (its base address), not
/// one of its slots.
pub struct Deferral {
    pub weak: Vec<u64>,
    pub soft: Vec<u64>,
    pub phantom: Vec<u64>,
}

impl Deferral {
    /// Three empty candidate lists.
    pub fn new() -> (r: Deferral)
        ensures
            r.weak@ == Seq::<u64>::empty(),
            r.soft@ == Seq::<u64>::empty(),
            r.phantom@ == Seq::<u64>::empty(),
    {
        Deferral { weak: Vec::new(), soft: Vec::new(), phantom: Vec::new() }
    }

    /// Appends an object to the weak-candidate list.
    pub fn add_weak_candidate(&mut self, object: u64)
        ensures
            final(self).weak@ == old(self).weak@.push(object),
            final(self).soft@ == old(self).soft@,
            final(self).phantom@ == old(self).phantom@,
    {
        self.weak.push(object);
    }

    /// Appends an object to the soft-candidate list.
    pub fn add_soft_candidate(&mut self, object: u64)
        ensures
            final(self).weak@ == old(self).weak@,
            final(self).soft@ == old(self).soft@.push(object),
            final(self).phantom@ == old(self).phantom@,
    {
        self.soft.push(object);
    }

    /// Appends an object to the phantom-candidate list.
    pub fn add_phantom_candidate(&mut self, object: u64)
        ensures
            final(self).weak@ == old(self).weak@,
            final(self).soft@ == old(self).soft@,
            final(self).phantom@ == old(self).phantom@.push(object),
    {
        self.phantom.push(object);
    }
}

} // verus!
