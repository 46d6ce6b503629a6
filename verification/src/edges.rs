//! The mathematical model of a scan's output: which edge addresses a given
//! object yields, as sequences of slot addresses.
//!
//! A "run" is `count` consecutive slots, `step` bytes apart, starting at
//! `start`; every scanner below reduces to runs.  The model is stated
//! recursively, one slot at a time, so that the loop proofs can peel one
//! slot per iteration.

use vstd::prelude::*;

use crate::abi::OopMapBlock;

verus! {

/// Bytes per reference slot under the given physical width: a compressed
/// reference occupies four bytes, a full-width one eight.
pub open spec fn slot_bytes(compressed: bool) -> u64 {
    if compressed {
        4
    } else {
        8
    }
}

/// Whether a run of `count` slots of `step` bytes starting at `start` stays
/// within the address space.
pub open spec fn run_fits(start: u64, count: u64, step: u64) -> bool
    decreases count,
{
    count == 0 || (start + step <= u64::MAX && run_fits((start + step) as u64, (count - 1) as u64, step))
}

/// The edge addresses of a run: `count` addresses, `step` bytes apart,
/// starting at `start`.
pub open spec fn run_edges(start: u64, count: u64, step: u64) -> Seq<u64>
    decreases count,
{
    if count == 0 {
        Seq::empty()
    } else {
        seq![start] + run_edges((start + step) as u64, (count - 1) as u64, step)
    }
}

/// A run has exactly `count` edges.
pub proof fn lemma_run_edges_len(start: u64, count: u64, step: u64)
    ensures
        run_edges(start, count, step).len() == count,
    decreases count,
{
    if count != 0 {
        lemma_run_edges_len((start + step) as u64, (count - 1) as u64, step);
    }
}

/// The edges of a run that fits are exactly `start + i * step`, so each is
/// one `step` past the one before it.
pub proof fn lemma_run_edges_index(start: u64, count: u64, step: u64)
    requires
        run_fits(start, count, step),
    ensures
        run_edges(start, count, step).len() == count,
        forall|i: int|
            0 <= i < count ==> #[trigger] run_edges(start, count, step)[i] == start + i * step,
    decreases count,
{
    lemma_run_edges_len(start, count, step);
    if count != 0 {
        let tail_start = (start + step) as u64;
        lemma_run_edges_index(tail_start, (count - 1) as u64, step);
        assert forall|i: int| 0 <= i < count implies #[trigger] run_edges(start, count, step)[i]
            == start + i * step by {
            if i > 0 {
                assert(run_edges(start, count, step)[i] == run_edges(
                    tail_start,
                    (count - 1) as u64,
                    step,
                )[i - 1]);
                assert(tail_start + (i - 1) * step == start + i * step) by (nonlinear_arith)
                    requires
                        tail_start == start + step,
                ;
            }
        }
    }
}

/// Appending the empty sequence changes nothing.
pub proof fn lemma_seq_add_empty(s: Seq<u64>)
    ensures
        s + Seq::<u64>::empty() == s,
{
    assert(s + Seq::<u64>::empty() =~= s);
}

/// Pushing one element is appending the one-element sequence.
pub proof fn lemma_seq_push_units(s: Seq<u64>, x: u64)
    ensures
        s.push(x) == s + seq![x],
{
    assert(s.push(x) =~= s + seq![x]);
}

/// Whether every region of a reference-region table names runs that stay
/// within the address space when laid out from `base`.
pub open spec fn maps_fit(base: u64, maps: Seq<OopMapBlock>, step: u64) -> bool {
    forall|i: int|
        0 <= i < maps.len() ==> {
            &&& base + (#[trigger] maps[i]).offset <= u64::MAX
            &&& run_fits((base + maps[i].offset) as u64, maps[i].count, step)
        }
}

/// The edges of one region of the reference-region table.
pub open spec fn block_edges(base: u64, block: OopMapBlock, step: u64) -> Seq<u64> {
    run_edges((base + block.offset) as u64, block.count, step)
}

/// The edges of a whole reference-region table, region by region, in table
/// order.
pub open spec fn maps_edges(base: u64, maps: Seq<OopMapBlock>, step: u64) -> Seq<u64>
    decreases maps.len(),
{
    if maps.len() == 0 {
        Seq::empty()
    } else {
        maps_edges(base, maps.drop_last(), step) + block_edges(base, maps.last(), step)
    }
}

} // verus!
