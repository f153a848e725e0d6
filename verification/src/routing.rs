//! Partition routing: maps a coordinate to one of the four canvas shards.
//!
//! The canvas is split at `dim_mid` (half the canvas dimension) on each
//! axis. The boundary is inclusive: a coordinate equal to `dim_mid` belongs
//! to the lower quadrant. Writers and readers must use this one function,
//! or a cell written under one partition would be read under another.

use vstd::prelude::*;

verus! {

/// Quadrant of `(x, y)` relative to `dim_mid`, as a partition index:
/// `0` for the upper-left quadrant (both coordinates at or below the
/// midpoint), `1` for lower-left, `2` for upper-right, `3` for lower-right.
pub open spec fn spec_route(x: u32, y: u32, dim_mid: u32) -> int {
    if x <= dim_mid && y <= dim_mid {
        0
    } else if x <= dim_mid {
        1
    } else if y <= dim_mid {
        2
    } else {
        3
    }
}

/// Half of the canvas dimension (integer division), the quadrant boundary
/// used by every routing decision.
pub fn compute_dim_mid(canvas_dim: u32) -> (r: u32)
    ensures
        r == canvas_dim / 2,
{
    canvas_dim / 2
}

/// Routes `(x, y)` to its partition index. Total and deterministic: every
/// coordinate maps to exactly one of the four partitions, and repeated
/// calls with the same arguments return the same index.
pub fn route(x: u32, y: u32, dim_mid: u32) -> (r: usize)
    ensures
        r == spec_route(x, y, dim_mid),
        r < 4,
{
    match (x <= dim_mid, y <= dim_mid) {
        (true, true) => 0,
        (true, false) => 1,
        (false, true) => 2,
        (false, false) => 3,
    }
}

/// The static label of a partition, as stored in the `canvas` table's
/// partition-key column.
pub fn canvas_part_label(index: usize) -> (r: &'static str)
    requires
        index < 4,
    ensures
        index == 0 ==> r@ == "v_part1"@,
        index == 1 ==> r@ == "v_part2"@,
        index == 2 ==> r@ == "v_part3"@,
        index == 3 ==> r@ == "v_part4"@,
{
    if index == 0 {
        "v_part1"
    } else if index == 1 {
        "v_part2"
    } else if index == 2 {
        "v_part3"
    } else {
        "v_part4"
    }
}

/// Routing is total: for every coordinate and midpoint the partition index
/// is one of the four valid indices. Determinism needs no separate
/// statement: `spec_route` is a mathematical function of its arguments, so
/// repeated calls and the writer and reader code paths, which both state
/// their partition as `spec_route(x, y, dim_mid)`, agree by definition.
pub proof fn lemma_route_total(x: u32, y: u32, dim_mid: u32)
    ensures
        0 <= spec_route(x, y, dim_mid) < 4,
{
}

/// Boundary coordinates route by the inclusive rule: a coordinate equal to
/// `dim_mid` counts as "at or below" the midpoint, so the cell lands in the
/// lower quadrant on that axis, never inconsistently split.
pub proof fn lemma_route_boundary(x: u32, y: u32, dim_mid: u32)
    ensures
        x == dim_mid ==> spec_route(x, y, dim_mid) == (if y <= dim_mid {
            0int
        } else {
            1int
        }),
        y == dim_mid ==> spec_route(x, y, dim_mid) == (if x <= dim_mid {
            0int
        } else {
            2int
        }),
{
}

} // verus!
