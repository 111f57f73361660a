//! Axis-aligned collision detection.
//!
//! A bounding box is a center point with half-extents, all in pico-units.
//! Two boxes overlap when their projections overlap on both axes; the
//! intervals are closed, so boxes that exactly touch (shared edge, zero
//! gap) count as overlapping. The same closed convention is used
//! everywhere, and it is total and deterministic.

use vstd::prelude::*;

use crate::units::{MAX_COORD_PICOS, MAX_EXTENT_PICOS};

verus! {

/// An axis-aligned bounding box: center `(cx, cy)` and half-extents
/// `(hx, hy)`, in pico-units.
#[derive(Clone, Copy, Debug, PartialEq, Eq, Structural)]
pub struct Aabb {
    pub cx: i64,
    pub cy: i64,
    pub hx: i64,
    pub hy: i64,
}

impl Aabb {
    /// Half-extents are non-negative and every field is within the
    /// coordinate bounds of the simulation.
    pub open spec fn wf(self) -> bool {
        &&& -MAX_COORD_PICOS <= self.cx <= MAX_COORD_PICOS
        &&& -MAX_COORD_PICOS <= self.cy <= MAX_COORD_PICOS
        &&& 0 <= self.hx <= MAX_EXTENT_PICOS
        &&& 0 <= self.hy <= MAX_EXTENT_PICOS
    }

    /// Closed-interval overlap: the centers are no farther apart than the
    /// summed half-extents, on both axes.
    pub open spec fn overlaps(self, other: Aabb) -> bool {
        &&& self.cx - other.cx <= self.hx + other.hx
        &&& other.cx - self.cx <= self.hx + other.hx
        &&& self.cy - other.cy <= self.hy + other.hy
        &&& other.cy - self.cy <= self.hy + other.hy
    }

    /// Decides closed-interval overlap with `other`.
    pub fn intersects(&self, other: &Aabb) -> (hit: bool)
        requires
            self.wf(),
            other.wf(),
        ensures
            hit == self.overlaps(*other),
    {
        let dx = if self.cx >= other.cx { self.cx - other.cx } else { other.cx - self.cx };
        let dy = if self.cy >= other.cy { self.cy - other.cy } else { other.cy - self.cy };
        dx <= self.hx + other.hx && dy <= self.hy + other.hy
    }
}

/// Overlap does not depend on the order of the two boxes.
pub proof fn lemma_overlap_symmetric(a: Aabb, b: Aabb)
    ensures
        a.overlaps(b) == b.overlaps(a),
{
}

/// Boxes that exactly touch on a vertical edge (horizontal gap zero) are
/// classified as overlapping whenever their vertical intervals meet; the
/// closed convention keeps the boundary case deterministic.
pub proof fn lemma_touching_overlaps(a: Aabb, b: Aabb)
    requires
        a.wf(),
        b.wf(),
        b.cx - a.cx == a.hx + b.hx || a.cx - b.cx == a.hx + b.hx,
        a.cy - b.cy <= a.hy + b.hy,
        b.cy - a.cy <= a.hy + b.hy,
    ensures
        a.overlaps(b),
        b.overlaps(a),
{
}

} // verus!
