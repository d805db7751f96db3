//! The shared drawing surface.
//!
//! A [`Canvas`] is a fixed-size 2D surface. Drawers mutate it through
//! [`Canvas::mutate`], which records every mutation call in order; a call
//! whose region lies outside the canvas bounds still succeeds, but is
//! clipped to nothing when the visual effect is applied.

use vstd::prelude::*;

verus! {

/// A linear region affected by one mutation call: the cell at `(x, y)`.
#[derive(Clone, Copy, PartialEq, Eq, Structural, Debug)]
pub struct Region {
    pub x: i32,
    pub y: i32,
}

/// A fixed-size drawing surface that records the mutation calls made on it.
pub struct Canvas {
    pub width: i32,
    pub height: i32,
    pub log: Vec<Region>,
}

impl Canvas {
    /// Dimensions are positive and fixed after construction.
    pub open spec fn wf(&self) -> bool {
        self.width > 0 && self.height > 0
    }

    /// Whether a region lies within the canvas bounds.
    pub open spec fn region_in_bounds(&self, r: Region) -> bool {
        0 <= r.x < self.width && 0 <= r.y < self.height
    }

    /// The cells visually affected so far: every in-bounds recorded region.
    /// Out-of-bounds mutation calls are clipped and affect no cell.
    pub open spec fn covered(&self) -> Set<(int, int)> {
        Set::new(
            |p: (int, int)|
                exists|i: int|
                    0 <= i < self.log@.len() && #[trigger] self.region_in_bounds(self.log@[i])
                        && p == (self.log@[i].x as int, self.log@[i].y as int),
        )
    }

    pub fn new(width: i32, height: i32) -> (c: Canvas)
        requires
            width > 0,
            height > 0,
        ensures
            c.width == width,
            c.height == height,
            c.log@ == Seq::<Region>::empty(),
            c.wf(),
    {
        Canvas { width, height, log: Vec::new() }
    }

    /// Records one mutation call. Always succeeds: an out-of-bounds region
    /// is not an error, it is merely clipped when the effect is applied.
    pub fn mutate(&mut self, r: Region)
        ensures
            final(self).width == old(self).width,
            final(self).height == old(self).height,
            final(self).log@ == old(self).log@.push(r),
    {
        self.log.push(r);
    }

    /// How many mutation calls have been recorded.
    pub fn mutation_count(&self) -> (n: usize)
        ensures
            n == self.log@.len(),
    {
        self.log.len()
    }

    /// The region recorded by the `i`-th mutation call.
    pub fn recorded(&self, i: usize) -> (r: Region)
        requires
            i < self.log@.len(),
        ensures
            r == self.log@[i as int],
    {
        self.log[i]
    }

    /// Whether the cell at `(x, y)` has been visually affected, i.e. some
    /// in-bounds mutation call touched it.
    pub fn is_marked(&self, x: i32, y: i32) -> (b: bool)
        ensures
            b == self.covered().contains((x as int, y as int)),
    {
        let n = self.log.len();
        let mut i: usize = 0;
        while i < n
            invariant
                n == self.log@.len(),
                0 <= i <= n,
                forall|k: int|
                    0 <= k < i ==> !(#[trigger] self.region_in_bounds(self.log@[k])
                        && self.log@[k].x == x && self.log@[k].y == y),
            decreases n - i,
        {
            let r = self.log[i];
            if 0 <= r.x && r.x < self.width && 0 <= r.y && r.y < self.height && r.x == x && r.y
                == y {
                proof {
                    assert(self.region_in_bounds(self.log@[i as int]));
                    assert((x as int, y as int) == (
                        self.log@[i as int].x as int,
                        self.log@[i as int].y as int,
                    ));
                }
                assert(self.covered().contains((x as int, y as int)));
                return true;
            }
            i = i + 1;
        }
        assert(!self.covered().contains((x as int, y as int)));
        false
    }
}

} // verus!
