//! The `Visible` capability and its entity variants.
//!
//! An entity that implements [`Visible`] can draw itself onto a shared
//! [`Canvas`] and answer whether it claims a query point. The one variant
//! provided here is the [`Broom`].

use vstd::prelude::*;

verus! {

use crate::canvas::{Canvas, Region};
use core::ops::Range;

/// The capability contract shared by every drawable entity.
///
/// `draw` only appends this entity's own trace to the canvas log and leaves
/// the canvas dimensions alone; `hit_test` is a pure function of the
/// entity's geometry and the query point.
pub trait Visible {
    /// The regions this entity mutates when drawn, in order.
    spec fn trace(&self) -> Seq<Region>;

    /// Whether this entity claims the query point `(x, y)`.
    spec fn hits(&self, x: i32, y: i32) -> bool;

    fn draw(&self, canvas: &mut Canvas)
        ensures
            final(canvas).width == old(canvas).width,
            final(canvas).height == old(canvas).height,
            final(canvas).log@ == old(canvas).log@ + self.trace(),
    ;

    fn hit_test(&self, x: i32, y: i32) -> (r: bool)
        ensures
            r == self.hits(x, y),
    ;
}

/// A broom: geometry is private to the entity; nothing else reads it while
/// drawing or hit-testing.
#[derive(Clone, Copy, PartialEq, Eq, Structural, Debug)]
pub struct Broom {
    pub x: i32,
    pub y: i32,
    pub width: i32,
    pub height: i32,
}

/// The regions a broom mutates when drawn: one cell per row of its
/// broomstick span `[y - height - 1, y)`, bottom-up. The span is empty when
/// it would be reversed (`height < 0`), and by policy the broom draws
/// nothing at all when the span would start above row zero of its own
/// coordinate, i.e. when `height + 1 > y`.
pub open spec fn broom_trace(b: Broom) -> Seq<Region> {
    if b.height < 0 || b.height >= b.y {
        Seq::empty()
    } else {
        Seq::new(
            (b.height + 1) as nat,
            |i: int| Region { x: b.x, y: (b.y - b.height - 1 + i) as i32 },
        )
    }
}

impl Broom {
    pub fn new(x: i32, y: i32, width: i32, height: i32) -> (b: Broom)
        ensures
            b == (Broom { x, y, width, height }),
    {
        Broom { x, y, width, height }
    }

    /// The vertical span of the broomstick, as a half-open row range.
    pub fn broomstick_range(&self) -> (r: Range<i32>)
        requires
            i32::MIN <= self.y - self.height - 1,
            self.y - self.height <= i32::MAX,
        ensures
            r.start == self.y - self.height - 1,
            r.end == self.y,
    {
        self.y - self.height - 1..self.y
    }
}

impl Visible for Broom {
    open spec fn trace(&self) -> Seq<Region> {
        broom_trace(*self)
    }

    open spec fn hits(&self, x: i32, y: i32) -> bool {
        self.width < y && self.height < x
    }

    fn draw(&self, canvas: &mut Canvas) {
        if self.height < 0 || self.height >= self.y {
            assert(canvas.log@ =~= old(canvas).log@ + self.trace());
            return;
        }
        let span = self.broomstick_range();
        let mut row: i32 = span.start;
        while row < span.end
            invariant
                0 <= self.height < self.y,
                span.start == self.y - self.height - 1,
                span.end == self.y,
                span.start <= row <= span.end,
                canvas.width == old(canvas).width,
                canvas.height == old(canvas).height,
                canvas.log@ == old(canvas).log@ + self.trace().take(row - span.start),
            decreases span.end - row,
        {
            canvas.mutate(Region { x: self.x, y: row });
            proof {
                let k = row - span.start;
                assert(self.trace()[k] == (Region { x: self.x, y: row }));
                assert(self.trace().take(k + 1) =~= self.trace().take(k).push(self.trace()[k]));
                assert(old(canvas).log@ + self.trace().take(k + 1) =~= (old(canvas).log@
                    + self.trace().take(k)).push(self.trace()[k]));
            }
            row = row + 1;
        }
        assert(self.trace().take(span.end - span.start) =~= self.trace());
    }

    /// The documented quirk is preserved exactly: the `x` comparison is
    /// bound to `height` and the `y` comparison to `width`.
    fn hit_test(&self, x: i32, y: i32) -> (r: bool) {
        self.width < y && self.height < x
    }
}

/// Empty-range law: whenever the broomstick span would begin above the
/// broom's own `y` (that is, `height + 1 > y`), the broom's trace is empty,
/// so drawing it performs zero mutations.
pub proof fn lemma_empty_span(b: Broom)
    requires
        b.height + 1 > b.y,
    ensures
        broom_trace(b) == Seq::<Region>::empty(),
{
}

} // verus!
