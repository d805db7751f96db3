//! The entity registry.
//!
//! A [`Registry`] owns an ordered sequence of entities implementing the
//! [`Visible`] capability. Insertion order is draw order, and spatial
//! queries return the first (lowest insertion index) matching entity.

use vstd::prelude::*;

verus! {

use crate::canvas::{Canvas, Region};
use crate::visible::Visible;

/// The mutation log contributed by drawing a sequence of entities in order.
pub open spec fn traces<V: Visible>(s: Seq<V>) -> Seq<Region>
    decreases s.len(),
{
    if s.len() == 0 {
        Seq::empty()
    } else {
        traces(s.drop_last()) + s.last().trace()
    }
}

/// The insertion index of the first entity that claims `(x, y)`, if any.
pub open spec fn first_hit<V: Visible>(s: Seq<V>, x: i32, y: i32) -> Option<int>
    decreases s.len(),
{
    if s.len() == 0 {
        None
    } else if s[0].hits(x, y) {
        Some(0int)
    } else {
        match first_hit(s.subrange(1, s.len() as int), x, y) {
            Some(i) => Some(i + 1),
            None => None,
        }
    }
}

/// An ordered collection of entities; it owns them exclusively once added.
pub struct Registry<V: Visible> {
    pub entities: Vec<V>,
}

impl<V: Visible> Registry<V> {
    pub fn new() -> (r: Registry<V>)
        ensures
            r.entities@ == Seq::<V>::empty(),
    {
        Registry { entities: Vec::new() }
    }

    /// Appends the entity; insertion order is preserved forever after.
    pub fn add(&mut self, entity: V)
        ensures
            final(self).entities@ == old(self).entities@.push(entity),
    {
        self.entities.push(entity);
    }

    pub fn len(&self) -> (n: usize)
        ensures
            n == self.entities@.len(),
    {
        self.entities.len()
    }

    /// Draws every entity on the shared canvas, in insertion order: the
    /// canvas log grows by exactly the concatenation of the entities'
    /// traces, oldest entity first.
    pub fn draw_all(&self, canvas: &mut Canvas)
        ensures
            final(canvas).width == old(canvas).width,
            final(canvas).height == old(canvas).height,
            final(canvas).log@ == old(canvas).log@ + traces(self.entities@),
    {
        let n = self.entities.len();
        let mut i: usize = 0;
        while i < n
            invariant
                n == self.entities@.len(),
                0 <= i <= n,
                canvas.width == old(canvas).width,
                canvas.height == old(canvas).height,
                canvas.log@ == old(canvas).log@ + traces(self.entities@.take(i as int)),
            decreases n - i,
        {
            self.entities[i].draw(canvas);
            proof {
                lemma_traces_take_step(self.entities@, i as int);
                assert(old(canvas).log@ + traces(self.entities@.take(i as int))
                    + self.entities@[i as int].trace() =~= old(canvas).log@ + traces(
                    self.entities@.take(i + 1),
                ));
            }
            i = i + 1;
        }
        proof {
            assert(self.entities@.take(n as int) =~= self.entities@);
        }
    }

    /// Returns the first (lowest insertion index) entity that claims the
    /// query point, or nothing when no entity does (in particular when the
    /// registry is empty). Later matching entities are never reported once
    /// an earlier one matches.
    pub fn hit_test_at(&self, x: i32, y: i32) -> (r: Option<&V>)
        ensures
            match r {
                Some(e) => first_hit(self.entities@, x, y) matches Some(i) && *e
                    == self.entities@[i],
                None => first_hit(self.entities@, x, y) is None,
            },
    {
        let n = self.entities.len();
        let mut i: usize = 0;
        while i < n
            invariant
                n == self.entities@.len(),
                0 <= i <= n,
                forall|j: int| 0 <= j < i ==> !(#[trigger] self.entities@[j].hits(x, y)),
            decreases n - i,
        {
            if self.entities[i].hit_test(x, y) {
                proof {
                    lemma_first_hit_from_witness(self.entities@, x, y, i as int);
                }
                return Some(&self.entities[i]);
            }
            i = i + 1;
        }
        proof {
            lemma_no_match_none(self.entities@, x, y);
        }
        None
    }
}

/// Draw order equals insertion order: the log contributed by a sequence of
/// entities followed by one more is the sequence's log followed by the
/// newcomer's trace.
pub proof fn lemma_draw_order<V: Visible>(s: Seq<V>, e: V)
    ensures
        traces(s.push(e)) == traces(s) + e.trace(),
{
    assert(s.push(e).drop_last() =~= s);
    assert(s.push(e).last() == e);
}

/// Taking one more entity appends exactly that entity's trace.
pub proof fn lemma_traces_take_step<V: Visible>(s: Seq<V>, i: int)
    requires
        0 <= i < s.len(),
    ensures
        traces(s.take(i + 1)) == traces(s.take(i)) + s[i].trace(),
{
    assert(s.take(i + 1).drop_last() =~= s.take(i));
    assert(s.take(i + 1).last() == s[i]);
}

/// `first_hit` is sound and first: the index it returns claims the point
/// and no earlier index does; when it returns nothing, no entity claims
/// the point.
pub proof fn lemma_first_hit_characterizes<V: Visible>(s: Seq<V>, x: i32, y: i32)
    ensures
        match first_hit(s, x, y) {
            Some(i) => 0 <= i < s.len() && s[i].hits(x, y) && (forall|j: int|
                0 <= j < i ==> !(#[trigger] s[j].hits(x, y))),
            None => forall|i: int| 0 <= i < s.len() ==> !(#[trigger] s[i].hits(x, y)),
        },
    decreases s.len(),
{
    if s.len() == 0 {
    } else if s[0].hits(x, y) {
    } else {
        let rest = s.subrange(1, s.len() as int);
        lemma_first_hit_characterizes(rest, x, y);
        assert(forall|j: int| 1 <= j < s.len() ==> s[j] == rest[j - 1]);
    }
}

/// A found first witness pins `first_hit`: if `s[i]` claims the point and
/// no earlier entity does, `first_hit` returns exactly `i`.
pub proof fn lemma_first_hit_from_witness<V: Visible>(s: Seq<V>, x: i32, y: i32, i: int)
    requires
        0 <= i < s.len(),
        s[i].hits(x, y),
        forall|j: int| 0 <= j < i ==> !(#[trigger] s[j].hits(x, y)),
    ensures
        first_hit(s, x, y) == Some(i),
    decreases s.len(),
{
    if i == 0 {
    } else {
        let rest = s.subrange(1, s.len() as int);
        assert(!s[0].hits(x, y));
        assert(rest[i - 1] == s[i]);
        assert(forall|j: int| 0 <= j < i - 1 ==> rest[j] == s[j + 1]);
        lemma_first_hit_from_witness(rest, x, y, i - 1);
    }
}

/// When no entity claims the point (in particular when the sequence is
/// empty), `first_hit` returns nothing.
pub proof fn lemma_no_match_none<V: Visible>(s: Seq<V>, x: i32, y: i32)
    requires
        forall|j: int| 0 <= j < s.len() ==> !(#[trigger] s[j].hits(x, y)),
    ensures
        first_hit(s, x, y) is None,
    decreases s.len(),
{
    if s.len() == 0 {
    } else {
        let rest = s.subrange(1, s.len() as int);
        assert(forall|j: int| 0 <= j < rest.len() ==> rest[j] == s[j + 1]);
        lemma_no_match_none(rest, x, y);
    }
}

/// First-match-wins on two overlapping entities: when `a` is inserted
/// before `b` and both claim the point, the query reports `a`.
pub proof fn lemma_first_match_wins<V: Visible>(a: V, b: V, x: i32, y: i32)
    requires
        a.hits(x, y),
        b.hits(x, y),
    ensures
        first_hit(seq![a, b], x, y) matches Some(i) && seq![a, b][i] == a,
{
    assert(seq![a, b][0] == a);
}

} // verus!
