//! The seven-piece bag: shapes are dealt in shuffled rounds of seven, so that
//! every round holds each shape exactly once.

use rand::seq::SliceRandom;
use vstd::prelude::*;
use vstd::seq_lib::group_to_multiset_ensures;
use crate::tetrimino::{all_shapes, Shape, SHAPE_COUNT};

verus! {

/// Whether every shape occurs exactly once in `round`.
pub open spec fn each_once(round: Seq<Shape>) -> bool {
    forall|shape: Shape| #[trigger] round.to_multiset().count(shape) == 1
}

/// The catalog order holds every shape exactly once.
pub proof fn lemma_all_shapes_each_once()
    ensures
        each_once(all_shapes()),
{
    broadcast use group_to_multiset_ensures;

    assert(all_shapes() =~= Seq::empty().push(Shape::O).push(Shape::I).push(Shape::S).push(
        Shape::Z,
    ).push(Shape::L).push(Shape::J).push(Shape::T));
}

/// `rand`'s `SliceRandom::shuffle` with the thread-local generator of
/// `rand::thread_rng`: reorders the seven shapes in place by swapping
/// elements, so the same shapes are there afterwards, each as often as
/// before. Which order comes out is left open. (`thread_rng` panics if the
/// operating system cannot seed the generator.)
#[verifier::external_body]
fn shuffle(round: &mut [Shape; SHAPE_COUNT])
    ensures
        final(round)@.to_multiset() == old(round)@.to_multiset(),
{
    round.shuffle(&mut rand::thread_rng());
}

/// The bag: the round that is being dealt and how many of its shapes were
/// dealt already.
pub struct Bag {
    round: [Shape; SHAPE_COUNT],
    dealt: usize,
}

impl Bag {
    /// The round that is being dealt, in dealing order.
    pub closed spec fn round(&self) -> Seq<Shape> {
        self.round@
    }

    /// How many shapes of the round were dealt already.
    pub closed spec fn dealt(&self) -> int {
        self.dealt as int
    }

    /// The round holds every shape exactly once and is not used up.
    pub open spec fn wf(&self) -> bool {
        &&& self.round().len() == SHAPE_COUNT
        &&& each_once(self.round())
        &&& 0 <= self.dealt() < SHAPE_COUNT
    }

    /// The shape that is dealt next.
    pub open spec fn upcoming(&self) -> Shape {
        self.round()[self.dealt()]
    }

    /// Whether dealing `shape` can take the bag from `self` to `after`: the
    /// shape is the upcoming one; within a round the round stays and the
    /// count goes up by one; after the last shape of a round a new round
    /// starts, of which only `wf` is known.
    pub open spec fn deals(&self, after: Bag, shape: Shape) -> bool {
        &&& shape == self.upcoming()
        &&& after.wf()
        &&& if self.dealt() + 1 < SHAPE_COUNT {
            after.round() == self.round() && after.dealt() == self.dealt() + 1
        } else {
            after.dealt() == 0
        }
    }

    /// A bag at the start of a freshly shuffled round.
    pub fn new() -> (bag: Self)
        ensures
            bag.wf(),
            bag.dealt() == 0,
    {
        let mut round = Shape::all();
        shuffle(&mut round);
        proof {
            lemma_all_shapes_each_once();
        }
        Bag::starting(round)
    }

    /// A bag at the start of the given round.
    pub fn starting(round: [Shape; SHAPE_COUNT]) -> (bag: Self)
        requires
            each_once(round@),
        ensures
            bag.wf(),
            bag.round() == round@,
            bag.dealt() == 0,
    {
        Bag { round, dealt: 0 }
    }

    /// The shape that `next` will deal.
    pub fn peek(&self) -> (shape: Shape)
        requires
            self.wf(),
        ensures
            shape == self.upcoming(),
    {
        self.round[self.dealt]
    }

    /// Deals the upcoming shape. After the seventh shape of a round the bag
    /// shuffles a new round.
    pub fn next(&mut self) -> (shape: Shape)
        requires
            old(self).wf(),
        ensures
            old(self).deals(*final(self), shape),
    {
        let shape = self.round[self.dealt];
        if self.dealt + 1 < SHAPE_COUNT {
            self.dealt = self.dealt + 1;
        } else {
            let mut round = Shape::all();
            shuffle(&mut round);
            proof {
                lemma_all_shapes_each_once();
            }
            *self = Bag::starting(round);
        }
        shape
    }
}

/// Seven deals in a row that start at the beginning of a round yield every
/// shape exactly once, and leave the bag at the beginning of the next round.
pub proof fn lemma_seven_bag(bags: Seq<Bag>, shapes: Seq<Shape>)
    requires
        bags.len() == SHAPE_COUNT + 1,
        shapes.len() == SHAPE_COUNT,
        bags[0].wf(),
        bags[0].dealt() == 0,
        forall|i: int| 0 <= i < SHAPE_COUNT ==> (#[trigger] bags[i]).deals(bags[i + 1], shapes[i]),
    ensures
        each_once(shapes),
        bags[SHAPE_COUNT as int].wf(),
        bags[SHAPE_COUNT as int].dealt() == 0,
{
    assert(shapes =~= bags[0].round());
}

} // verus!
