//! The bag randomizer: pieces come in batches that each hold every shape once.
use vstd::prelude::*;
use std::collections::VecDeque;
use rand::seq::SliceRandom;
use rand::rngs::ThreadRng;
use crate::tetromino::{Shape, Tetromino};
use crate::transform::{Orientation, Point};

verus! {

/// How many pieces the queue always holds ahead, for previews.
pub const MIN_ELEMENTS: usize = 6;

#[verifier::external_type_specification]
#[verifier::external_body]
pub struct ExThreadRng(rand::rngs::ThreadRng);

/// Relies on rand::thread_rng, which hands out the thread's random generator.
pub assume_specification[ rand::thread_rng ]() -> rand::rngs::ThreadRng;

/// Relies on rand's `SliceRandom::shuffle`, which only swaps elements, so the
/// shapes come back in some order with the same number of each.
#[verifier::external_body]
fn shuffle_shapes(v: &mut Vec<Shape>, rng: &mut ThreadRng)
    ensures
        final(v)@.to_multiset() == old(v)@.to_multiset(),
{
    v.shuffle(rng)
}

/// The seven shapes, one of each.
pub open spec fn all_shapes() -> Seq<Shape> {
    seq![Shape::O, Shape::I, Shape::T, Shape::L, Shape::J, Shape::S, Shape::Z]
}

/// `s` holds each of the seven shapes exactly as often as a full bag does: once.
pub open spec fn is_bag(s: Seq<Shape>) -> bool {
    s.to_multiset() == all_shapes().to_multiset()
}

/// `s` is a run of whole bags, one after another.
pub open spec fn whole_bags(s: Seq<Shape>) -> bool {
    &&& s.len() % 7 == 0
    &&& forall|k: int|
        0 <= k && 7 * k + 7 <= s.len() ==> #[trigger] is_bag(s.subrange(7 * k, 7 * k + 7))
}

/// The shapes of a run of pieces.
pub open spec fn shapes_of(q: Seq<Tetromino>) -> Seq<Shape> {
    q.map_values(|t: Tetromino| t.shape)
}

/// A fresh, unplaced piece: North-facing at (0, 0).
pub open spec fn is_fresh(t: Tetromino) -> bool {
    t.origin == Point { x: 0, y: 0 } && t.orientation == Orientation::North
}

/// Appending a bag to a run of whole bags gives a run of whole bags.
proof fn lemma_whole_bags_append(s: Seq<Shape>, b: Seq<Shape>)
    requires
        whole_bags(s),
        is_bag(b),
        b.len() == 7,
    ensures
        whole_bags(s + b),
{
    let t = s + b;
    assert forall|k: int| 0 <= k && 7 * k + 7 <= t.len() implies #[trigger] is_bag(
        t.subrange(7 * k, 7 * k + 7),
    ) by {
        if 7 * k + 7 <= s.len() {
            assert(t.subrange(7 * k, 7 * k + 7) =~= s.subrange(7 * k, 7 * k + 7));
        } else {
            assert(7 * k == s.len()) by {
                assert(s.len() % 7 == 0);
            }
            assert(t.subrange(7 * k, 7 * k + 7) =~= b);
        }
    }
}

/// The seven shapes in a random order.
fn draw_pieces(rng: &mut ThreadRng) -> (r: Vec<Shape>)
    ensures
        is_bag(r@),
        r@.len() == 7,
{
    let mut new_pieces = vec![Shape::O, Shape::I, Shape::T, Shape::L, Shape::J, Shape::S, Shape::Z];
    proof {
        assert(new_pieces@ =~= all_shapes());
    }
    shuffle_shapes(&mut new_pieces, rng);
    proof {
        broadcast use vstd::seq_lib::group_to_multiset_ensures;
        assert(new_pieces@.len() == 7) by {
            assert(new_pieces@.len() == new_pieces@.to_multiset().len());
            assert(all_shapes().len() == all_shapes().to_multiset().len());
        }
    }
    new_pieces
}

/// A source of pieces with a look-ahead queue.
pub struct TetrominoGenerator {
    queue: VecDeque<Tetromino>,
    rng: ThreadRng,
    drawn: Ghost<Seq<Shape>>,
}

impl TetrominoGenerator {
    /// The pieces waiting in the queue, next first.
    pub closed spec fn upcoming(&self) -> Seq<Tetromino> {
        self.queue@
    }

    /// The shapes handed out so far, oldest first.
    pub closed spec fn history(&self) -> Seq<Shape> {
        self.drawn@
    }

    /// The queue holds at least `MIN_ELEMENTS` fresh pieces, and what was
    /// handed out followed by what waits is a run of whole bags.
    pub closed spec fn wf(&self) -> bool {
        &&& MIN_ELEMENTS <= self.queue@.len() <= 13
        &&& forall|i: int| 0 <= i < self.queue@.len() ==> is_fresh(#[trigger] self.queue@[i])
        &&& whole_bags(self.drawn@ + shapes_of(self.queue@))
    }

    /// A well-formed generator always holds the look-ahead it promises.
    pub proof fn lemma_lookahead(&self)
        requires
            self.wf(),
        ensures
            self.upcoming().len() >= MIN_ELEMENTS,
            forall|i: int| 0 <= i < self.upcoming().len() ==> is_fresh(#[trigger] self.upcoming()[i]),
    {
    }

    /// A generator with one bag queued and nothing handed out.
    pub fn new() -> (r: Self)
        ensures
            r.wf(),
            r.history() == Seq::<Shape>::empty(),
            r.upcoming().len() == 7,
            is_bag(shapes_of(r.upcoming())),
            forall|i: int| 0 <= i < 7 ==> is_fresh(#[trigger] r.upcoming()[i]),
    {
        let mut g = TetrominoGenerator {
            queue: VecDeque::new(),
            rng: rand::thread_rng(),
            drawn: Ghost(Seq::empty()),
        };
        proof {
            assert(shapes_of(g.queue@) =~= Seq::<Shape>::empty());
            assert(g.drawn@ + shapes_of(g.queue@) =~= Seq::<Shape>::empty());
        }
        g.extend();
        proof {
            let all = g.drawn@ + shapes_of(g.queue@);
            assert(all =~= shapes_of(g.queue@));
            assert(all.subrange(0, 7) =~= all);
            let k: int = 0;
            assert(is_bag(all.subrange(7 * k, 7 * k + 7)));
        }
        g
    }

    fn upcoming_queue_length(&self) -> (r: usize)
        ensures
            r == self.upcoming().len(),
    {
        self.queue.len()
    }

    /// Draws a shuffled bag of the seven shapes and queues it.
    fn extend(&mut self)
        requires
            old(self).queue@.len() <= MIN_ELEMENTS,
            forall|i: int| 0 <= i < old(self).queue@.len() ==> is_fresh(#[trigger] old(self).queue@[i]),
            whole_bags(old(self).drawn@ + shapes_of(old(self).queue@)),
        ensures
            final(self).queue@.len() == old(self).queue@.len() + 7,
            final(self).queue@.subrange(0, old(self).queue@.len() as int) == old(self).queue@,
            final(self).drawn@ == old(self).drawn@,
            forall|i: int| 0 <= i < final(self).queue@.len() ==> is_fresh(#[trigger] final(self).queue@[i]),
            whole_bags(final(self).drawn@ + shapes_of(final(self).queue@)),
    {
        let bag = draw_pieces(&mut self.rng);
        let ghost start = self.queue@;
        let mut k: usize = 0;
        while k < 7
            invariant
                k <= 7,
                bag@.len() == 7,
                is_bag(bag@),
                self.drawn@ == old(self).drawn@,
                whole_bags(self.drawn@ + shapes_of(start)),
                start.len() <= MIN_ELEMENTS,
                self.queue@.len() == start.len() + k,
                self.queue@.subrange(0, start.len() as int) == start,
                forall|i: int| 0 <= i < self.queue@.len() ==> is_fresh(#[trigger] self.queue@[i]),
                shapes_of(self.queue@) == shapes_of(start) + bag@.subrange(0, k as int),
            decreases 7 - k,
        {
            let ghost before = self.queue@;
            self.queue.push_back(Tetromino::new_shape(bag[k]));
            proof {
                assert(self.queue@.subrange(0, start.len() as int) =~= before.subrange(
                    0,
                    start.len() as int,
                ));
                assert(shapes_of(self.queue@) =~= shapes_of(before).push(bag@[k as int]));
                assert(bag@.subrange(0, k + 1) =~= bag@.subrange(0, k as int).push(bag@[k as int]));
            }
            k = k + 1;
        }
        proof {
            assert(bag@.subrange(0, 7) =~= bag@);
            let old_all = self.drawn@ + shapes_of(start);
            lemma_whole_bags_append(old_all, bag@);
            assert(self.drawn@ + shapes_of(self.queue@) =~= old_all + bag@);
        }
    }

    /// The `i`-th upcoming piece, without taking it.
    pub fn peek(&self, i: usize) -> (r: Tetromino)
        requires
            self.wf(),
            i < MIN_ELEMENTS,
        ensures
            r == self.upcoming()[i as int],
    {
        self.queue[i]
    }

    /// Takes the next piece, first queuing a fresh bag when the queue is down
    /// to `MIN_ELEMENTS`.
    pub fn pop(&mut self) -> (r: Tetromino)
        requires
            old(self).wf(),
        ensures
            final(self).wf(),
            r == old(self).upcoming()[0],
            is_fresh(r),
            final(self).history() == old(self).history().push(r.shape),
            old(self).upcoming().len() > MIN_ELEMENTS ==> final(self).upcoming()
                == old(self).upcoming().drop_first(),
            old(self).upcoming().len() <= MIN_ELEMENTS ==> final(self).upcoming().subrange(
                0,
                old(self).upcoming().len() - 1,
            ) == old(self).upcoming().drop_first(),
    {
        if self.upcoming_queue_length() <= MIN_ELEMENTS {
            self.extend();
        }
        let ghost mid = self.queue@;
        let r = match self.queue.pop_front() {
            Some(t) => t,
            None => {
                proof {
                    assert(false);
                }
                Tetromino::new()
            },
        };
        proof {
            assert(is_fresh(mid[0]));
            let old_drawn = self.drawn@;
            self.drawn = Ghost(old_drawn.push(r.shape));
            assert(shapes_of(mid) =~= seq![r.shape] + shapes_of(self.queue@));
            assert(self.drawn@ + shapes_of(self.queue@) =~= old_drawn + shapes_of(mid));
            assert forall|i: int| 0 <= i < self.queue@.len() implies is_fresh(
                #[trigger] self.queue@[i],
            ) by {
                assert(self.queue@[i] == mid[i + 1]);
            }
        }
        r
    }
}

/// Every seven consecutive shapes handed out from the start of a bag are the
/// seven shapes, each exactly once.
pub proof fn lemma_bags_are_fair(g: &TetrominoGenerator, k: int)
    requires
        g.wf(),
        0 <= k,
        7 * k + 7 <= g.history().len(),
    ensures
        is_bag(g.history().subrange(7 * k, 7 * k + 7)),
        forall|sh: Shape| #[trigger] g.history().subrange(7 * k, 7 * k + 7).to_multiset().count(sh) == 1,
{
    let all = g.history() + shapes_of(g.upcoming());
    assert(all.subrange(7 * k, 7 * k + 7) =~= g.history().subrange(7 * k, 7 * k + 7));
    assert(is_bag(all.subrange(7 * k, 7 * k + 7)));
    lemma_bag_counts();
}

/// A bag holds each shape exactly once.
pub proof fn lemma_bag_counts()
    ensures
        forall|sh: Shape| #[trigger] all_shapes().to_multiset().count(sh) == 1,
{
    broadcast use vstd::seq_lib::group_to_multiset_ensures;
    let s = all_shapes();
    assert(s.no_duplicates());
    s.lemma_multiset_has_no_duplicates();
    assert forall|sh: Shape| #[trigger] s.to_multiset().count(sh) == 1 by {
        let i: int = match sh {
            Shape::O => 0,
            Shape::I => 1,
            Shape::T => 2,
            Shape::L => 3,
            Shape::J => 4,
            Shape::S => 5,
            Shape::Z => 6,
        };
        assert(s[i] == sh);
        assert(s.contains(sh));
        assert(s.to_multiset().contains(sh));
    }
}

} // verus!
