//! The snake: a heading and the voxels its body occupies, head first.

use crate::coord::{coord_to_screen, fits_screen, projects, screen_of, Vec3};
use crate::direction::Direction;
use crate::draw::Draw;
use ruscii::spatial::Vec2;
use std::collections::VecDeque;
use vstd::prelude::*;

verus! {

/// Whether some coordinate occurs at two places of `body`.
pub open spec fn has_repeat(body: Seq<Vec3>) -> bool {
    exists|i: int, j: int| 0 <= i < j < body.len() && body[i] == body[j]
}

/// The body after a move of the head to `target`: the target in front of the
/// old body, which keeps its last voxel only when the snake grows.
pub open spec fn body_after_move(body: Seq<Vec3>, target: Vec3, growing: bool) -> Seq<Vec3> {
    if growing {
        seq![target] + body
    } else {
        seq![target] + body.drop_last()
    }
}

/// A body has a repeated coordinate exactly if its voxels are not all
/// different.
pub proof fn lemma_repeat_is_duplicate(body: Seq<Vec3>)
    ensures
        has_repeat(body) <==> !body.no_duplicates(),
{
    if !body.no_duplicates() {
        let (i, j) = choose|i: int, j: int|
            0 <= i < body.len() && 0 <= j < body.len() && i != j && body[i] == body[j];
        if i < j {
            assert(0 <= i < j < body.len() && body[i] == body[j]);
        } else {
            assert(0 <= j < i < body.len() && body[j] == body[i]);
        }
    }
}

/// A growing move makes the body longer by one voxel, the target, and keeps
/// all it had.
pub proof fn lemma_growing_move(body: Seq<Vec3>, target: Vec3)
    requires
        body.len() > 0,
    ensures
        body_after_move(body, target, true).len() == body.len() + 1,
        body_after_move(body, target, true)[0] == target,
        body_after_move(body, target, true).skip(1) == body,
{
    assert(body_after_move(body, target, true).skip(1) =~= body);
}

/// A move without growth keeps the length of the body: the target comes in
/// at the front and the last voxel leaves.
pub proof fn lemma_plain_move(body: Seq<Vec3>, target: Vec3)
    requires
        body.len() > 0,
    ensures
        body_after_move(body, target, false).len() == body.len(),
        body_after_move(body, target, false)[0] == target,
        body_after_move(body, target, false).skip(1) == body.drop_last(),
{
    assert(body_after_move(body, target, false).skip(1) =~= body.drop_last());
}

/// After a move without growth the voxel that the tail left is no longer
/// part of the body, provided that the head did not move there and that no
/// other part of the body lay there.
pub proof fn lemma_tail_leaves_its_voxel(body: Seq<Vec3>, target: Vec3)
    requires
        body.len() > 0,
        target != body.last(),
        !body.drop_last().contains(body.last()),
    ensures
        !body_after_move(body, target, false).contains(body.last()),
{
    let after = body_after_move(body, target, false);
    if after.contains(body.last()) {
        let i = choose|i: int| 0 <= i < after.len() && after[i] == body.last();
        assert(i > 0);
        assert(after[i] == body.drop_last()[i - 1]);
        assert(body.drop_last().contains(body.last()));
    }
}

/// What a snake is, mathematically: its heading and its body from head to
/// tail.
pub struct SnakeView {
    pub direction: Direction,
    pub body: Seq<Vec3>,
}

impl SnakeView {
    /// The body has at least one voxel.
    pub open spec fn wf(self) -> bool {
        self.body.len() > 0
    }

    /// The voxel of the head.
    pub open spec fn head(self) -> Vec3 {
        self.body[0]
    }

    /// Whether every voxel of the body has a position on the screen.
    pub open spec fn drawable(self) -> bool {
        forall|i: int| 0 <= i < self.body.len() ==> projects(#[trigger] self.body[i])
    }

    /// One `'S'` per voxel of the body, from head to tail, each at the
    /// screen position of its voxel.
    pub open spec fn glyphs(self) -> Seq<(char, Vec2)> {
        Seq::new(self.body.len(), |i: int| ('S', screen_of(self.body[i])))
    }
}

/// The snake. Every snake that this module hands out is well formed: its
/// body is not empty.
#[derive(Debug)]
pub struct Snake {
    direction: Direction,
    body: VecDeque<Vec3>,
}

impl View for Snake {
    type V = SnakeView;

    closed spec fn view(&self) -> SnakeView {
        SnakeView { direction: self.direction, body: self.body@ }
    }
}

impl Snake {
    /// Whether the snake is well formed: see [`SnakeView::wf`].
    pub open spec fn wf(&self) -> bool {
        self@.wf()
    }

    /// A snake of one voxel at `pos`, without a heading.
    pub fn new(pos: Vec3) -> (snake: Snake)
        ensures
            snake.wf(),
            snake@ == (SnakeView { direction: Direction::Unset, body: seq![pos] }),
    {
        let mut body = VecDeque::new();
        body.push_back(pos);
        assert(body@ =~= seq![pos]);
        Snake { direction: Direction::Unset, body }
    }

    /// The voxel of the head.
    pub fn head(&self) -> (head: &Vec3)
        requires
            self.wf(),
        ensures
            *head == self@.head(),
    {
        &self.body[0]
    }

    /// The heading that the snake last took.
    pub fn direction(&self) -> (direction: Direction)
        ensures
            direction == self@.direction,
    {
        self.direction
    }

    /// The voxels of the body, from head to tail.
    pub fn body(&self) -> (body: &VecDeque<Vec3>)
        ensures
            body@ == self@.body,
    {
        &self.body
    }

    /// Takes `direction` as the heading.
    pub fn turn(&mut self, direction: Direction)
        ensures
            final(self)@ == (SnakeView { direction, body: old(self)@.body }),
    {
        self.direction = direction;
    }

    /// Moves the head to `target`. The tail follows, leaving its voxel,
    /// unless the snake is `growing`.
    pub fn move_to(&mut self, target: Vec3, growing: bool)
        requires
            old(self).wf(),
        ensures
            final(self).wf(),
            final(self)@.direction == old(self)@.direction,
            final(self)@.body == body_after_move(old(self)@.body, target, growing),
    {
        let ghost before = self.body@;
        self.body.push_front(target);
        if !growing {
            self.body.pop_back();
            assert(self.body@ =~= seq![target] + before.drop_last());
        }
    }

    /// Whether some voxel occurs more than once in the body.
    pub fn is_superlapping(&self) -> (overlapping: bool)
        ensures
            overlapping == has_repeat(self@.body),
    {
        let n = self.body.len();
        let mut i: usize = 0;
        while i < n
            invariant
                n == self.body@.len(),
                i <= n,
                forall|a: int, b: int| 0 <= a < i && a < b < n ==> self.body@[a] != self.body@[b],
            decreases n - i,
        {
            let here = self.body[i];
            let mut j: usize = i + 1;
            while j < n
                invariant
                    n == self.body@.len(),
                    i < j <= n,
                    here == self.body@[i as int],
                    forall|b: int| i < b < j ==> self.body@[i as int] != self.body@[b],
                decreases n - j,
            {
                let there = self.body[j];
                if here.0 == there.0 && here.1 == there.1 && here.2 == there.2 {
                    assert(self.body@[i as int] == self.body@[j as int]);
                    return true;
                }
                j += 1;
            }
            i += 1;
        }
        false
    }
}

impl Draw for Snake {
    open spec fn drawable(&self) -> bool {
        self@.drawable()
    }

    open spec fn glyphs(&self) -> Seq<(char, Vec2)> {
        self@.glyphs()
    }

    fn can_draw(&self) -> (ok: bool) {
        let mut i: usize = 0;
        while i < self.body.len()
            invariant
                i <= self.body@.len(),
                forall|k: int| 0 <= k < i ==> projects(#[trigger] self.body@[k]),
            decreases self.body@.len() - i,
        {
            if !fits_screen(self.body[i]) {
                assert(!projects(self@.body[i as int]));
                return false;
            }
            i += 1;
        }
        true
    }

    fn draw(&self) -> (out: Vec<(char, Vec2)>) {
        let mut out: Vec<(char, Vec2)> = Vec::new();
        let mut i: usize = 0;
        while i < self.body.len()
            invariant
                self@.drawable(),
                i <= self.body@.len(),
                out@ == self@.glyphs().take(i as int),
            decreases self.body@.len() - i,
        {
            let screen_vec = coord_to_screen(self.body[i]);
            out.push(('S', screen_vec));
            i += 1;
            assert(out@ =~= self@.glyphs().take(i as int));
        }
        assert(self@.glyphs().take(i as int) =~= self@.glyphs());
        out
    }
}

} // verus!
