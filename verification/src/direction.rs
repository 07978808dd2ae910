//! Headings of the snake, the step each one stands for, and the keys that
//! select them.

use crate::coord::Vec3;
use ruscii::keyboard::{Key, KeyEvent};
use std::ops::Add;
use vstd::prelude::*;
use vstd::std_specs::convert::FromSpecImpl;
use vstd::std_specs::ops::AddSpecImpl;

verus! {

/// `ruscii::keyboard::Key`, the keys of the keyboard: an enum without
/// fields.
#[verifier::external_type_specification]
pub struct ExKey(Key);

/// `ruscii::keyboard::KeyEvent`: a key was pressed, or released.
#[verifier::external_type_specification]
pub struct ExKeyEvent(KeyEvent);

/// A heading in the grid, or the absence of one.
#[derive(Debug, Clone, Copy, PartialEq, Eq, Structural)]
pub enum Direction {
    North,
    South,
    West,
    East,
    Up,
    Down,
    /// No heading: as an input, the snake keeps the heading it has.
    Unset,
}

impl Direction {
    /// The unit step that this heading stands for.
    pub open spec fn delta(self) -> (int, int, int) {
        match self {
            Direction::North => (0, -1, 0),
            Direction::South => (0, 1, 0),
            Direction::West => (-1, 0, 0),
            Direction::East => (1, 0, 0),
            Direction::Up => (0, 0, 1),
            Direction::Down => (0, 0, -1),
            Direction::Unset => (0, 0, 0),
        }
    }

    /// The heading that a key selects: the four arrows and the space bar
    /// select one, every other key selects none.
    pub open spec fn of_key(key: Key) -> Direction {
        match key {
            Key::Up => Direction::North,
            Key::Down => Direction::South,
            Key::Left => Direction::West,
            Key::Right => Direction::East,
            Key::Space => Direction::Up,
            _ => Direction::Unset,
        }
    }

    /// The heading that an event selects: that of the key if it was pressed,
    /// none if it was released.
    pub open spec fn of_event(event: KeyEvent) -> Direction {
        match event {
            KeyEvent::Pressed(key) => Direction::of_key(key),
            KeyEvent::Released(_) => Direction::Unset,
        }
    }

    /// The heading that the events of one tick select: that of the last
    /// event that selects one, and none where no event does.
    pub open spec fn of_events(events: Seq<KeyEvent>) -> Direction
        decreases events.len(),
    {
        if events.len() == 0 {
            Direction::Unset
        } else if Direction::of_event(events.last()) != Direction::Unset {
            Direction::of_event(events.last())
        } else {
            Direction::of_events(events.drop_last())
        }
    }

    /// Folds the key events of one tick, oldest first, into the heading they
    /// ask for: the most recent press of a key that selects a heading wins.
    pub fn from_events(events: &[KeyEvent]) -> (dir: Direction)
        ensures
            dir == Direction::of_events(events@),
    {
        let mut i: usize = events.len();
        assert(events@.take(i as int) =~= events@);
        while i > 0
            invariant
                i <= events.len(),
                Direction::of_events(events@) == Direction::of_events(events@.take(i as int)),
            decreases i,
        {
            let dir = match events[i - 1] {
                KeyEvent::Pressed(key) => Direction::from(key),
                KeyEvent::Released(_) => Direction::Unset,
            };
            proof {
                let head = events@.take(i as int);
                assert(head.last() == events@[i - 1]);
                assert(head.drop_last() =~= events@.take(i - 1));
            }
            if dir != Direction::Unset {
                return dir;
            }
            i -= 1;
        }
        Direction::Unset
    }
}

impl FromSpecImpl<Key> for Direction {
    open spec fn obeys_from_spec() -> bool {
        true
    }

    open spec fn from_spec(key: Key) -> Direction {
        Direction::of_key(key)
    }
}

impl From<Key> for Direction {
    fn from(key: Key) -> (dir: Direction) {
        match key {
            Key::Up => Direction::North,
            Key::Down => Direction::South,
            Key::Left => Direction::West,
            Key::Right => Direction::East,
            Key::Space => Direction::Up,
            _ => Direction::Unset,
        }
    }
}

/// Whether the step from `coord` in direction `dir` stays within `isize` on
/// every axis.
pub open spec fn can_step(coord: Vec3, dir: Direction) -> bool {
    &&& isize::MIN <= coord.0 + dir.delta().0 <= isize::MAX
    &&& isize::MIN <= coord.1 + dir.delta().1 <= isize::MAX
    &&& isize::MIN <= coord.2 + dir.delta().2 <= isize::MAX
}

/// The coordinate one step from `coord` in direction `dir`.
pub open spec fn moved(coord: Vec3, dir: Direction) -> Vec3 {
    (
        (coord.0 + dir.delta().0) as isize,
        (coord.1 + dir.delta().1) as isize,
        (coord.2 + dir.delta().2) as isize,
    )
}

impl AddSpecImpl<Direction> for Vec3 {
    open spec fn obeys_add_spec() -> bool {
        true
    }

    open spec fn add_req(self, dir: Direction) -> bool {
        can_step(self, dir)
    }

    open spec fn add_spec(self, dir: Direction) -> Vec3 {
        moved(self, dir)
    }
}

impl Add<Direction> for Vec3 {
    type Output = Vec3;

    fn add(self, dir: Direction) -> (sum: Vec3) {
        let (x, y, z) = self;
        match dir {
            Direction::North => (x, y - 1, z),
            Direction::South => (x, y + 1, z),
            Direction::West => (x - 1, y, z),
            Direction::East => (x + 1, y, z),
            Direction::Up => (x, y, z + 1),
            Direction::Down => (x, y, z - 1),
            Direction::Unset => (x, y, z),
        }
    }
}

} // verus!
