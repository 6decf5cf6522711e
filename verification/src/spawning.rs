//! Which route a request for a vehicle means.
//!
//! A request names a side, by an arrow key, or nothing at all; chance fills
//! in the rest. The functions here turn what chance drew into a route, so
//! that the same draws always mean the same route.

use crate::geometry::{Direction, LanePair};
use vstd::prelude::*;

verus! {

/// The sides of the crossing in the order in which chance picks among them.
pub open spec fn spec_side(choice: int) -> Direction {
    if choice == 0 {
        Direction::North
    } else if choice == 1 {
        Direction::South
    } else if choice == 2 {
        Direction::East
    } else {
        Direction::West
    }
}

/// The side picked by `choice` among the three that are not `origin`, kept
/// in the order north, south, east, west.
pub open spec fn spec_exit_for_choice(origin: Direction, choice: int) -> Direction {
    if choice < origin_rank(origin) {
        spec_side(choice)
    } else {
        spec_side(choice + 1)
    }
}

/// The place of a side in the order north, south, east, west.
pub open spec fn origin_rank(side: Direction) -> int {
    match side {
        Direction::North => 0,
        Direction::South => 1,
        Direction::East => 2,
        Direction::West => 3,
    }
}

/// The route picked by two choices: `first` picks the side the vehicle
/// leaves towards among all four, `second` picks the side it comes from
/// among the other three.
pub open spec fn spec_pair_for_choices(first: int, second: int) -> LanePair {
    LanePair::spec_new(spec_exit_for_choice(spec_side(first), second), spec_side(first)).unwrap()
}

/// A key that asks for a vehicle from a given side.
#[derive(Clone, Copy, Debug, PartialEq, Eq, Structural)]
pub enum ArrowKey {
    Up,
    Down,
    Left,
    Right,
}

impl ArrowKey {
    /// The side a vehicle asked for by this key comes from: it drives the
    /// way the arrow points.
    pub open spec fn spec_origin(self) -> Direction {
        match self {
            ArrowKey::Up => Direction::South,
            ArrowKey::Down => Direction::North,
            ArrowKey::Left => Direction::East,
            ArrowKey::Right => Direction::West,
        }
    }

    /// The side a vehicle asked for by this key comes from.
    #[verifier::when_used_as_spec(spec_origin)]
    pub fn origin(self) -> (r: Direction)
        ensures
            r == self.spec_origin(),
    {
        match self {
            ArrowKey::Up => Direction::South,
            ArrowKey::Down => Direction::North,
            ArrowKey::Left => Direction::East,
            ArrowKey::Right => Direction::West,
        }
    }
}

/// The side picked by `choice` among all four.
pub fn side_for_choice(choice: usize) -> (r: Direction)
    requires
        choice < 4,
    ensures
        r == spec_side(choice as int),
{
    if choice == 0 {
        Direction::North
    } else if choice == 1 {
        Direction::South
    } else if choice == 2 {
        Direction::East
    } else {
        Direction::West
    }
}

/// The side picked by `choice` among the three that are not `origin`.
pub fn exit_for_choice(origin: Direction, choice: usize) -> (r: Direction)
    requires
        choice < 3,
    ensures
        r == spec_exit_for_choice(origin, choice as int),
        r != origin,
{
    let rank: usize = match origin {
        Direction::North => 0,
        Direction::South => 1,
        Direction::East => 2,
        Direction::West => 3,
    };
    if choice < rank {
        side_for_choice(choice)
    } else {
        side_for_choice(choice + 1)
    }
}

/// The route of a vehicle asked for by `key` when chance picks `choice`
/// among the three sides it can leave towards.
pub fn pair_for_key(key: ArrowKey, choice: usize) -> (r: LanePair)
    requires
        choice < 3,
    ensures
        Some(r) == LanePair::spec_new(
            key.spec_origin(),
            spec_exit_for_choice(key.spec_origin(), choice as int),
        ),
        r.spec_origin() == key.spec_origin(),
{
    let origin: Direction = key.origin();
    LanePair::between(origin, exit_for_choice(origin, choice))
}

/// The route picked by two choices: `first` picks the side the vehicle
/// leaves towards among all four, `second` picks the side it comes from
/// among the other three.
pub fn pair_for_choices(first: usize, second: usize) -> (r: LanePair)
    requires
        first < 4,
        second < 3,
    ensures
        r == spec_pair_for_choices(first as int, second as int),
        r.spec_exit() == spec_side(first as int),
        r.spec_origin() == spec_exit_for_choice(spec_side(first as int), second as int),
{
    let exit: Direction = side_for_choice(first);
    LanePair::between(exit_for_choice(exit, second), exit)
}

} // verus!
