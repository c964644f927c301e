use vstd::prelude::*;
use crate::text::str_eq;

verus! {

/// A compass direction in which a room may have an exit.
#[derive(Debug, Clone, Copy, PartialEq, Eq, Structural)]
pub enum Direction {
    North,
    South,
    East,
    West,
}

/// The display name of a direction.
pub open spec fn direction_name(d: Direction) -> Seq<char> {
    match d {
        Direction::North => "North"@,
        Direction::South => "South"@,
        Direction::East => "East"@,
        Direction::West => "West"@,
    }
}

/// The direction that a lower-case word names, if any.
pub open spec fn direction_of(s: Seq<char>) -> Option<Direction> {
    if s == "north"@ {
        Some(Direction::North)
    } else if s == "south"@ {
        Some(Direction::South)
    } else if s == "east"@ {
        Some(Direction::East)
    } else if s == "west"@ {
        Some(Direction::West)
    } else {
        None
    }
}

impl Direction {
    /// Reads a lower-case direction word.
    pub fn from_str(s: &str) -> (r: Option<Direction>)
        ensures
            r == direction_of(s@),
    {
        if str_eq(s, "north") {
            Some(Direction::North)
        } else if str_eq(s, "south") {
            Some(Direction::South)
        } else if str_eq(s, "east") {
            Some(Direction::East)
        } else if str_eq(s, "west") {
            Some(Direction::West)
        } else {
            None
        }
    }

    /// The name under which the direction is shown to the player.
    pub fn name(&self) -> (r: &'static str)
        ensures
            r@ == direction_name(*self),
    {
        match self {
            Direction::North => "North",
            Direction::South => "South",
            Direction::East => "East",
            Direction::West => "West",
        }
    }
}

} // verus!
