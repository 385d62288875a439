//! Coordinates of rooms in the three-dimensional grid, and the six compass
//! directions with their fixed coordinate deltas.

use vstd::prelude::*;

verus! {

/// A position in the grid: an ordered triple of signed integers.
#[derive(Copy, Clone, PartialEq, Eq, Structural, Debug)]
pub struct Location {
    pub x: i32,
    pub y: i32,
    pub z: i32,
}

impl View for Location {
    type V = (int, int, int);

    open spec fn view(&self) -> (int, int, int) {
        (self.x as int, self.y as int, self.z as int)
    }
}

/// One of the six ways to leave a room.
#[derive(Copy, Clone, PartialEq, Eq, Structural, Debug)]
pub enum Direction {
    North,
    South,
    West,
    East,
    Down,
    Up,
}

/// The fixed delta each direction adds to a coordinate.
pub open spec fn spec_delta(d: Direction) -> (int, int, int) {
    match d {
        Direction::North => (0, -1, 0),
        Direction::South => (0, 1, 0),
        Direction::West => (-1, 0, 0),
        Direction::East => (1, 0, 0),
        Direction::Down => (0, 0, 1),
        Direction::Up => (0, 0, -1),
    }
}

/// The coordinate one step in direction `d` from `c`.
pub open spec fn spec_neighbor(c: (int, int, int), d: Direction) -> (int, int, int) {
    (c.0 + spec_delta(d).0, c.1 + spec_delta(d).1, c.2 + spec_delta(d).2)
}

/// Every component leaves room for one more step in either sense, so all six
/// neighbor coordinates are representable.
pub open spec fn spec_in_bounds(c: (int, int, int)) -> bool {
    &&& i32::MIN < c.0 < i32::MAX
    &&& i32::MIN < c.1 < i32::MAX
    &&& i32::MIN < c.2 < i32::MAX
}

/// The six directions in the fixed probing order.
pub open spec fn spec_all_directions() -> Seq<Direction> {
    seq![
        Direction::North,
        Direction::South,
        Direction::West,
        Direction::East,
        Direction::Down,
        Direction::Up,
    ]
}

impl Location {
    pub fn in_bounds(&self) -> (r: bool)
        ensures
            r == spec_in_bounds(self@),
    {
        self.x > i32::MIN && self.x < i32::MAX && self.y > i32::MIN && self.y < i32::MAX
            && self.z > i32::MIN && self.z < i32::MAX
    }

    /// The coordinate written as a parenthesized triple.
    pub fn text(&self) -> (r: String)
        ensures
            r@ == spec_location_string(self@),
    {
        let mut r = String::from_str("(");
        r.append(crate::text::i32_string(self.x).as_str());
        r.append(", ");
        r.append(crate::text::i32_string(self.y).as_str());
        r.append(", ");
        r.append(crate::text::i32_string(self.z).as_str());
        r.append(")");
        r
    }

    /// The coordinate one step away in direction `d`.
    pub fn neighbor(&self, d: Direction) -> (r: Location)
        requires
            spec_in_bounds(self@),
        ensures
            r@ == spec_neighbor(self@, d),
    {
        match d {
            Direction::North => Location { x: self.x, y: self.y - 1, z: self.z },
            Direction::South => Location { x: self.x, y: self.y + 1, z: self.z },
            Direction::West => Location { x: self.x - 1, y: self.y, z: self.z },
            Direction::East => Location { x: self.x + 1, y: self.y, z: self.z },
            Direction::Down => Location { x: self.x, y: self.y, z: self.z + 1 },
            Direction::Up => Location { x: self.x, y: self.y, z: self.z - 1 },
        }
    }
}

/// Every direction is one of the six variants.
pub proof fn lemma_direction_cases(d: Direction)
    ensures
        d == Direction::North || d == Direction::South || d == Direction::West || d
            == Direction::East || d == Direction::Down || d == Direction::Up,
{
    match d {
        Direction::North => {},
        Direction::South => {},
        Direction::West => {},
        Direction::East => {},
        Direction::Down => {},
        Direction::Up => {},
    }
}

/// A coordinate written as a parenthesized triple, as shown to the player.
pub open spec fn spec_location_string(c: (int, int, int)) -> Seq<char> {
    "("@ + crate::text::spec_int_string(c.0) + ", "@ + crate::text::spec_int_string(c.1) + ", "@
        + crate::text::spec_int_string(c.2) + ")"@
}

/// The name each direction is typed and shown as.
pub open spec fn spec_direction_name(d: Direction) -> Seq<char> {
    match d {
        Direction::North => "north"@,
        Direction::South => "south"@,
        Direction::West => "west"@,
        Direction::East => "east"@,
        Direction::Down => "down"@,
        Direction::Up => "up"@,
    }
}

/// Which direction, if any, a (lower-case) token names.
pub open spec fn spec_parse_direction(s: Seq<char>) -> Option<Direction> {
    if s == "north"@ {
        Some(Direction::North)
    } else if s == "south"@ {
        Some(Direction::South)
    } else if s == "west"@ {
        Some(Direction::West)
    } else if s == "east"@ {
        Some(Direction::East)
    } else if s == "down"@ {
        Some(Direction::Down)
    } else if s == "up"@ {
        Some(Direction::Up)
    } else {
        None
    }
}

impl Direction {
    pub fn name(&self) -> (r: &'static str)
        ensures
            r@ == spec_direction_name(*self),
    {
        match self {
            Direction::North => "north",
            Direction::South => "south",
            Direction::West => "west",
            Direction::East => "east",
            Direction::Down => "down",
            Direction::Up => "up",
        }
    }

    /// Case-sensitive exact match against the six direction names.
    pub fn from_string(s: &String) -> (r: Option<Direction>)
        ensures
            r == spec_parse_direction(s@),
    {
        if crate::text::str_eq(s, "north") {
            Some(Direction::North)
        } else if crate::text::str_eq(s, "south") {
            Some(Direction::South)
        } else if crate::text::str_eq(s, "west") {
            Some(Direction::West)
        } else if crate::text::str_eq(s, "east") {
            Some(Direction::East)
        } else if crate::text::str_eq(s, "down") {
            Some(Direction::Down)
        } else if crate::text::str_eq(s, "up") {
            Some(Direction::Up)
        } else {
            None
        }
    }
}

} // verus!
