//! The player: a current coordinate, an inventory, and at most one equipped
//! object. The coordinate is only ever moved to coordinates that already hold
//! a room.

use vstd::prelude::*;

use crate::geometry::Location;
use crate::objects::{Object, ObjectSet};

verus! {

pub struct Player {
    pub location: Location,
    pub inventory: ObjectSet,
    pub equipped: Option<Object>,
}

impl Player {
    /// The player at start: in the starting room, carrying a sledge, with
    /// nothing equipped.
    pub fn new() -> (p: Player)
        ensures
            p.location@ == (0int, 0int, 0int),
            p.inventory@ == set![Object::Sledge],
            p.equipped is None,
    {
        let inventory = ObjectSet { ladder: false, sledge: true, gold: false };
        proof {
            assert(inventory@ =~= set![Object::Sledge]);
        }
        Player { location: Location { x: 0, y: 0, z: 0 }, inventory, equipped: None }
    }
}

} // verus!
