//! Rooms and the sparse room store: a mapping from coordinates to rooms,
//! viewed as a `Map` from coordinate triples to room contents. Rooms are
//! created at world initialization or by digging, and are never destroyed.

use vstd::prelude::*;

use crate::geometry::{
    spec_all_directions,
    spec_in_bounds,
    spec_neighbor,
    Direction,
    Location,
};
use crate::objects::{Object, ObjectSet};

verus! {

/// A room: an optional fixed description (a generated default that names the
/// coordinate is shown when absent) and the objects on its floor.
pub struct Room {
    pub description: Option<String>,
    pub objects: ObjectSet,
}

/// What a room means: the description characters, if any, and the object set.
pub struct RoomV {
    pub description: Option<Seq<char>>,
    pub objects: Set<Object>,
}

impl View for Room {
    type V = RoomV;

    open spec fn view(&self) -> RoomV {
        RoomV {
            description: match self.description {
                Some(ref s) => Some(s@),
                None => None,
            },
            objects: self.objects@,
        }
    }
}

impl Room {
    pub fn new() -> (r: Room)
        ensures
            r@.description is None,
            r@.objects == Set::<Object>::empty(),
    {
        Room { description: None, objects: ObjectSet::empty() }
    }

    pub fn with_description(self, description: &str) -> (r: Room)
        ensures
            r@.description == Some(description@),
            r@.objects == self@.objects,
    {
        Room { description: Some(description.to_owned()), ..self }
    }

    /// Adds the objects to the floor; anything already lying there stays.
    pub fn with_objects(self, objects: ObjectSet) -> (r: Room)
        ensures
            r@.description == self@.description,
            r@.objects == self@.objects.union(objects@),
    {
        let extended = self.objects.union(objects);
        Room { objects: extended, ..self }
    }
}

/// The store entries read as a map from coordinate triples to room contents;
/// a later entry for the same key would win, but well-formed stores keep the
/// keys distinct.
pub open spec fn spec_map_of(entries: Seq<(Location, Room)>) -> Map<(int, int, int), RoomV>
    decreases entries.len(),
{
    if entries.len() == 0 {
        Map::empty()
    } else {
        spec_map_of(entries.drop_last()).insert(entries.last().0@, entries.last().1@)
    }
}

/// No two entries share a coordinate.
pub open spec fn spec_keys_distinct(entries: Seq<(Location, Room)>) -> bool {
    forall|i: int, j: int|
        0 <= i < j < entries.len() ==> (#[trigger] entries[i]).0@ != (#[trigger] entries[j]).0@
}

/// Every stored coordinate has all six neighbors representable.
pub open spec fn spec_entries_in_bounds(entries: Seq<(Location, Room)>) -> bool {
    forall|i: int| 0 <= i < entries.len() ==> spec_in_bounds((#[trigger] entries[i]).0@)
}

proof fn lemma_map_of_membership(entries: Seq<(Location, Room)>, k: (int, int, int))
    ensures
        spec_map_of(entries).contains_key(k) <==> exists|i: int|
            0 <= i < entries.len() && (#[trigger] entries[i]).0@ == k,
    decreases entries.len(),
{
    if entries.len() > 0 {
        lemma_map_of_membership(entries.drop_last(), k);
        let n = entries.len() - 1;
        if entries.last().0@ == k {
            assert(entries[n].0@ == k);
        } else if spec_map_of(entries).contains_key(k) {
            let i = choose|i: int| 0 <= i < entries.drop_last().len() && (#[trigger] entries.drop_last()[i]).0@ == k;
            assert(entries[i].0@ == k);
        } else {
            assert forall|i: int| 0 <= i < entries.len() implies (#[trigger] entries[i]).0@ != k by {
                if i < n {
                    assert(entries.drop_last()[i].0@ != k);
                }
            }
        }
    }
}

proof fn lemma_map_of_index(entries: Seq<(Location, Room)>, i: int)
    requires
        spec_keys_distinct(entries),
        0 <= i < entries.len(),
    ensures
        spec_map_of(entries).contains_key(entries[i].0@),
        spec_map_of(entries)[entries[i].0@] == entries[i].1@,
    decreases entries.len(),
{
    let n = entries.len() - 1;
    if i < n {
        assert(entries.drop_last()[i] == entries[i]);
        lemma_map_of_index(entries.drop_last(), i);
        assert(entries[i].0@ != entries[n].0@);
    }
}

proof fn lemma_map_of_update(entries: Seq<(Location, Room)>, i: int, e: (Location, Room))
    requires
        spec_keys_distinct(entries),
        0 <= i < entries.len(),
        e.0 == entries[i].0,
    ensures
        spec_map_of(entries.update(i, e)) =~= spec_map_of(entries).insert(e.0@, e.1@),
    decreases entries.len(),
{
    let n = entries.len() - 1;
    if i == n {
        assert(entries.update(i, e).drop_last() =~= entries.drop_last());
        assert(entries.update(i, e).last() == e);
    } else {
        assert(entries.update(i, e).drop_last() =~= entries.drop_last().update(i, e));
        assert(entries.update(i, e).last() == entries.last());
        assert(entries.drop_last()[i] == entries[i]);
        lemma_map_of_update(entries.drop_last(), i, e);
        assert(entries[i].0@ != entries[n].0@);
    }
}

/// The room store.
pub struct Dungeon {
    rooms: Vec<(Location, Room)>,
}

impl View for Dungeon {
    type V = Map<(int, int, int), RoomV>;

    closed spec fn view(&self) -> Map<(int, int, int), RoomV> {
        spec_map_of(self.rooms@)
    }
}

/// The two rooms every world starts with.
pub open spec fn spec_initial_dungeon() -> Map<(int, int, int), RoomV> {
    Map::empty().insert(
        (0, 0, 0),
        RoomV {
            description: Some("The room where it all started..."@),
            objects: set![Object::Ladder, Object::Sledge],
        },
    ).insert(
        (1, 1, 5),
        RoomV { description: Some("You found it! Lots of gold!"@), objects: Set::empty() },
    )
}

impl Dungeon {
    /// Coordinates are distinct and have all neighbors representable.
    pub closed spec fn wf(&self) -> bool {
        spec_keys_distinct(self.rooms@) && spec_entries_in_bounds(self.rooms@)
    }

    /// Any coordinate of a room in a well-formed store is in bounds.
    pub proof fn lemma_key_in_bounds(&self, k: (int, int, int))
        requires
            self.wf(),
            self@.contains_key(k),
        ensures
            spec_in_bounds(k),
    {
        lemma_map_of_membership(self.rooms@, k);
        let i = choose|i: int| 0 <= i < self.rooms@.len() && (#[trigger] self.rooms@[i]).0@ == k;
        assert(spec_in_bounds(self.rooms@[i].0@));
    }

    /// The world at start: the starting room with a ladder and a sledge, and
    /// the prize room.
    pub fn new() -> (r: Dungeon)
        ensures
            r.wf(),
            r@ == spec_initial_dungeon(),
    {
        let start_objects = ObjectSet { ladder: true, sledge: true, gold: false };
        proof {
            assert(Set::<Object>::empty().union(start_objects@) =~= set![
                Object::Ladder,
                Object::Sledge,
            ]);
        }
        let start = Room::new().with_description("The room where it all started...").with_objects(
            start_objects,
        );
        let prize = Room::new().with_description("You found it! Lots of gold!");
        let mut rooms: Vec<(Location, Room)> = Vec::new();
        rooms.push((Location { x: 0, y: 0, z: 0 }, start));
        rooms.push((Location { x: 1, y: 1, z: 5 }, prize));
        let r = Dungeon { rooms };
        proof {
            let entries = r.rooms@;
            let first = entries.drop_last();
            assert(first.drop_last() =~= Seq::<(Location, Room)>::empty());
            assert(spec_map_of(first.drop_last()) == Map::<(int, int, int), RoomV>::empty());
            assert(spec_map_of(first) == Map::<(int, int, int), RoomV>::empty().insert(
                first.last().0@,
                first.last().1@,
            ));
            assert(spec_map_of(entries) == spec_map_of(first).insert(
                entries.last().0@,
                entries.last().1@,
            ));
            assert(r@ =~= spec_initial_dungeon());
        }
        r
    }

    /// The index of the entry at `loc`, or `None` when no room is there.
    fn index_of(&self, loc: Location) -> (r: Option<usize>)
        ensures
            match r {
                Some(i) => i < self.rooms@.len() && self.rooms@[i as int].0 == loc,
                None => forall|j: int|
                    0 <= j < self.rooms@.len() ==> (#[trigger] self.rooms@[j]).0@ != loc@,
            },
    {
        let mut i: usize = 0;
        while i < self.rooms.len()
            invariant
                0 <= i <= self.rooms@.len(),
                forall|j: int| 0 <= j < i ==> (#[trigger] self.rooms@[j]).0@ != loc@,
            decreases self.rooms@.len() - i,
        {
            if self.rooms[i].0 == loc {
                return Some(i);
            }
            i = i + 1;
        }
        None
    }

    /// Whether a room exists at `loc`: exactly when `loc` is a key.
    pub fn contains_key(&self, loc: Location) -> (r: bool)
        ensures
            r == self@.contains_key(loc@),
    {
        proof {
            lemma_map_of_membership(self.rooms@, loc@);
        }
        match self.index_of(loc) {
            Some(i) => {
                proof {
                    assert(self.rooms@[i as int].0@ == loc@);
                }
                true
            },
            None => false,
        }
    }

    /// The room at `loc`; the caller guarantees one is there.
    pub fn room_at(&self, loc: Location) -> (r: &Room)
        requires
            self.wf(),
            self@.contains_key(loc@),
        ensures
            r@ == self@[loc@],
    {
        proof {
            lemma_map_of_membership(self.rooms@, loc@);
        }
        match self.index_of(loc) {
            Some(i) => {
                proof {
                    lemma_map_of_index(self.rooms@, i as int);
                }
                &self.rooms[i].1
            },
            None => unreached(),
        }
    }

    /// The objects on the floor at `loc`.
    pub fn objects_at(&self, loc: Location) -> (r: ObjectSet)
        requires
            self.wf(),
            self@.contains_key(loc@),
        ensures
            r@ == self@[loc@].objects,
    {
        self.room_at(loc).objects
    }

    /// Replaces the floor set at `loc`, leaving the description alone.
    pub fn set_objects(&mut self, loc: Location, objects: ObjectSet)
        requires
            old(self).wf(),
            old(self)@.contains_key(loc@),
        ensures
            final(self).wf(),
            final(self)@ == old(self)@.insert(
                loc@,
                RoomV { description: old(self)@[loc@].description, objects: objects@ },
            ),
    {
        proof {
            lemma_map_of_membership(self.rooms@, loc@);
        }
        let ghost entries = self.rooms@;
        match self.index_of(loc) {
            Some(i) => {
                proof {
                    lemma_map_of_index(entries, i as int);
                }
                self.rooms[i].1.objects = objects;
                proof {
                    let e = self.rooms@[i as int];
                    assert(self.rooms@ == entries.update(i as int, e));
                    assert(e.0 == entries[i as int].0);
                    assert(e.1@ == RoomV {
                        description: old(self)@[loc@].description,
                        objects: objects@,
                    });
                    lemma_map_of_update(entries, i as int, e);
                    assert(spec_keys_distinct(self.rooms@));
                    assert(spec_entries_in_bounds(self.rooms@));
                    assert(final(self)@ =~= old(self)@.insert(
                        loc@,
                        RoomV { description: old(self)@[loc@].description, objects: objects@ },
                    ));
                }
            },
            None => unreached(),
        }
    }

    /// Adds a room at a coordinate that holds none yet.
    pub fn insert_room(&mut self, loc: Location, room: Room)
        requires
            old(self).wf(),
            !old(self)@.contains_key(loc@),
            spec_in_bounds(loc@),
        ensures
            final(self).wf(),
            final(self)@ == old(self)@.insert(loc@, room@),
    {
        proof {
            lemma_map_of_membership(self.rooms@, loc@);
        }
        let ghost entries = self.rooms@;
        self.rooms.push((loc, room));
        proof {
            assert(self.rooms@.drop_last() =~= entries);
            assert(spec_keys_distinct(self.rooms@));
            assert(spec_entries_in_bounds(self.rooms@));
        }
    }

    /// The directions, in the fixed order, whose neighbor coordinate holds a
    /// room.
    pub fn exits_for_room(&self, loc: Location) -> (r: Vec<Direction>)
        requires
            self.wf(),
            spec_in_bounds(loc@),
        ensures
            r@ == spec_exits(self@, loc@),
    {
        let dirs: Vec<Direction> = vec![
            Direction::North,
            Direction::South,
            Direction::West,
            Direction::East,
            Direction::Down,
            Direction::Up,
        ];
        proof {
            assert(dirs@ =~= spec_all_directions());
        }
        let mut out: Vec<Direction> = Vec::new();
        proof {
            assert(dirs@.skip(0) =~= dirs@);
            assert(Seq::<Direction>::empty() + spec_exits_from(self@, loc@, dirs@) =~= spec_exits_from(
                self@,
                loc@,
                dirs@,
            ));
        }
        let mut i: usize = 0;
        while i < dirs.len()
            invariant
                0 <= i <= dirs@.len(),
                dirs@ == spec_all_directions(),
                self.wf(),
                spec_in_bounds(loc@),
                spec_exits(self@, loc@) == out@ + spec_exits_from(self@, loc@, dirs@.skip(i as int)),
            decreases dirs@.len() - i,
        {
            let ghost rest = dirs@.skip(i as int);
            proof {
                assert(rest[0] == dirs@[i as int]);
                assert(rest.skip(1) =~= dirs@.skip(i as int + 1));
            }
            let d = dirs[i];
            if self.contains_key(loc.neighbor(d)) {
                out.push(d);
                proof {
                    assert(out@ + spec_exits_from(self@, loc@, rest.skip(1)) =~= out@.drop_last()
                        + (seq![d] + spec_exits_from(self@, loc@, rest.skip(1))));
                }
            } else {
                proof {
                    assert(Seq::<Direction>::empty() + spec_exits_from(self@, loc@, rest.skip(1))
                        =~= spec_exits_from(self@, loc@, rest.skip(1)));
                }
            }
            i = i + 1;
        }
        proof {
            assert(dirs@.skip(6) =~= Seq::<Direction>::empty());
            assert(out@ + Seq::<Direction>::empty() =~= out@);
        }
        out
    }
}

/// The directions of `ds`, kept in order, whose neighbor of `c` is a key of
/// `m`.
pub open spec fn spec_exits_from(
    m: Map<(int, int, int), RoomV>,
    c: (int, int, int),
    ds: Seq<Direction>,
) -> Seq<Direction>
    decreases ds.len(),
{
    if ds.len() == 0 {
        Seq::empty()
    } else {
        (if m.contains_key(spec_neighbor(c, ds[0])) {
            seq![ds[0]]
        } else {
            Seq::empty()
        }) + spec_exits_from(m, c, ds.skip(1))
    }
}

/// The exits of the room at `c`: the six directions probed in the fixed
/// order, kept exactly when the neighbor coordinate is a key of the store.
pub open spec fn spec_exits(m: Map<(int, int, int), RoomV>, c: (int, int, int)) -> Seq<Direction> {
    spec_exits_from(m, c, spec_all_directions())
}

proof fn lemma_exits_from_contains(
    m: Map<(int, int, int), RoomV>,
    c: (int, int, int),
    ds: Seq<Direction>,
    d: Direction,
)
    ensures
        spec_exits_from(m, c, ds).contains(d) <==> ds.contains(d) && m.contains_key(
            spec_neighbor(c, d),
        ),
    decreases ds.len(),
{
    if ds.len() > 0 {
        lemma_exits_from_contains(m, c, ds.skip(1), d);
        let s = spec_exits_from(m, c, ds);
        let head: Seq<Direction> = if m.contains_key(spec_neighbor(c, ds[0])) {
            seq![ds[0]]
        } else {
            Seq::empty()
        };
        let tail = spec_exits_from(m, c, ds.skip(1));
        if ds.contains(d) && m.contains_key(spec_neighbor(c, d)) {
            let i = choose|i: int| 0 <= i < ds.len() && ds[i] == d;
            if i == 0 {
                assert(s[0] == d);
            } else {
                assert(ds.skip(1)[i - 1] == d);
                assert(ds.skip(1).contains(d));
                let j = choose|j: int| 0 <= j < tail.len() && tail[j] == d;
                assert(s[head.len() + j] == d);
            }
            assert(s.contains(d));
        }
        if s.contains(d) {
            let i = choose|i: int| 0 <= i < s.len() && s[i] == d;
            if i < head.len() {
                assert(d == ds[0]);
                assert(ds[0] == d && m.contains_key(spec_neighbor(c, d)));
            } else {
                assert(tail[i - head.len()] == d);
                assert(tail.contains(d));
                let j = choose|j: int| 0 <= j < ds.skip(1).len() && ds.skip(1)[j] == d;
                assert(ds[j + 1] == d);
            }
            assert(ds.contains(d));
        }
    }
}

/// A direction is an exit exactly when the neighbor coordinate one step that
/// way is a key of the store.
pub proof fn lemma_exits_exact(m: Map<(int, int, int), RoomV>, c: (int, int, int), d: Direction)
    ensures
        spec_exits(m, c).contains(d) <==> m.contains_key(spec_neighbor(c, d)),
{
    lemma_exits_from_contains(m, c, spec_all_directions(), d);
    crate::geometry::lemma_direction_cases(d);
    let ds = spec_all_directions();
    if d == Direction::North {
        assert(ds[0] == d);
    } else if d == Direction::South {
        assert(ds[1] == d);
    } else if d == Direction::West {
        assert(ds[2] == d);
    } else if d == Direction::East {
        assert(ds[3] == d);
    } else if d == Direction::Down {
        assert(ds[4] == d);
    } else {
        assert(ds[5] == d);
    }
    assert(ds.contains(d));
}

} // verus!
