//! The action handlers, one per abstract command. Each takes the player
//! and/or the room store and the argument tokens, mutates them as the command
//! asks, and returns the exact line of text shown to the player — or `None`
//! where the command is silently ignored.

use vstd::prelude::*;

use crate::geometry::{
    spec_in_bounds,
    spec_location_string,
    spec_direction_name,
    spec_neighbor,
    spec_parse_direction,
    Direction,
    Location,
};
use crate::objects::{spec_object_list, spec_object_phrase, spec_parse_object, Object, ObjectSet};
use crate::player::Player;
use crate::rooms::{spec_exits, Dungeon, Room, RoomV};
use crate::text::spec_join;

verus! {

/// The fixed instructional text of the help command.
pub open spec fn spec_help_text() -> Seq<char> {
    "You need a sledge to dig rooms and ladders to go upwards.\nValid commands are: directions (north, south...), dig, take, drop, equip, inventory and look.\nAdditionally you can tag rooms with the 'name' command and alias commands with 'alias'.\nHave fun!"@
}

/// Emits the fixed instructional text; no state change.
pub fn help() -> (r: String)
    ensures
        r@ == spec_help_text(),
{
    String::from_str(
        "You need a sledge to dig rooms and ladders to go upwards.\nValid commands are: directions (north, south...), dig, take, drop, equip, inventory and look.\nAdditionally you can tag rooms with the 'name' command and alias commands with 'alias'.\nHave fun!",
    )
}

/// The display phrases of the objects, in the given order.
pub open spec fn spec_phrase_list(objects: Seq<Object>) -> Seq<Seq<char>> {
    objects.map_values(|o: Object| spec_object_phrase(o))
}

fn phrases_of(objects: &Vec<Object>) -> (r: Vec<String>)
    ensures
        r@.map_values(|p: String| p@) == spec_phrase_list(objects@),
{
    let mut r: Vec<String> = Vec::new();
    let mut i: usize = 0;
    while i < objects.len()
        invariant
            0 <= i <= objects@.len(),
            r@.len() == i,
            forall|j: int| 0 <= j < i ==> (#[trigger] r@[j])@ == spec_object_phrase(objects@[j]),
        decreases objects@.len() - i,
    {
        r.push(String::from_str(objects[i].phrase()));
        i = i + 1;
    }
    proof {
        assert(r@.map_values(|p: String| p@) =~= spec_phrase_list(objects@));
    }
    r
}

/// The names of the directions, in the given order.
pub open spec fn spec_name_list(dirs: Seq<Direction>) -> Seq<Seq<char>> {
    dirs.map_values(|d: Direction| spec_direction_name(d))
}

fn names_of(dirs: &Vec<Direction>) -> (r: Vec<String>)
    ensures
        r@.map_values(|p: String| p@) == spec_name_list(dirs@),
{
    let mut r: Vec<String> = Vec::new();
    let mut i: usize = 0;
    while i < dirs.len()
        invariant
            0 <= i <= dirs@.len(),
            r@.len() == i,
            forall|j: int| 0 <= j < i ==> (#[trigger] r@[j])@ == spec_direction_name(dirs@[j]),
        decreases dirs@.len() - i,
    {
        r.push(String::from_str(dirs[i].name()));
        i = i + 1;
    }
    proof {
        assert(r@.map_values(|p: String| p@) =~= spec_name_list(dirs@));
    }
    r
}

/// The one line the look command emits for a room: its description (or the
/// generated default naming the coordinate), a floor clause when objects lie
/// there, and an exits clause in one of three forms by exit count.
pub open spec fn spec_look_msg(room: RoomV, c: (int, int, int), exits: Seq<Direction>) -> Seq<
    char,
> {
    (match room.description {
        Some(d) => d,
        None => "Room at "@ + spec_location_string(c) + "."@,
    }) + (if room.objects == Set::<Object>::empty() {
        Seq::<char>::empty()
    } else {
        " On the floor you can see: "@ + spec_join(
            spec_phrase_list(spec_object_list(room.objects)),
            ", "@,
        ) + "."@
    }) + (if exits.len() == 0 {
        " There are no exits in this room."@
    } else if exits.len() == 1 {
        " There is one exit: "@ + spec_direction_name(exits[0]) + "."@
    } else {
        " Exits: "@ + spec_join(spec_name_list(exits), ", "@) + "."@
    })
}

/// The look line for the room at `loc`.
#[verifier::rlimit(60)]
pub fn look_line(dungeon: &Dungeon, loc: Location) -> (r: String)
    requires
        dungeon.wf(),
        dungeon@.contains_key(loc@),
    ensures
        r@ == spec_look_msg(dungeon@[loc@], loc@, spec_exits(dungeon@, loc@)),
{
    proof {
        dungeon.lemma_key_in_bounds(loc@);
    }
    let ghost room_v = dungeon@[loc@];
    let room = dungeon.room_at(loc);
    let objects = room.objects;
    let mut out: String = match &room.description {
        Some(d) => d.clone(),
        None => {
            let mut s = String::from_str("Room at ");
            s.append(loc.text().as_str());
            s.append(".");
            s
        },
    };
    proof {
        assert(out@ == match room_v.description {
            Some(d) => d,
            None => "Room at "@ + spec_location_string(loc@) + "."@,
        });
    }
    let ghost with_floor = out@ + (if room_v.objects == Set::<Object>::empty() {
        Seq::<char>::empty()
    } else {
        " On the floor you can see: "@ + spec_join(
            spec_phrase_list(spec_object_list(room_v.objects)),
            ", "@,
        ) + "."@
    });
    if !objects.is_empty() {
        let list = objects.list();
        let phrases = phrases_of(&list);
        let joined = crate::text::join(&phrases, ", ");
        out.append(" On the floor you can see: ");
        out.append(joined.as_str());
        out.append(".");
        proof {
            assert(out@ =~= with_floor);
        }
    } else {
        proof {
            assert(out@ =~= with_floor);
        }
    }
    let exits = dungeon.exits_for_room(loc);
    if exits.len() == 0 {
        out.append(" There are no exits in this room.");
    } else if exits.len() == 1 {
        out.append(" There is one exit: ");
        out.append(exits[0].name());
        out.append(".");
    } else {
        let names = names_of(&exits);
        let joined = crate::text::join(&names, ", ");
        out.append(" Exits: ");
        out.append(joined.as_str());
        out.append(".");
    }
    proof {
        assert(out@ =~= spec_look_msg(room_v, loc@, spec_exits(dungeon@, loc@)));
    }
    out
}

/// Emits the description, floor objects and exits of the room the player
/// stands in; no state change.
pub fn look(player: &Player, dungeon: &Dungeon) -> (r: String)
    requires
        dungeon.wf(),
        dungeon@.contains_key(player.location@),
    ensures
        r@ == spec_look_msg(
            dungeon@[player.location@],
            player.location@,
            spec_exits(dungeon@, player.location@),
        ),
{
    look_line(dungeon, player.location)
}

/// The one line the inventory command emits.
pub open spec fn spec_inventory_msg(inv: Set<Object>) -> Seq<char> {
    if inv == Set::<Object>::empty() {
        "You are not carrying anything"@
    } else {
        "You are carrying: "@ + spec_join(spec_phrase_list(spec_object_list(inv)), ", "@)
    }
}

/// Emits what the player is carrying; no state change.
pub fn inventory(player: &Player) -> (r: String)
    ensures
        r@ == spec_inventory_msg(player.inventory@),
{
    if player.inventory.is_empty() {
        String::from_str("You are not carrying anything")
    } else {
        let list = player.inventory.list();
        let phrases = phrases_of(&list);
        let joined = crate::text::join(&phrases, ", ");
        let mut out = String::from_str("You are carrying: ");
        out.append(joined.as_str());
        out
    }
}

/// Moves objects from the room's floor into the inventory: all of them, or
/// one named one. A named object that is parseable but absent is a silent
/// no-op; an unparseable name is complained about.
pub fn take(player: &mut Player, dungeon: &mut Dungeon, args: &Vec<String>) -> (r: Option<String>)
    requires
        old(dungeon).wf(),
        old(dungeon)@.contains_key(old(player).location@),
    ensures
        final(dungeon).wf(),
        final(player).location == old(player).location,
        final(player).equipped == old(player).equipped,
        final(dungeon)@.contains_key(final(player).location@),
        ({
            let k = old(player).location@;
            let room = old(dungeon)@[k];
            let inv = old(player).inventory@;
            if args@.len() == 0 {
                &&& final(player).inventory@ == inv
                &&& final(dungeon)@ == old(dungeon)@
                &&& r matches Some(m) && m@ == "To take something: take OBJECT|all"@
            } else if room.objects == Set::<Object>::empty() {
                &&& final(player).inventory@ == inv
                &&& final(dungeon)@ == old(dungeon)@
                &&& r matches Some(m) && m@ == "There is nothing to take here"@
            } else if args@[0]@ == "all"@ {
                &&& final(player).inventory@ == inv.union(room.objects)
                &&& final(dungeon)@ == old(dungeon)@.insert(
                    k,
                    RoomV { description: room.description, objects: Set::empty() },
                )
                &&& r matches Some(m) && m@ == "All items taken"@
            } else {
                match spec_parse_object(args@[0]@) {
                    Some(o) => {
                        if room.objects.contains(o) {
                            &&& final(player).inventory@ == inv.insert(o)
                            &&& final(dungeon)@ == old(dungeon)@.insert(
                                k,
                                RoomV {
                                    description: room.description,
                                    objects: room.objects.remove(o),
                                },
                            )
                            &&& r matches Some(m) && m@ == "Taken"@
                        } else {
                            &&& final(player).inventory@ == inv
                            &&& final(dungeon)@ == old(dungeon)@
                            &&& r is None
                        }
                    },
                    None => {
                        &&& final(player).inventory@ == inv
                        &&& final(dungeon)@ == old(dungeon)@
                        &&& r matches Some(m) && m@ == "You can't see anything like that here"@
                    },
                }
            }
        }),
{
    let loc = player.location;
    if args.len() == 0 {
        return Some(String::from_str("To take something: take OBJECT|all"));
    }
    let room_objects = dungeon.objects_at(loc);
    if room_objects.is_empty() {
        return Some(String::from_str("There is nothing to take here"));
    }
    if crate::text::str_eq(&args[0], "all") {
        player.inventory = player.inventory.union(room_objects);
        dungeon.set_objects(loc, ObjectSet::empty());
        return Some(String::from_str("All items taken"));
    }
    match Object::from_string(&args[0]) {
        Some(o) => {
            if room_objects.contains(o) {
                player.inventory = player.inventory.insert(o);
                dungeon.set_objects(loc, room_objects.remove(o));
                Some(String::from_str("Taken"))
            } else {
                None
            }
        },
        None => Some(String::from_str("You can't see anything like that here")),
    }
}

/// Moves objects from the inventory onto the room's floor: all of them, or
/// one named one. A named object that is parseable but not carried is a
/// silent no-op; an unparseable name is complained about.
pub fn drop_object(player: &mut Player, dungeon: &mut Dungeon, args: &Vec<String>) -> (r: Option<
    String,
>)
    requires
        old(dungeon).wf(),
        old(dungeon)@.contains_key(old(player).location@),
    ensures
        final(dungeon).wf(),
        final(player).location == old(player).location,
        final(player).equipped == old(player).equipped,
        final(dungeon)@.contains_key(final(player).location@),
        ({
            let k = old(player).location@;
            let room = old(dungeon)@[k];
            let inv = old(player).inventory@;
            if args@.len() == 0 {
                &&& final(player).inventory@ == inv
                &&& final(dungeon)@ == old(dungeon)@
                &&& r matches Some(m) && m@ == "To drop something: drop OBJECT|all"@
            } else if inv == Set::<Object>::empty() {
                &&& final(player).inventory@ == inv
                &&& final(dungeon)@ == old(dungeon)@
                &&& r matches Some(m) && m@ == "You are not carrying anything"@
            } else if args@[0]@ == "all"@ {
                &&& final(player).inventory@ == Set::<Object>::empty()
                &&& final(dungeon)@ == old(dungeon)@.insert(
                    k,
                    RoomV { description: room.description, objects: room.objects.union(inv) },
                )
                &&& r matches Some(m) && m@ == "All items dropped"@
            } else {
                match spec_parse_object(args@[0]@) {
                    Some(o) => {
                        if inv.contains(o) {
                            &&& final(player).inventory@ == inv.remove(o)
                            &&& final(dungeon)@ == old(dungeon)@.insert(
                                k,
                                RoomV {
                                    description: room.description,
                                    objects: room.objects.insert(o),
                                },
                            )
                            &&& r matches Some(m) && m@ == "Dropped"@
                        } else {
                            &&& final(player).inventory@ == inv
                            &&& final(dungeon)@ == old(dungeon)@
                            &&& r is None
                        }
                    },
                    None => {
                        &&& final(player).inventory@ == inv
                        &&& final(dungeon)@ == old(dungeon)@
                        &&& r matches Some(m) && m@ == "You don't have anything like that"@
                    },
                }
            }
        }),
{
    let loc = player.location;
    if args.len() == 0 {
        return Some(String::from_str("To drop something: drop OBJECT|all"));
    }
    if player.inventory.is_empty() {
        return Some(String::from_str("You are not carrying anything"));
    }
    if crate::text::str_eq(&args[0], "all") {
        let room_objects = dungeon.objects_at(loc);
        dungeon.set_objects(loc, room_objects.union(player.inventory));
        player.inventory = ObjectSet::empty();
        return Some(String::from_str("All items dropped"));
    }
    match Object::from_string(&args[0]) {
        Some(o) => {
            if player.inventory.contains(o) {
                player.inventory = player.inventory.remove(o);
                let room_objects = dungeon.objects_at(loc);
                dungeon.set_objects(loc, room_objects.insert(o));
                Some(String::from_str("Dropped"))
            } else {
                None
            }
        },
        None => Some(String::from_str("You don't have anything like that")),
    }
}

/// The confirmation that a new room now lies one step in direction `d`.
pub open spec fn spec_dig_created_msg(d: Direction) -> Seq<char> {
    "There is now an exit "@ + spec_direction_name(d) + "ward"@
}

/// The complaint about digging with the wrong object equipped.
pub open spec fn spec_cannot_dig_msg(o: Object) -> Seq<char> {
    "You cannot dig with "@ + spec_object_phrase(o)
}

/// Digs a new room one step from the player, if a sledge is equipped and no
/// room lies there yet; an existing room is never overwritten. A fresh room
/// has no fixed description and randomly present objects.
pub fn dig(
    player: &Player,
    dungeon: &mut Dungeon,
    rng: &mut rand::rngs::ThreadRng,
    args: &Vec<String>,
) -> (r: String)
    requires
        old(dungeon).wf(),
        old(dungeon)@.contains_key(player.location@),
        // Only a step that would create a room computes a fresh coordinate;
        // that coordinate must be representable (a machine limit).
        forall|d: Direction|
            args@.len() > 0 && spec_parse_direction(args@[0]@) == Some(d) && player.equipped
                == Some(Object::Sledge) && !old(dungeon)@.contains_key(
                #[trigger] spec_neighbor(player.location@, d),
            ) ==> spec_in_bounds(spec_neighbor(player.location@, d)),
    ensures
        final(dungeon).wf(),
        final(dungeon)@.contains_key(player.location@),
        ({
            let k = player.location@;
            if args@.len() == 0 {
                final(dungeon)@ == old(dungeon)@ && r@ == "To dig a tunnel: dig DIRECTION"@
            } else {
                match spec_parse_direction(args@[0]@) {
                    None => final(dungeon)@ == old(dungeon)@ && r@
                        == "That is not a direction I recognize"@,
                    Some(d) => {
                        match player.equipped {
                            None => final(dungeon)@ == old(dungeon)@ && r@
                                == "With your bare hands?"@,
                            Some(equipped) => {
                                if equipped != Object::Sledge {
                                    final(dungeon)@ == old(dungeon)@ && r@
                                        == spec_cannot_dig_msg(equipped)
                                } else {
                                    let t = spec_neighbor(k, d);
                                    if old(dungeon)@.contains_key(t) {
                                        final(dungeon)@ == old(dungeon)@ && r@
                                            == "There is already an exit, there!"@
                                    } else {
                                        &&& final(dungeon)@.contains_key(t)
                                        &&& final(dungeon)@[t].description is None
                                        &&& final(dungeon)@.remove(t) == old(dungeon)@
                                        &&& r@ == spec_dig_created_msg(d)
                                    }
                                }
                            },
                        }
                    },
                }
            }
        }),
{
    if args.len() == 0 {
        return String::from_str("To dig a tunnel: dig DIRECTION");
    }
    match Direction::from_string(&args[0]) {
        None => String::from_str("That is not a direction I recognize"),
        Some(d) => {
            match player.equipped {
                None => String::from_str("With your bare hands?"),
                Some(equipped) => {
                    if equipped == Object::Sledge {
                        proof {
                            dungeon.lemma_key_in_bounds(player.location@);
                        }
                        let target = player.location.neighbor(d);
                        if dungeon.contains_key(target) {
                            String::from_str("There is already an exit, there!")
                        } else {
                            proof {
                                assert(spec_in_bounds(spec_neighbor(player.location@, d)));
                            }
                            let room = Room::new().with_objects(
                                crate::random::random_objects(rng),
                            );
                            dungeon.insert_room(target, room);
                            proof {
                                assert(dungeon@.remove(target@) =~= old(dungeon)@);
                            }
                            let mut out = String::from_str("There is now an exit ");
                            out.append(d.name());
                            out.append("ward");
                            out
                        }
                    } else {
                        let mut out = String::from_str("You cannot dig with ");
                        out.append(equipped.phrase());
                        out
                    }
                },
            }
        },
    }
}

/// Moves the player one step, when the way is allowed: going north needs a
/// ladder on the current room's floor, and the target coordinate must hold a
/// room. On success the new room is looked at.
pub fn goto(player: &mut Player, dungeon: &Dungeon, direction: Direction) -> (r: String)
    requires
        dungeon.wf(),
        dungeon@.contains_key(old(player).location@),
    ensures
        final(player).inventory == old(player).inventory,
        final(player).equipped == old(player).equipped,
        dungeon@.contains_key(final(player).location@),
        ({
            let k = old(player).location@;
            let room = dungeon@[k];
            if direction == Direction::North && !room.objects.contains(Object::Ladder) {
                final(player).location == old(player).location && r@
                    == "You can't go upwards without a ladder!"@
            } else {
                let t = spec_neighbor(k, direction);
                if !dungeon@.contains_key(t) {
                    final(player).location == old(player).location && r@
                        == "There's no exit in that direction!"@
                } else {
                    final(player).location@ == t && r@ == spec_look_msg(
                        dungeon@[t],
                        t,
                        spec_exits(dungeon@, t),
                    )
                }
            }
        }),
{
    proof {
        dungeon.lemma_key_in_bounds(player.location@);
    }
    if direction == Direction::North && !dungeon.objects_at(player.location).contains(
        Object::Ladder,
    ) {
        return String::from_str("You can't go upwards without a ladder!");
    }
    let target = player.location.neighbor(direction);
    if !dungeon.contains_key(target) {
        return String::from_str("There's no exit in that direction!");
    }
    player.location = target;
    look_line(dungeon, target)
}

/// Equips one carried object; anything not in the inventory (or not an
/// object name at all) is refused with the same complaint.
pub fn equip(player: &mut Player, args: &Vec<String>) -> (r: String)
    ensures
        final(player).location == old(player).location,
        final(player).inventory == old(player).inventory,
        ({
            if args@.len() == 0 {
                final(player).equipped == old(player).equipped && r@
                    == "To equip something: equip OBJECT"@
            } else {
                match spec_parse_object(args@[0]@) {
                    Some(o) => {
                        if old(player).inventory@.contains(o) {
                            final(player).equipped == Some(o) && r@ == "Item equipped"@
                        } else {
                            final(player).equipped == old(player).equipped && r@
                                == "You don't have such object"@
                        }
                    },
                    None => final(player).equipped == old(player).equipped && r@
                        == "You don't have such object"@,
                }
            }
        }),
{
    if args.len() == 0 {
        return String::from_str("To equip something: equip OBJECT");
    }
    match Object::from_string(&args[0]) {
        Some(o) => {
            if player.inventory.contains(o) {
                player.equipped = Some(o);
                String::from_str("Item equipped")
            } else {
                String::from_str("You don't have such object")
            }
        },
        None => String::from_str("You don't have such object"),
    }
}

/// Clears the equip slot; the inventory keeps the object.
pub fn unequip(player: &mut Player) -> (r: String)
    ensures
        final(player).location == old(player).location,
        final(player).inventory == old(player).inventory,
        final(player).equipped is None,
        r@ == if old(player).equipped is Some {
            "Unequipped"@
        } else {
            "You are already not using anything"@
        },
{
    match player.equipped {
        Some(_) => {
            player.equipped = None;
            String::from_str("Unequipped")
        },
        None => String::from_str("You are already not using anything"),
    }
}

/// The fallback line for a token that resolves to no command.
pub open spec fn spec_unknown_msg() -> Seq<char> {
    "I don't know what you mean."@
}

/// Emitted when the first token of a non-empty line resolves to no command.
pub fn unknown() -> (r: String)
    ensures
        r@ == spec_unknown_msg(),
{
    String::from_str("I don't know what you mean.")
}

} // verus!
