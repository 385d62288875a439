//! Scenario tests driving the game through fresh worlds, plus checks of the
//! building blocks on concrete values.

use dungeon::actions::{dig, drop_object, equip, goto, help, inventory, look, take, unequip};
use dungeon::commands::{alias, default_aliases, find_command, Command};
use dungeon::geometry::{Direction, Location};
use dungeon::objects::ObjectSet;
use dungeon::player::Player;
use dungeon::rooms::{Dungeon, Room};

fn args(words: &[&str]) -> Vec<String> {
    words.iter().map(|w| w.to_string()).collect()
}

#[test]
fn fresh_start_look() {
    let world = Dungeon::new();
    let player = Player::new();
    let line = look(&player, &world);
    assert_eq!(
        line,
        "The room where it all started... On the floor you can see: a ladder, a sledge. \
         There are no exits in this room."
    );
}

#[test]
fn look_is_idempotent() {
    let world = Dungeon::new();
    let player = Player::new();
    let first = look(&player, &world);
    let second = look(&player, &world);
    assert_eq!(first, second);
}

#[test]
fn equip_sledge_and_dig_south() {
    let mut world = Dungeon::new();
    let mut player = Player::new();
    let mut rng = rand::rng();
    assert_eq!(equip(&mut player, &args(&["sledge"])), "Item equipped");
    let line = dig(&player, &mut world, &mut rng, &args(&["south"]));
    assert_eq!(line, "There is now an exit southward");
    assert!(world.contains_key(Location { x: 0, y: 1, z: 0 }));
}

#[test]
fn take_all_then_inventory() {
    let mut world = Dungeon::new();
    let mut player = Player::new();
    let msg = take(&mut player, &mut world, &args(&["all"]));
    assert_eq!(msg.as_deref(), Some("All items taken"));
    assert_eq!(inventory(&player), "You are carrying: a ladder, a sledge");
}

#[test]
fn north_needs_a_ladder_on_the_floor() {
    let mut world = Dungeon::new();
    let mut player = Player::new();
    // Empty the floor first: the starting room does hold a ladder.
    take(&mut player, &mut world, &args(&["all"]));
    let before = player.location;
    let line = goto(&mut player, &world, Direction::North);
    assert_eq!(line, "You can't go upwards without a ladder!");
    assert_eq!(player.location, before);
}

#[test]
fn take_unknown_and_absent_objects() {
    let mut world = Dungeon::new();
    let mut player = Player::new();
    let msg = take(&mut player, &mut world, &args(&["diamond"]));
    assert_eq!(msg.as_deref(), Some("You can't see anything like that here"));
    // Gold is a known object but not present here: a silent no-op.
    let before = inventory(&player);
    let msg = take(&mut player, &mut world, &args(&["gold"]));
    assert!(msg.is_none());
    assert_eq!(inventory(&player), before);
}

#[test]
fn alias_take_grab_resolves_any_case() {
    let mut aliases = default_aliases();
    let line = alias(&mut aliases, &args(&["take", "grab"]));
    assert_eq!(line, "You can use \"grab\" in lieu of \"take\"");
    let cmd = find_command(&"GRAB".to_string(), &aliases);
    assert!(matches!(cmd, Some(Command::Take)));
}

#[test]
fn alias_failures() {
    let mut aliases = default_aliases();
    assert_eq!(
        alias(&mut aliases, &args(&["take"])),
        "To assign an alias: alias CMQ NEW_ALIAS"
    );
    assert_eq!(
        alias(&mut aliases, &args(&["grab", "snatch"])),
        "The commands \"grab\" does not exist"
    );
}

#[test]
fn take_then_drop_restores_room_and_inventory() {
    let mut world = Dungeon::new();
    let mut player = Player::new();
    let before_room = look(&player, &world);
    let before_inventory = inventory(&player);
    let msg = take(&mut player, &mut world, &args(&["ladder"]));
    assert_eq!(msg.as_deref(), Some("Taken"));
    let msg = drop_object(&mut player, &mut world, &args(&["ladder"]));
    assert_eq!(msg.as_deref(), Some("Dropped"));
    assert_eq!(look(&player, &world), before_room);
    assert_eq!(inventory(&player), before_inventory);
}

#[test]
fn dig_never_overwrites_an_existing_room() {
    let mut world = Dungeon::new();
    let mut player = Player::new();
    let mut rng = rand::rng();
    equip(&mut player, &args(&["sledge"]));
    assert_eq!(
        dig(&player, &mut world, &mut rng, &args(&["down"])),
        "There is now an exit downward"
    );
    let target = Location { x: 0, y: 0, z: 1 };
    let created = world.objects_at(target);
    let line = dig(&player, &mut world, &mut rng, &args(&["down"]));
    assert_eq!(line, "There is already an exit, there!");
    assert_eq!(world.objects_at(target), created);
}

#[test]
fn exits_reflect_exactly_the_existing_neighbors() {
    let mut world = Dungeon::new();
    let mut player = Player::new();
    let mut rng = rand::rng();
    equip(&mut player, &args(&["sledge"]));
    dig(&player, &mut world, &mut rng, &args(&["south"]));
    dig(&player, &mut world, &mut rng, &args(&["down"]));
    let exits = world.exits_for_room(Location { x: 0, y: 0, z: 0 });
    assert_eq!(exits, vec![Direction::South, Direction::Down]);
    let line = look(&player, &world);
    assert!(line.ends_with(" Exits: south, down."));
}

#[test]
fn goto_moves_and_looks() {
    let mut world = Dungeon::new();
    let mut player = Player::new();
    let mut rng = rand::rng();
    assert_eq!(
        goto(&mut player, &world, Direction::South),
        "There's no exit in that direction!"
    );
    equip(&mut player, &args(&["sledge"]));
    dig(&player, &mut world, &mut rng, &args(&["south"]));
    let line = goto(&mut player, &world, Direction::South);
    assert_eq!(player.location, Location { x: 0, y: 1, z: 0 });
    assert!(line.starts_with("Room at (0, 1, 0)."));
    assert!(line.ends_with(" There is one exit: north."));
}

#[test]
fn dig_refusals() {
    let mut world = Dungeon::new();
    let mut player = Player::new();
    let mut rng = rand::rng();
    assert_eq!(
        dig(&player, &mut world, &mut rng, &args(&[])),
        "To dig a tunnel: dig DIRECTION"
    );
    assert_eq!(
        dig(&player, &mut world, &mut rng, &args(&["sideways"])),
        "That is not a direction I recognize"
    );
    assert_eq!(
        dig(&player, &mut world, &mut rng, &args(&["south"])),
        "With your bare hands?"
    );
    take(&mut player, &mut world, &args(&["ladder"]));
    equip(&mut player, &args(&["ladder"]));
    assert_eq!(
        dig(&player, &mut world, &mut rng, &args(&["south"])),
        "You cannot dig with a ladder"
    );
}

#[test]
fn equip_and_unequip_messages() {
    let mut player = Player::new();
    assert_eq!(equip(&mut player, &args(&[])), "To equip something: equip OBJECT");
    assert_eq!(equip(&mut player, &args(&["gold"])), "You don't have such object");
    assert_eq!(equip(&mut player, &args(&["broom"])), "You don't have such object");
    assert_eq!(unequip(&mut player), "You are already not using anything");
    assert_eq!(equip(&mut player, &args(&["sledge"])), "Item equipped");
    assert_eq!(unequip(&mut player), "Unequipped");
    assert_eq!(unequip(&mut player), "You are already not using anything");
}

#[test]
fn drop_refusals() {
    let mut world = Dungeon::new();
    let mut player = Player::new();
    assert_eq!(
        drop_object(&mut player, &mut world, &args(&[])).as_deref(),
        Some("To drop something: drop OBJECT|all")
    );
    assert_eq!(
        drop_object(&mut player, &mut world, &args(&["broom"])).as_deref(),
        Some("You don't have anything like that")
    );
    // A known object that is not carried: a silent no-op.
    assert!(drop_object(&mut player, &mut world, &args(&["gold"])).is_none());
    assert_eq!(
        drop_object(&mut player, &mut world, &args(&["all"])).as_deref(),
        Some("All items dropped")
    );
    assert_eq!(
        drop_object(&mut player, &mut world, &args(&["sledge"])).as_deref(),
        Some("You are not carrying anything")
    );
}

#[test]
fn take_empty_room_and_usage() {
    let mut world = Dungeon::new();
    let mut player = Player::new();
    assert_eq!(
        take(&mut player, &mut world, &args(&[])).as_deref(),
        Some("To take something: take OBJECT|all")
    );
    take(&mut player, &mut world, &args(&["all"]));
    assert_eq!(
        take(&mut player, &mut world, &args(&["all"])).as_deref(),
        Some("There is nothing to take here")
    );
}

#[test]
fn inventory_when_empty() {
    let mut world = Dungeon::new();
    let mut player = Player::new();
    drop_object(&mut player, &mut world, &args(&["all"]));
    assert_eq!(inventory(&player), "You are not carrying anything");
}

#[test]
fn help_text() {
    assert_eq!(
        help(),
        "You need a sledge to dig rooms and ladders to go upwards.\n\
         Valid commands are: directions (north, south...), dig, take, drop, equip, inventory and look.\n\
         Additionally you can tag rooms with the 'name' command and alias commands with 'alias'.\n\
         Have fun!"
    );
}

#[test]
fn default_names_resolve() {
    let aliases = default_aliases();
    assert!(matches!(
        find_command(&"n".to_string(), &aliases),
        Some(Command::North)
    ));
    assert!(matches!(
        find_command(&"LOOK".to_string(), &aliases),
        Some(Command::Look)
    ));
    assert!(matches!(
        find_command(&"i".to_string(), &aliases),
        Some(Command::Inventory)
    ));
    assert!(find_command(&"fly".to_string(), &aliases).is_none());
}

#[test]
fn number_and_coordinate_rendering() {
    assert_eq!(dungeon::text::u32_string(0), "0");
    assert_eq!(dungeon::text::u32_string(105), "105");
    assert_eq!(dungeon::text::i32_string(-12), "-12");
    assert_eq!(dungeon::text::i32_string(i32::MIN), "-2147483648");
    assert_eq!(Location { x: 1, y: -2, z: 3 }.text(), "(1, -2, 3)");
}

#[test]
fn join_pieces() {
    let pieces: Vec<String> = vec!["a".to_string(), "b".to_string(), "c".to_string()];
    assert_eq!(dungeon::text::join(&pieces, ", "), "a, b, c");
    let one: Vec<String> = vec!["a".to_string()];
    assert_eq!(dungeon::text::join(&one, ", "), "a");
    let none: Vec<String> = Vec::new();
    assert_eq!(dungeon::text::join(&none, ", "), "");
}

#[test]
fn unknown_command_line() {
    assert_eq!(dungeon::actions::unknown(), "I don't know what you mean.");
}

#[test]
fn with_objects_extends_the_floor() {
    let gold_only = ObjectSet { ladder: false, sledge: false, gold: true };
    let nothing = ObjectSet { ladder: false, sledge: false, gold: false };
    let room = Room::new().with_objects(gold_only).with_objects(nothing);
    assert_eq!(room.objects, gold_only);
    let ladder_only = ObjectSet { ladder: true, sledge: false, gold: false };
    let more = room.with_objects(ladder_only);
    assert_eq!(more.objects, ObjectSet { ladder: true, sledge: false, gold: true });
}

#[test]
fn realiasing_does_not_duplicate() {
    let mut aliases = default_aliases();
    alias(&mut aliases, &args(&["take", "grab"]));
    let sizes_after_first: Vec<usize> = aliases.iter().map(|e| e.names.len()).collect();
    let line = alias(&mut aliases, &args(&["take", "grab"]));
    assert_eq!(line, "You can use \"grab\" in lieu of \"take\"");
    let sizes_after_second: Vec<usize> = aliases.iter().map(|e| e.names.len()).collect();
    assert_eq!(sizes_after_first, sizes_after_second);
    assert!(matches!(
        find_command(&"grab".to_string(), &aliases),
        Some(Command::Take)
    ));
}
