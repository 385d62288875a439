//! The abstract commands, the runtime-extensible alias table, and the
//! resolution of typed tokens to commands. Resolution lower-cases the token
//! and takes the first table entry whose alias set holds it.

use vstd::prelude::*;

verus! {

/// An abstract command a typed token can resolve to.
#[derive(Copy, Clone, PartialEq, Eq, Structural, Debug)]
pub enum Command {
    North,
    South,
    West,
    East,
    Down,
    Up,
    Help,
    Dig,
    Look,
    Inventory,
    Take,
    Drop,
    Equip,
    Unequip,
    Alias,
}

/// One table entry: the alias strings that name a command.
pub struct AliasEntry {
    pub names: Vec<String>,
    pub command: Command,
}

/// What an entry means: the alias character sequences and the command.
pub struct AliasEntryV {
    pub names: Seq<Seq<char>>,
    pub command: Command,
}

impl View for AliasEntry {
    type V = AliasEntryV;

    open spec fn view(&self) -> AliasEntryV {
        AliasEntryV { names: self.names@.map_values(|s: String| s@), command: self.command }
    }
}

/// The whole table, entry by entry.
pub open spec fn spec_table(t: Seq<AliasEntry>) -> Seq<AliasEntryV> {
    t.map_values(|e: AliasEntry| e@)
}

/// The lower-case counterpart of one character: ASCII capital letters map to
/// their small letters, everything else stays.
pub open spec fn spec_lower_char(c: char) -> char {
    if c == 'A' {
        'a'
    } else if c == 'B' {
        'b'
    } else if c == 'C' {
        'c'
    } else if c == 'D' {
        'd'
    } else if c == 'E' {
        'e'
    } else if c == 'F' {
        'f'
    } else if c == 'G' {
        'g'
    } else if c == 'H' {
        'h'
    } else if c == 'I' {
        'i'
    } else if c == 'J' {
        'j'
    } else if c == 'K' {
        'k'
    } else if c == 'L' {
        'l'
    } else if c == 'M' {
        'm'
    } else if c == 'N' {
        'n'
    } else if c == 'O' {
        'o'
    } else if c == 'P' {
        'p'
    } else if c == 'Q' {
        'q'
    } else if c == 'R' {
        'r'
    } else if c == 'S' {
        's'
    } else if c == 'T' {
        't'
    } else if c == 'U' {
        'u'
    } else if c == 'V' {
        'v'
    } else if c == 'W' {
        'w'
    } else if c == 'X' {
        'x'
    } else if c == 'Y' {
        'y'
    } else if c == 'Z' {
        'z'
    } else {
        c
    }
}

/// A token lower-cased, character by character.
pub open spec fn spec_lower(s: Seq<char>) -> Seq<char> {
    s.map_values(|c: char| spec_lower_char(c))
}

/// Relies on str::to_ascii_lowercase: ASCII capital letters become their
/// lower-case counterparts and every other character is unchanged (bytes
/// outside the ASCII range, hence whole non-ASCII characters, are left as
/// they are).
#[verifier::external_body]
fn to_lower(s: &str) -> (r: String)
    ensures
        r@ == spec_lower(s@),
{
    s.to_ascii_lowercase()
}

/// Whether one of the strings holds exactly the characters of `s`.
fn contains_string(v: &Vec<String>, s: &String) -> (r: bool)
    ensures
        r == v@.map_values(|x: String| x@).contains(s@),
{
    let ghost views = v@.map_values(|x: String| x@);
    let mut i: usize = 0;
    while i < v.len()
        invariant
            0 <= i <= v@.len(),
            views == v@.map_values(|x: String| x@),
            forall|j: int| 0 <= j < i ==> views[j] != s@,
        decreases v@.len() - i,
    {
        if crate::text::str_eq(s, v[i].as_str()) {
            proof {
                assert(views[i as int] == s@);
            }
            return true;
        }
        i = i + 1;
    }
    proof {
        assert forall|j: int| 0 <= j < views.len() implies views[j] != s@ by {}
    }
    false
}

/// The command of the first entry whose alias set holds the token, if any.
pub open spec fn spec_resolve(table: Seq<AliasEntryV>, token: Seq<char>) -> Option<Command>
    decreases table.len(),
{
    if table.len() == 0 {
        None
    } else if table[0].names.contains(token) {
        Some(table[0].command)
    } else {
        spec_resolve(table.skip(1), token)
    }
}

/// Whether some entry's alias set holds the token.
pub open spec fn spec_table_has(table: Seq<AliasEntryV>, token: Seq<char>) -> bool {
    exists|i: int| 0 <= i < table.len() && (#[trigger] table[i]).names.contains(token)
}

/// Lower-cases the token and scans the table in order for the first entry
/// whose alias set holds it.
pub fn find_command(command: &String, aliases: &Vec<AliasEntry>) -> (r: Option<Command>)
    ensures
        r == spec_resolve(spec_table(aliases@), spec_lower(command@)),
{
    let lowered = to_lower(command.as_str());
    let ghost table = spec_table(aliases@);
    let ghost token = spec_lower(command@);
    proof {
        assert(table.skip(0) =~= table);
    }
    let mut i: usize = 0;
    while i < aliases.len()
        invariant
            0 <= i <= aliases@.len(),
            table == spec_table(aliases@),
            token == lowered@,
            token == spec_lower(command@),
            spec_resolve(table, token) == spec_resolve(table.skip(i as int), token),
        decreases aliases@.len() - i,
    {
        proof {
            assert(table.skip(i as int)[0] == table[i as int]);
            assert(table.skip(i as int).skip(1) =~= table.skip(i as int + 1));
        }
        if contains_string(&aliases[i].names, &lowered) {
            proof {
                assert(table[i as int] == aliases@[i as int]@);
                assert(table[i as int].names.contains(token));
                assert(spec_resolve(table.skip(i as int), token) == Some(
                    table[i as int].command,
                ));
            }
            return Some(aliases[i].command);
        }
        i = i + 1;
    }
    proof {
        assert(table.skip(table.len() as int) =~= Seq::<AliasEntryV>::empty());
    }
    None
}

/// The table after adding the alias: every entry whose alias set holds the
/// existing name gains the new alias at the end of its set; one that already
/// holds it is left as it is.
pub open spec fn spec_add_alias(table: Seq<AliasEntryV>, cmd: Seq<char>, na: Seq<char>) -> Seq<
    AliasEntryV,
> {
    table.map_values(
        |e: AliasEntryV|
            if e.names.contains(cmd) && !e.names.contains(na) {
                AliasEntryV { names: e.names.push(na), command: e.command }
            } else {
                e
            },
    )
}

/// The usage line shown when the alias command lacks arguments.
pub open spec fn spec_alias_usage() -> Seq<char> {
    "To assign an alias: alias CMQ NEW_ALIAS"@
}

/// The confirmation that a new alias now stands for an existing name.
pub open spec fn spec_alias_added_msg(cmd: Seq<char>, na: Seq<char>) -> Seq<char> {
    "You can use \""@ + na + "\" in lieu of \""@ + cmd + "\""@
}

/// The complaint about an unknown existing name.
pub open spec fn spec_alias_unknown_msg(cmd: Seq<char>) -> Seq<char> {
    "The commands \""@ + cmd + "\" does not exist"@
}

/// Lower-cases both arguments and inserts the new alias into the alias set of
/// every entry that holds the existing name (an entry that already holds the
/// new alias is left alone); reports whether any entry matched. With fewer
/// than two arguments, only explains the usage.
pub fn alias(aliases: &mut Vec<AliasEntry>, args: &Vec<String>) -> (r: String)
    ensures
        args@.len() < 2 ==> spec_table(final(aliases)@) == spec_table(old(aliases)@) && r@
            == spec_alias_usage(),
        args@.len() >= 2 ==> {
            let cmd = spec_lower(args@[0]@);
            let na = spec_lower(args@[1]@);
            &&& spec_table(final(aliases)@) == spec_add_alias(spec_table(old(aliases)@), cmd, na)
            &&& r@ == if spec_table_has(spec_table(old(aliases)@), cmd) {
                spec_alias_added_msg(cmd, na)
            } else {
                spec_alias_unknown_msg(cmd)
            }
        },
{
    if args.len() < 2 {
        return String::from_str("To assign an alias: alias CMQ NEW_ALIAS");
    }
    let cmd = to_lower(args[0].as_str());
    let na = to_lower(args[1].as_str());
    let ghost table = spec_table(old(aliases)@);
    let ghost goal = spec_add_alias(table, cmd@, na@);
    let mut found = false;
    let mut i: usize = 0;
    while i < aliases.len()
        invariant
            0 <= i <= aliases@.len(),
            aliases@.len() == table.len(),
            table == spec_table(old(aliases)@),
            goal == spec_add_alias(table, cmd@, na@),
            forall|j: int| 0 <= j < i ==> spec_table(aliases@)[j] == goal[j],
            forall|j: int| i <= j < table.len() ==> spec_table(aliases@)[j] == table[j],
            found <==> exists|j: int|
                0 <= j < i && (#[trigger] table[j]).names.contains(cmd@),
        decreases aliases@.len() - i,
    {
        let ghost before = spec_table(aliases@);
        if contains_string(&aliases[i].names, &cmd) {
            if !contains_string(&aliases[i].names, &na) {
                aliases[i].names.push(na.clone());
                proof {
                    assert(table[i as int].names.contains(cmd@));
                    assert(!table[i as int].names.contains(na@));
                    let e = aliases@[i as int];
                    assert(e@.names =~= table[i as int].names.push(na@));
                    assert(spec_table(aliases@)[i as int] == goal[i as int]);
                    assert forall|j: int|
                        0 <= j < aliases@.len() && j != i implies spec_table(aliases@)[j]
                        == before[j] by {
                        assert(aliases@[j]@ == before[j]);
                    }
                }
            } else {
                proof {
                    assert(table[i as int].names.contains(cmd@));
                    assert(table[i as int].names.contains(na@));
                    assert(spec_table(aliases@)[i as int] == goal[i as int]);
                }
            }
            found = true;
        } else {
            proof {
                assert(!table[i as int].names.contains(cmd@));
                assert(spec_table(aliases@)[i as int] == goal[i as int]);
            }
        }
        i = i + 1;
    }
    proof {
        assert(spec_table(aliases@) =~= goal);
        assert(found == spec_table_has(table, cmd@));
    }
    if found {
        let mut r = String::from_str("You can use \"");
        r.append(na.as_str());
        r.append("\" in lieu of \"");
        r.append(cmd.as_str());
        r.append("\"");
        r
    } else {
        let mut r = String::from_str("The commands \"");
        r.append(cmd.as_str());
        r.append("\" does not exist");
        r
    }
}

fn entry_one(name: &str, command: Command) -> (e: AliasEntry)
    ensures
        e@ == (AliasEntryV { names: seq![name@], command }),
{
    let mut names: Vec<String> = Vec::new();
    names.push(name.to_owned());
    proof {
        assert(names@.map_values(|s: String| s@) =~= seq![name@]);
    }
    AliasEntry { names, command }
}

fn entry_two(short: &str, long: &str, command: Command) -> (e: AliasEntry)
    ensures
        e@ == (AliasEntryV { names: seq![short@, long@], command }),
{
    let mut names: Vec<String> = Vec::new();
    names.push(short.to_owned());
    names.push(long.to_owned());
    proof {
        assert(names@.map_values(|s: String| s@) =~= seq![short@, long@]);
    }
    AliasEntry { names, command }
}

/// The default table: the fixed names every world starts with.
pub open spec fn spec_default_table() -> Seq<AliasEntryV> {
    seq![
        AliasEntryV { names: seq!["n"@, "north"@], command: Command::North },
        AliasEntryV { names: seq!["s"@, "south"@], command: Command::South },
        AliasEntryV { names: seq!["w"@, "west"@], command: Command::West },
        AliasEntryV { names: seq!["e"@, "east"@], command: Command::East },
        AliasEntryV { names: seq!["d"@, "down"@], command: Command::Down },
        AliasEntryV { names: seq!["u"@, "up"@], command: Command::Up },
        AliasEntryV { names: seq!["help"@], command: Command::Help },
        AliasEntryV { names: seq!["dig"@], command: Command::Dig },
        AliasEntryV { names: seq!["l"@, "look"@], command: Command::Look },
        AliasEntryV { names: seq!["i"@, "inventory"@], command: Command::Inventory },
        AliasEntryV { names: seq!["take"@], command: Command::Take },
        AliasEntryV { names: seq!["drop"@], command: Command::Drop },
        AliasEntryV { names: seq!["equip"@], command: Command::Equip },
        AliasEntryV { names: seq!["unequip"@], command: Command::Unequip },
        AliasEntryV { names: seq!["alias"@], command: Command::Alias },
    ]
}

/// Builds the default table.
pub fn default_aliases() -> (r: Vec<AliasEntry>)
    ensures
        spec_table(r@) == spec_default_table(),
{
    let mut r: Vec<AliasEntry> = Vec::new();
    r.push(entry_two("n", "north", Command::North));
    r.push(entry_two("s", "south", Command::South));
    r.push(entry_two("w", "west", Command::West));
    r.push(entry_two("e", "east", Command::East));
    r.push(entry_two("d", "down", Command::Down));
    r.push(entry_two("u", "up", Command::Up));
    r.push(entry_one("help", Command::Help));
    r.push(entry_one("dig", Command::Dig));
    r.push(entry_two("l", "look", Command::Look));
    r.push(entry_two("i", "inventory", Command::Inventory));
    r.push(entry_one("take", Command::Take));
    r.push(entry_one("drop", Command::Drop));
    r.push(entry_one("equip", Command::Equip));
    r.push(entry_one("unequip", Command::Unequip));
    r.push(entry_one("alias", Command::Alias));
    proof {
        assert(spec_table(r@) =~= spec_default_table());
    }
    r
}

} // verus!
