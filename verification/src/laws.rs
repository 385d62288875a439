//! The general laws of the library, each proved from the contracts the
//! handlers state.

use vstd::prelude::*;

use crate::actions::spec_look_msg;
use crate::objects::Object;
use crate::rooms::RoomV;

verus! {

/// Looking is idempotent: the look line is a function of the store and the
/// player's coordinate alone, so two looks with no intervening mutation give
/// the same line.
pub proof fn lemma_look_idempotent(
    m: Map<(int, int, int), RoomV>,
    c: (int, int, int),
    r1: Seq<char>,
    r2: Seq<char>,
)
    requires
        r1 == spec_look_msg(m[c], c, crate::rooms::spec_exits(m, c)),
        r2 == spec_look_msg(m[c], c, crate::rooms::spec_exits(m, c)),
    ensures
        r1 == r2,
{
}

/// Taking an object present in the room and then dropping it restores both
/// the room's floor set and the inventory, written over the exact transitions
/// the take and drop contracts state. The object must not already be carried:
/// taking a carried object merges it into the inventory, and the drop then
/// loses it from there.
pub proof fn lemma_take_drop_round_trip(
    d: Map<(int, int, int), RoomV>,
    k: (int, int, int),
    inv: Set<Object>,
    o: Object,
)
    requires
        d.contains_key(k),
        d[k].objects.contains(o),
        !inv.contains(o),
    ensures
        ({
            let d1 = d.insert(
                k,
                RoomV { description: d[k].description, objects: d[k].objects.remove(o) },
            );
            let inv1 = inv.insert(o);
            let d2 = d1.insert(
                k,
                RoomV { description: d1[k].description, objects: d1[k].objects.insert(o) },
            );
            let inv2 = inv1.remove(o);
            d2 == d && inv2 == inv
        }),
{
    let d1 = d.insert(k, RoomV { description: d[k].description, objects: d[k].objects.remove(o) });
    let d2 = d1.insert(
        k,
        RoomV { description: d1[k].description, objects: d1[k].objects.insert(o) },
    );
    assert(d[k].objects.remove(o).insert(o) =~= d[k].objects);
    assert(d2 =~= d);
    assert(inv.insert(o).remove(o) =~= inv);
}

} // verus!
