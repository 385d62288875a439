//! The pickupable objects, their parsing and display phrases, and the sets of
//! objects a room floor or an inventory holds. Presence is binary: a set never
//! holds two of a kind.

use vstd::prelude::*;

verus! {

/// A thing that can lie on a room's floor or be carried.
#[derive(Copy, Clone, PartialEq, Eq, Structural, Debug)]
pub enum Object {
    Ladder,
    Sledge,
    Gold,
}

/// Every object is one of the three variants.
pub proof fn lemma_object_cases(o: Object)
    ensures
        o == Object::Ladder || o == Object::Sledge || o == Object::Gold,
{
    match o {
        Object::Ladder => {},
        Object::Sledge => {},
        Object::Gold => {},
    }
}

/// Which object, if any, a (lower-case) token names.
pub open spec fn spec_parse_object(s: Seq<char>) -> Option<Object> {
    if s == "ladder"@ {
        Some(Object::Ladder)
    } else if s == "sledge"@ {
        Some(Object::Sledge)
    } else if s == "gold"@ {
        Some(Object::Gold)
    } else {
        None
    }
}

/// The display phrase of each object.
pub open spec fn spec_object_phrase(o: Object) -> Seq<char> {
    match o {
        Object::Ladder => "a ladder"@,
        Object::Sledge => "a sledge"@,
        Object::Gold => "some gold"@,
    }
}

impl Object {
    /// Case-sensitive exact match against the three object names.
    pub fn from_string(s: &String) -> (r: Option<Object>)
        ensures
            r == spec_parse_object(s@),
    {
        if crate::text::str_eq(s, "ladder") {
            Some(Object::Ladder)
        } else if crate::text::str_eq(s, "sledge") {
            Some(Object::Sledge)
        } else if crate::text::str_eq(s, "gold") {
            Some(Object::Gold)
        } else {
            None
        }
    }

    pub fn phrase(&self) -> (r: &'static str)
        ensures
            r@ == spec_object_phrase(*self),
    {
        match self {
            Object::Ladder => "a ladder",
            Object::Sledge => "a sledge",
            Object::Gold => "some gold",
        }
    }
}

/// A set of objects: one presence flag per kind. Viewed as a `Set<Object>`.
#[derive(Copy, Clone, PartialEq, Eq, Structural, Debug)]
pub struct ObjectSet {
    pub ladder: bool,
    pub sledge: bool,
    pub gold: bool,
}

impl View for ObjectSet {
    type V = Set<Object>;

    open spec fn view(&self) -> Set<Object> {
        Set::new(
            |o: Object|
                match o {
                    Object::Ladder => self.ladder,
                    Object::Sledge => self.sledge,
                    Object::Gold => self.gold,
                },
        )
    }
}

/// The objects of a set in the fixed display order: ladder, sledge, gold.
pub open spec fn spec_object_list(s: Set<Object>) -> Seq<Object> {
    (if s.contains(Object::Ladder) {
        seq![Object::Ladder]
    } else {
        Seq::empty()
    }) + (if s.contains(Object::Sledge) {
        seq![Object::Sledge]
    } else {
        Seq::empty()
    }) + (if s.contains(Object::Gold) {
        seq![Object::Gold]
    } else {
        Seq::empty()
    })
}

impl ObjectSet {
    pub fn empty() -> (r: ObjectSet)
        ensures
            r@ == Set::<Object>::empty(),
    {
        let r = ObjectSet { ladder: false, sledge: false, gold: false };
        proof {
            assert(r@ =~= Set::<Object>::empty());
        }
        r
    }

    pub fn contains(&self, o: Object) -> (r: bool)
        ensures
            r == self@.contains(o),
    {
        match o {
            Object::Ladder => self.ladder,
            Object::Sledge => self.sledge,
            Object::Gold => self.gold,
        }
    }

    pub fn insert(self, o: Object) -> (r: ObjectSet)
        ensures
            r@ == self@.insert(o),
    {
        let r = match o {
            Object::Ladder => ObjectSet { ladder: true, ..self },
            Object::Sledge => ObjectSet { sledge: true, ..self },
            Object::Gold => ObjectSet { gold: true, ..self },
        };
        proof {
            assert forall|q: Object| r@.contains(q) == self@.insert(o).contains(q) by {
                lemma_object_cases(q);
            }
            assert(r@ =~= self@.insert(o));
        }
        r
    }

    pub fn remove(self, o: Object) -> (r: ObjectSet)
        ensures
            r@ == self@.remove(o),
    {
        let r = match o {
            Object::Ladder => ObjectSet { ladder: false, ..self },
            Object::Sledge => ObjectSet { sledge: false, ..self },
            Object::Gold => ObjectSet { gold: false, ..self },
        };
        proof {
            assert forall|q: Object| r@.contains(q) == self@.remove(o).contains(q) by {
                lemma_object_cases(q);
            }
            assert(r@ =~= self@.remove(o));
        }
        r
    }

    /// The union of two sets, as when one is poured into the other.
    pub fn union(self, other: ObjectSet) -> (r: ObjectSet)
        ensures
            r@ == self@.union(other@),
    {
        let r = ObjectSet {
            ladder: self.ladder || other.ladder,
            sledge: self.sledge || other.sledge,
            gold: self.gold || other.gold,
        };
        proof {
            assert(r@ =~= self@.union(other@));
        }
        r
    }

    pub fn is_empty(&self) -> (r: bool)
        ensures
            r == (self@ == Set::<Object>::empty()),
    {
        let r = !self.ladder && !self.sledge && !self.gold;
        proof {
            if r {
                assert(self@ =~= Set::<Object>::empty());
            } else {
                assert(self@.contains(Object::Ladder) || self@.contains(Object::Sledge)
                    || self@.contains(Object::Gold));
            }
        }
        r
    }

    /// The objects present, in the fixed display order.
    pub fn list(&self) -> (r: Vec<Object>)
        ensures
            r@ == spec_object_list(self@),
    {
        let mut r: Vec<Object> = Vec::new();
        if self.ladder {
            r.push(Object::Ladder);
        }
        if self.sledge {
            r.push(Object::Sledge);
        }
        if self.gold {
            r.push(Object::Gold);
        }
        proof {
            assert(r@ =~= spec_object_list(self@));
        }
        r
    }
}

} // verus!
