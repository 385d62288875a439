//! The source of randomness for newly dug rooms: the thread-local generator
//! of the rand crate, behind trusted declarations. Nothing is promised of the
//! drawn values; everything that consumes them holds for every outcome.

use vstd::prelude::*;

use crate::objects::ObjectSet;

verus! {

/// The thread-local generator of the rand crate, carried opaquely.
#[verifier::external_type_specification]
#[verifier::external_body]
pub struct ExThreadRng(rand::rngs::ThreadRng);

/// Relies on rand::Rng::next_u32 on ThreadRng: a fresh draw from the
/// thread-local generator. Nothing is promised of the value. (ThreadRng
/// panics only if reseeding from the system source fails, which no input of
/// ours controls.)
#[verifier::external_body]
fn next_u32(rng: &mut rand::rngs::ThreadRng) -> (r: u32) {
    rand::Rng::next_u32(rng)
}

/// One trial that succeeds with probability 0.33, as closely as 32 uniform
/// bits allow: the threshold is 0.33 * 2^32, rounded to the nearest integer.
fn coin(rng: &mut rand::rngs::ThreadRng) -> bool {
    let draw = next_u32(rng);
    draw < 1417339208
}

/// The floor set of a freshly dug room: each object is present independently
/// with probability 0.33.
pub fn random_objects(rng: &mut rand::rngs::ThreadRng) -> ObjectSet {
    let sledge = coin(rng);
    let ladder = coin(rng);
    let gold = coin(rng);
    ObjectSet { ladder, sledge, gold }
}

} // verus!
