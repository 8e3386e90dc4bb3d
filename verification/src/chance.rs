//! The game's dice: when an enemy appears, where, how fast, and when it
//! shoots back. Each decision is a function of a random `u32`; the random
//! numbers come from the `rand` crate.
use vstd::prelude::*;

use rand::RngCore;

verus! {

/// `rand::random::<u32>()`: a uniformly distributed `u32` from the
/// thread-local generator. Nothing is promised of the value.
#[verifier::external_body]
pub(crate) fn random_u32() -> u32 {
    rand::random::<u32>()
}

/// `rand::thread_rng().next_u32()`: the next `u32` of the thread-local
/// generator. Nothing is promised of the value.
#[verifier::external_body]
pub(crate) fn thread_rng_u32() -> u32 {
    rand::thread_rng().next_u32()
}

/// Whether the plane's roll calls up an enemy: one roll in fifty.
pub fn enemy_spawn_due(roll: u32) -> (r: bool)
    ensures
        r == (roll % 50 == 0),
{
    roll % 50 == 0
}

/// Rolls whether an enemy appears this frame: `enemy_spawn_due` of a
/// fresh random number.
pub fn plane_rolls_enemy() -> bool {
    let roll = random_u32();
    enemy_spawn_due(roll)
}

/// The column in which an enemy appears: from 50 to 349.
pub fn enemy_spawn_x(roll: u32) -> (x: u32)
    ensures
        x == roll % 300 + 50,
        50 <= x < 350,
{
    roll % 300 + 50
}

/// How fast a new enemy falls, in steps of 0.012 pixels per millisecond:
/// from 5 to 34 steps.
pub fn enemy_speed_step(roll: u32) -> (s: u32)
    ensures
        s == roll % 30 + 5,
        5 <= s < 35,
{
    roll % 30 + 5
}

/// An enemy shoots at the plane only while the plane shows, and then on
/// rolls that are multiples of a hundred.
pub open spec fn enemy_fire_due_spec(plane_visible: bool, roll: u32) -> bool {
    plane_visible && roll % 100 == 0
}

/// Whether an enemy shoots at the plane: only while the plane shows, one
/// roll in a hundred.
pub fn enemy_fire_due(plane_visible: bool, roll: u32) -> (r: bool)
    ensures
        r == (plane_visible && roll % 100 == 0),
        r == enemy_fire_due_spec(plane_visible, roll),
{
    plane_visible && roll % 100 == 0
}

} // verus!
