//! Gameplay rules of a small top-down shooter: a player that walks on the
//! four directional keys, turns to face the cursor, and fires bullets on a
//! repeating cooldown; bullets fly in a straight line.
//!
//! Units: time in nanoseconds, distances in nano-units of world space, speeds
//! in world units per second, so that a speed times a frame time is an exact
//! distance.
use vstd::prelude::*;

pub mod bullet;
pub mod player;
pub mod weapon;
pub mod world;

verus! {

/// The time that a run of frames covers, in nanoseconds.
pub open spec fn total_time(frames: Seq<u64>) -> nat
    decreases frames.len(),
{
    if frames.len() == 0 {
        0
    } else {
        frames[0] as nat + total_time(frames.drop_first())
    }
}

} // verus!
