//! One frame of the game: walk, aim, shoot, then move the bullets.
use vstd::prelude::*;
use crate::bullet::{advance_all, fired_from, move_bullets, Bullet};
use crate::player::{aim, aimed, move_player, walked, Keys, Player, Position};
use crate::weapon::{shoot, FireRate, FIRE_INTERVAL_NS};

verus! {

/// What the player does during a frame.
#[derive(Clone, Copy, Debug, PartialEq, Eq, Structural)]
pub struct FrameInput {
    pub keys: Keys,
    pub fire_held: bool,
    /// The cursor's position in world space; `None` when the cursor is
    /// outside the window or cannot be projected.
    pub cursor: Option<Position>,
}

/// The whole game: the one player, the bullets in flight, and the weapon's
/// cooldown. Bullets are never removed.
pub struct World {
    pub player: Player,
    pub bullets: Vec<Bullet>,
    pub fire_rate: FireRate,
}

/// The bullets that a frame adds: the one fired, if any.
pub open spec fn fired_in_frame(
    fire_rate: FireRate,
    shooter: Player,
    fire_held: bool,
    dt: u64,
) -> Seq<Bullet> {
    if fire_held && fire_rate.completes(dt as nat) {
        seq![fired_from(shooter)]
    } else {
        seq![]
    }
}

impl World {
    pub open spec fn wf(&self) -> bool {
        &&& self.player.wf()
        &&& self.fire_rate.wf()
        &&& forall|i: int| 0 <= i < self.bullets.len() ==> #[trigger] self.bullets[i].wf()
    }

    /// A frame of `dt` nanoseconds keeps every position and distance in range.
    pub open spec fn frame_fits(&self, input: FrameInput, dt: u64) -> bool {
        &&& self.player.walk_fits(input.keys, dt)
        &&& forall|i: int|
            0 <= i < self.bullets.len() ==> #[trigger] self.bullets[i].flight_fits(dt)
    }

    /// The game as it starts: the player at the origin, unrotated, no bullet,
    /// and a freshly reset cooldown of a tenth of a second.
    pub fn new() -> (r: World)
        ensures
            r.wf(),
            r.player == Player::spawn_spec(),
            r.bullets@.len() == 0,
            r.fire_rate.interval_spec() == FIRE_INTERVAL_NS,
            r.fire_rate.elapsed_spec() == 0,
    {
        World { player: Player::spawn(), bullets: Vec::new(), fire_rate: FireRate::new(FIRE_INTERVAL_NS) }
    }

    /// Runs one frame of `dt_ns` nanoseconds: the player walks, then turns to
    /// the cursor, then the weapon ticks and may fire from where the player now
    /// stands and faces, then the bullets that were already in flight move. A
    /// bullet fired in this frame joins the others at the end of the frame and
    /// starts moving from the next one.
    pub fn frame(&mut self, input: FrameInput, dt_ns: u64)
        requires
            old(self).wf(),
            old(self).frame_fits(input, dt_ns),
        ensures
            final(self).wf(),
            final(self).player == aimed(walked(old(self).player, input.keys, dt_ns), input.cursor),
            final(self).fire_rate.interval_spec() == old(self).fire_rate.interval_spec(),
            final(self).fire_rate.elapsed_spec() == old(self).fire_rate.elapsed_after(
                dt_ns as nat,
            ),
            final(self).bullets@ == advance_all(old(self).bullets@, dt_ns) + fired_in_frame(
                old(self).fire_rate,
                final(self).player,
                input.fire_held,
                dt_ns,
            ),
    {
        move_player(&mut self.player, input.keys, dt_ns);
        aim(&mut self.player, input.cursor);
        let fired = shoot(&mut self.fire_rate, input.fire_held, &self.player, dt_ns);
        move_bullets(&mut self.bullets, dt_ns);
        let ghost moved = self.bullets@;
        assert forall|i: int| 0 <= i < moved.len() implies #[trigger] moved[i].wf() by {
            assert(moved[i] == old(self).bullets[i].advanced(dt_ns));
            assert(old(self).bullets[i].wf());
        }
        if let Some(b) = fired {
            self.bullets.push(b);
        }
        assert(self.bullets@ =~= moved + fired_in_frame(
            old(self).fire_rate,
            self.player,
            input.fire_held,
            dt_ns,
        ));
        assert forall|i: int| 0 <= i < self.bullets.len() implies #[trigger] self.bullets[i].wf() by {
            if i < moved.len() {
                assert(self.bullets[i] == moved[i]);
            }
        }
    }
}

} // verus!
