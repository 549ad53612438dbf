//! Bullets: fired along the player's facing, they fly straight on.
use vstd::prelude::*;
use vstd::arithmetic::mul::lemma_mul_is_distributive_add;
use crate::player::{distance, Facing, Player, Position};
use crate::total_time;

verus! {

/// Speed of a bullet, in world units per second.
pub const BULLET_SPEED: u32 = 1000;

/// A bullet in flight. It stands at `origin` moved by `travelled` nano-units
/// along the unit vector of `facing`; its facing never changes.
#[derive(Clone, Copy, Debug, PartialEq, Eq, Structural)]
pub struct Bullet {
    pub origin: Position,
    pub facing: Facing,
    pub speed: u32,
    pub travelled: u64,
}

/// The bullet that the player fires: from where it stands, along where it
/// faces, not yet moved.
pub open spec fn fired_from(p: Player) -> Bullet {
    Bullet { origin: p.position, facing: p.facing, speed: BULLET_SPEED, travelled: 0 }
}

impl Bullet {
    pub open spec fn wf(&self) -> bool {
        self.facing.wf()
    }

    pub fn fired_by(player: &Player) -> (r: Bullet)
        ensures
            r == fired_from(*player),
    {
        Bullet { origin: player.position, facing: player.facing, speed: BULLET_SPEED, travelled: 0 }
    }

    /// A frame of `dt` nanoseconds keeps the distance flown within range.
    pub open spec fn flight_fits(&self, dt: u64) -> bool {
        self.travelled + distance(self.speed, dt) <= u64::MAX
    }

    /// The bullet after a frame of `dt` nanoseconds.
    pub open spec fn advanced(&self, dt: u64) -> Bullet {
        Bullet { travelled: (self.travelled + distance(self.speed, dt)) as u64, ..*self }
    }

    /// The bullet after a run of frames, the first one first.
    pub open spec fn flown(&self, frames: Seq<u64>) -> Bullet
        decreases frames.len(),
    {
        if frames.len() == 0 {
            *self
        } else {
            self.advanced(frames[0]).flown(frames.drop_first())
        }
    }
}

/// Every bullet of a list after a frame of `dt` nanoseconds.
pub open spec fn advance_all(bullets: Seq<Bullet>, dt: u64) -> Seq<Bullet> {
    bullets.map_values(|b: Bullet| b.advanced(dt))
}

/// Moves one bullet for a frame of `dt_ns` nanoseconds: speed times time
/// further along its facing.
pub fn move_bullet(bullet: &mut Bullet, dt_ns: u64)
    requires
        old(bullet).flight_fits(dt_ns),
    ensures
        *final(bullet) == old(bullet).advanced(dt_ns),
        final(bullet).travelled == old(bullet).travelled + distance(old(bullet).speed, dt_ns),
{
    assert(bullet.speed as int * dt_ns as int <= u64::MAX) by (nonlinear_arith)
        requires
            bullet.travelled as int + bullet.speed as int * dt_ns as int <= u64::MAX,
            bullet.travelled >= 0,
    ;
    bullet.travelled = bullet.travelled + bullet.speed as u64 * dt_ns;
}

/// Moves every bullet for a frame of `dt_ns` nanoseconds.
pub fn move_bullets(bullets: &mut Vec<Bullet>, dt_ns: u64)
    requires
        forall|i: int| 0 <= i < old(bullets).len() ==> #[trigger] old(bullets)[i].flight_fits(dt_ns),
    ensures
        final(bullets)@ == advance_all(old(bullets)@, dt_ns),
{
    let n = bullets.len();
    let mut i: usize = 0;
    while i < n
        invariant
            n == bullets.len(),
            n == old(bullets).len(),
            0 <= i <= n,
            forall|j: int| 0 <= j < i ==> bullets[j] == #[trigger] old(bullets)[j].advanced(dt_ns),
            forall|j: int| i <= j < n ==> bullets[j] == #[trigger] old(bullets)[j],
            forall|j: int| 0 <= j < n ==> #[trigger] old(bullets)[j].flight_fits(dt_ns),
        decreases n - i,
    {
        let mut b = bullets[i];
        assert(old(bullets)[i as int].flight_fits(dt_ns));
        move_bullet(&mut b, dt_ns);
        bullets.set(i, b);
        i = i + 1;
    }
    assert(bullets@ =~= advance_all(old(bullets)@, dt_ns));
}

/// A bullet flies straight: after any run of frames it has gone speed times
/// the frames' total time further along its unchanged facing, from its
/// unchanged origin.
pub proof fn bullet_flies_straight(b: Bullet, frames: Seq<u64>)
    requires
        b.travelled + b.speed * total_time(frames) <= u64::MAX,
    ensures
        b.flown(frames).travelled == b.travelled + b.speed * total_time(frames),
        b.flown(frames).origin == b.origin,
        b.flown(frames).facing == b.facing,
        b.flown(frames).speed == b.speed,
    decreases frames.len(),
{
    if frames.len() > 0 {
        let rest = frames.drop_first();
        lemma_mul_is_distributive_add(b.speed as int, frames[0] as int, total_time(rest) as int);
        assert(0 <= b.speed * total_time(rest)) by (nonlinear_arith);
        assert(0 <= b.speed * frames[0]) by (nonlinear_arith);
        bullet_flies_straight(b.advanced(frames[0]), rest);
    } else {
        assert(total_time(frames) == 0);
        assert(b.speed * total_time(frames) == 0) by (nonlinear_arith)
            requires
                total_time(frames) == 0,
        ;
    }
}

/// A frame of no time moves no bullet.
pub proof fn zero_time_moves_no_bullet(bullets: Seq<Bullet>)
    ensures
        advance_all(bullets, 0) == bullets,
{
    assert(advance_all(bullets, 0) =~= bullets);
}

} // verus!
