//! The repeating cooldown that gates firing.
use vstd::prelude::*;
use vstd::arithmetic::div_mod::{lemma_add_mod_noop_right, lemma_small_mod};
use crate::bullet::{fired_from, Bullet};
use crate::player::Player;
use crate::total_time;

verus! {

/// Relies on bevy's `Timer::tick` in repeating mode (with `Timer::new`,
/// `set_elapsed`, `is_finished` and `elapsed` around it): the elapsed time
/// grows by `delta`; the timer finishes when it reaches the interval, and then
/// keeps the remainder of the elapsed time modulo the interval (nothing, for
/// an interval of zero).
#[verifier::external_body]
fn repeating_tick(interval_ns: u64, elapsed_ns: u64, delta_ns: u64) -> (r: (u64, bool))
    ensures
        r.1 == (elapsed_ns + delta_ns >= interval_ns),
        interval_ns > 0 ==> r.0 == (elapsed_ns + delta_ns) % (interval_ns as int),
        interval_ns == 0 ==> r.0 == 0,
{
    let mut timer = bevy::time::Timer::new(
        std::time::Duration::from_nanos(interval_ns),
        bevy::time::TimerMode::Repeating,
    );
    timer.set_elapsed(std::time::Duration::from_nanos(elapsed_ns));
    let finished = timer.tick(std::time::Duration::from_nanos(delta_ns)).is_finished();
    (timer.elapsed().as_nanos() as u64, finished)
}

/// Interval of the player's weapon: a tenth of a second.
pub const FIRE_INTERVAL_NS: u64 = 100_000_000;

/// A repeating cooldown: `elapsed` counts the time since the last completed
/// interval and always stays below `interval`. An interval of zero completes
/// on every tick.
pub struct FireRate {
    interval: u64,
    elapsed: u64,
}

impl FireRate {
    pub closed spec fn interval_spec(&self) -> nat {
        self.interval as nat
    }

    pub closed spec fn elapsed_spec(&self) -> nat {
        self.elapsed as nat
    }

    pub open spec fn wf(&self) -> bool {
        self.elapsed_spec() < self.interval_spec() || (self.interval_spec() == 0
            && self.elapsed_spec() == 0)
    }

    /// Whether advancing by `delta` completes the current interval.
    pub open spec fn completes(&self, delta: nat) -> bool {
        self.elapsed_spec() + delta >= self.interval_spec()
    }

    /// Time since the last completed interval once `delta` more has passed.
    pub open spec fn elapsed_after(&self, delta: nat) -> nat {
        if self.interval_spec() == 0 {
            0
        } else {
            (self.elapsed_spec() + delta) % self.interval_spec()
        }
    }

    /// A freshly reset cooldown of the given interval.
    pub fn new(interval_ns: u64) -> (r: FireRate)
        ensures
            r.wf(),
            r.interval_spec() == interval_ns,
            r.elapsed_spec() == 0,
    {
        FireRate { interval: interval_ns, elapsed: 0 }
    }

    pub fn interval(&self) -> (r: u64)
        ensures
            r == self.interval_spec(),
    {
        self.interval
    }

    pub fn elapsed(&self) -> (r: u64)
        ensures
            r == self.elapsed_spec(),
    {
        self.elapsed
    }

    /// Advances the cooldown by `delta_ns` and says whether an interval was
    /// completed during this tick. Several completed intervals count once:
    /// nothing is carried over but the remainder.
    pub fn tick(&mut self, delta_ns: u64) -> (finished: bool)
        requires
            old(self).wf(),
        ensures
            final(self).wf(),
            final(self).interval_spec() == old(self).interval_spec(),
            final(self).elapsed_spec() == old(self).elapsed_after(delta_ns as nat),
            finished == old(self).completes(delta_ns as nat),
    {
        let (elapsed, finished) = repeating_tick(self.interval, self.elapsed, delta_ns);
        self.elapsed = elapsed;
        finished
    }
}

/// Time since the last completed interval of a cooldown of `interval`
/// nanoseconds, that stood at `elapsed`, after a run of frames.
pub open spec fn elapsed_after_frames(interval: nat, elapsed: nat, frames: Seq<u64>) -> nat
    recommends
        interval > 0,
    decreases frames.len(),
{
    if frames.len() == 0 || interval == 0 {
        elapsed
    } else {
        elapsed_after_frames(
            interval,
            ((elapsed + frames[0]) % (interval as int)) as nat,
            frames.drop_first(),
        )
    }
}

/// One frame of the weapon: the cooldown ticks by `dt_ns` whether or not the
/// fire button is held, and a bullet is fired from the player exactly when
/// the button is held and this tick completes an interval.
pub fn shoot(fire_rate: &mut FireRate, fire_held: bool, player: &Player, dt_ns: u64) -> (r: Option<
    Bullet,
>)
    requires
        old(fire_rate).wf(),
    ensures
        final(fire_rate).wf(),
        final(fire_rate).interval_spec() == old(fire_rate).interval_spec(),
        final(fire_rate).elapsed_spec() == old(fire_rate).elapsed_after(dt_ns as nat),
        r == (if fire_held && old(fire_rate).completes(dt_ns as nat) {
            Some(fired_from(*player))
        } else {
            None
        }),
{
    let finished = fire_rate.tick(dt_ns);
    if fire_held && finished {
        Some(Bullet::fired_by(player))
    } else {
        None
    }
}

/// Released frames build up no backlog: however long the button stays
/// released, the cooldown keeps only the total time modulo the interval, less
/// than one interval, so the next held frame fires at most one bullet and only
/// if it completes that interval.
pub proof fn released_frames_leave_no_backlog(fire_rate: FireRate, frames: Seq<u64>)
    requires
        fire_rate.wf(),
        fire_rate.interval_spec() > 0,
    ensures
        elapsed_after_frames(fire_rate.interval_spec(), fire_rate.elapsed_spec(), frames)
            < fire_rate.interval_spec(),
        elapsed_after_frames(fire_rate.interval_spec(), fire_rate.elapsed_spec(), frames) == (
        fire_rate.elapsed_spec() + total_time(frames)) % fire_rate.interval_spec(),
{
    lemma_elapsed_after_frames(fire_rate.interval_spec(), fire_rate.elapsed_spec(), frames);
}

proof fn lemma_elapsed_after_frames(interval: nat, elapsed: nat, frames: Seq<u64>)
    requires
        0 < interval,
        elapsed < interval,
    ensures
        elapsed_after_frames(interval, elapsed, frames) < interval,
        elapsed_after_frames(interval, elapsed, frames) == (elapsed + total_time(frames))
            % interval,
    decreases frames.len(),
{
    if frames.len() > 0 {
        let rest = frames.drop_first();
        let e1 = ((elapsed + frames[0]) % (interval as int)) as nat;
        lemma_elapsed_after_frames(interval, e1, rest);
        lemma_add_mod_noop_right(
            total_time(rest) as int,
            elapsed + frames[0],
            interval as int,
        );
        assert(elapsed + total_time(frames) == total_time(rest) + (elapsed + frames[0]));
    } else {
        lemma_small_mod(elapsed, interval);
    }
}

} // verus!
