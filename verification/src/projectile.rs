//! The lifetime of a projectile: a one-shot countdown, after which the
//! projectile is destroyed.

use crate::frames::total_time;
use crate::timer::{timer_clone, timer_just_finished, timer_new, timer_state, timer_tick};
use bevy::time::Timer;
use vstd::prelude::*;

verus! {

/// The lifetime of a projectile, in nanoseconds.
pub const BULLET_LIFETIME_NANOS: u64 = 5_000_000_000;

/// A one-shot countdown on an object that is destroyed when it runs out.
pub struct DelayedDespawn {
    timer: Timer,
}

/// What a countdown stands for: times in nanoseconds, and whether it has run
/// out.
pub struct Countdown {
    pub elapsed: nat,
    pub duration: nat,
    pub finished: bool,
}

/// Whether a frame of `delta` nanoseconds is the one in which the countdown
/// runs out.
pub open spec fn expires(c: Countdown, delta: nat) -> bool {
    !c.finished && c.elapsed + delta >= c.duration
}

/// The countdown after a frame of `delta` nanoseconds: it advances up to its
/// duration, stops there, and stays there.
pub open spec fn advanced(c: Countdown, delta: nat) -> Countdown {
    if c.finished {
        c
    } else if c.elapsed + delta >= c.duration {
        Countdown { elapsed: c.duration, duration: c.duration, finished: true }
    } else {
        Countdown { elapsed: c.elapsed + delta, duration: c.duration, finished: false }
    }
}

impl View for DelayedDespawn {
    type V = Countdown;

    closed spec fn view(&self) -> Countdown {
        let s = timer_state(self.timer);
        Countdown { elapsed: s.elapsed, duration: s.period, finished: s.finished }
    }
}

impl Clone for DelayedDespawn {
    /// A countdown in the same state.
    fn clone(&self) -> (copy: DelayedDespawn)
        ensures
            copy@ == self@,
    {
        proof {
            use_type_invariant(self);
        }
        DelayedDespawn { timer: timer_clone(&self.timer) }
    }
}

impl DelayedDespawn {
    #[verifier::type_invariant]
    spec fn inv(self) -> bool {
        let s = timer_state(self.timer);
        &&& !s.repeating
        &&& !s.paused
        &&& s.elapsed <= s.period <= u64::MAX
    }

    /// A countdown of `duration_nanos` with nothing elapsed.
    pub fn new(duration_nanos: u64) -> (countdown: DelayedDespawn)
        ensures
            countdown@ == (Countdown {
                elapsed: 0,
                duration: duration_nanos as nat,
                finished: false,
            }),
    {
        DelayedDespawn { timer: timer_new(duration_nanos, false) }
    }

    /// Advances the countdown by the frame's time and tells whether it ran
    /// out in this frame. It runs out once: after that it stays as it is.
    pub fn tick(&mut self, delta_nanos: u64) -> (expired: bool)
        ensures
            expired == expires(old(self)@, delta_nanos as nat),
            final(self)@ == advanced(old(self)@, delta_nanos as nat),
            old(self)@.finished ==> !expired,
            old(self)@.elapsed <= final(self)@.elapsed <= final(self)@.duration,
    {
        proof {
            use_type_invariant(&*self);
        }
        timer_tick(&mut self.timer, delta_nanos);
        timer_just_finished(&self.timer)
    }
}

/// How often a countdown runs out over a run of frames.
pub open spec fn run_expiries(c: Countdown, deltas: Seq<nat>) -> nat
    decreases deltas.len(),
{
    if deltas.len() == 0 {
        0
    } else {
        let here: nat = if expires(c, deltas[0]) {
            1
        } else {
            0
        };
        here + run_expiries(advanced(c, deltas[0]), deltas.drop_first())
    }
}

/// A countdown is one-shot: over a run of frames it runs out once if the
/// accumulated time reaches what is left of it, however the time is cut into
/// frames, and never otherwise; one that has run out never does again.
pub proof fn lemma_runs_out_once(c: Countdown, deltas: Seq<nat>)
    ensures
        run_expiries(c, deltas) == if deltas.len() > 0 && !c.finished && c.elapsed + total_time(
            deltas,
        ) >= c.duration {
            1nat
        } else {
            0nat
        },
    decreases deltas.len(),
{
    if deltas.len() > 0 {
        let rest = deltas.drop_first();
        lemma_runs_out_once(advanced(c, deltas[0]), rest);
        if rest.len() == 0 {
            assert(total_time(rest) == 0);
        }
    }
}

/// The objects of `countdowns` whose countdown runs out in a frame of `delta`
/// nanoseconds, in the order of the list.
pub open spec fn expired_entities(countdowns: Seq<(u64, Countdown)>, delta: nat) -> Seq<u64>
    decreases countdowns.len(),
{
    if countdowns.len() == 0 {
        Seq::empty()
    } else {
        let before = expired_entities(countdowns.drop_last(), delta);
        if expires(countdowns.last().1, delta) {
            before.push(countdowns.last().0)
        } else {
            before
        }
    }
}

/// The list of objects with what their countdowns stand for.
pub open spec fn countdown_views(countdowns: Seq<(u64, DelayedDespawn)>) -> Seq<(u64, Countdown)> {
    Seq::new(countdowns.len(), |i: int| (countdowns[i].0, countdowns[i].1@))
}

/// Advances the countdown of every object by the frame's time and returns
/// the objects to destroy: those whose countdown ran out in this frame.
pub fn delayed_despawn(countdowns: &mut Vec<(u64, DelayedDespawn)>, delta_nanos: u64) -> (expired:
    Vec<u64>)
    ensures
        expired@ == expired_entities(countdown_views(old(countdowns)@), delta_nanos as nat),
        final(countdowns)@.len() == old(countdowns)@.len(),
        forall|i: int|
            0 <= i < old(countdowns)@.len() ==> {
                &&& (#[trigger] final(countdowns)@[i]).0 == old(countdowns)@[i].0
                &&& final(countdowns)@[i].1@ == advanced(old(countdowns)@[i].1@, delta_nanos as nat)
            },
{
    let ghost before = countdown_views(countdowns@);
    let mut expired: Vec<u64> = Vec::new();
    let mut i: usize = 0;
    while i < countdowns.len()
        invariant
            i <= countdowns@.len(),
            countdowns@.len() == before.len(),
            before == countdown_views(old(countdowns)@),
            expired@ == expired_entities(before.take(i as int), delta_nanos as nat),
            forall|j: int|
                0 <= j < i ==> {
                    &&& (#[trigger] countdowns@[j]).0 == before[j].0
                    &&& countdowns@[j].1@ == advanced(before[j].1, delta_nanos as nat)
                },
            forall|j: int|
                i <= j < countdowns@.len() ==> (#[trigger] countdowns@[j]).0 == before[j].0
                    && countdowns@[j].1@ == before[j].1,
        decreases countdowns@.len() - i,
    {
        let entity = countdowns[i].0;
        let ran_out = countdowns[i].1.tick(delta_nanos);
        if ran_out {
            expired.push(entity);
        }
        proof {
            assert(before.take(i as int + 1).drop_last() == before.take(i as int));
        }
        i += 1;
    }
    proof {
        assert(before.take(i as int) == before);
    }
    expired
}

} // verus!
