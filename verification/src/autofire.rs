//! The autofire countdown: a repeating timer that asks for one projectile
//! from the player each time it runs out.

use crate::frames::total_time;
use crate::lookup::{get_single, single_of, SingletonError};
use crate::timer::{timer_clone, timer_just_finished, timer_new, timer_state, timer_tick};
use bevy::time::Timer;
use vstd::prelude::*;

verus! {

/// The time between two shots, in nanoseconds.
pub const AUTOFIRE_PERIOD_NANOS: u64 = 3_000_000_000;

/// A request to spawn one projectile from `shooter`.
#[derive(Clone, Copy, Debug, PartialEq, Eq, Structural)]
pub struct ShootBulletEvent {
    pub shooter: u64,
}

/// The autofire countdown of the player.
pub struct Autofire {
    timer: Timer,
}

/// How often the engine's timer reports to have run out during a frame of
/// `delta` nanoseconds that starts with `elapsed` on the countdown. The
/// engine keeps this count in 32 bits.
pub open spec fn expiries(elapsed: nat, delta: nat) -> nat {
    ((elapsed + delta) / (AUTOFIRE_PERIOD_NANOS as nat)) % 0x1_0000_0000
}

/// What a frame yields: nothing while the countdown runs; at an expiry the
/// request for the one player, or the reason why there is no such player.
pub open spec fn autoshoot_outcome(elapsed: nat, delta: nat, players: Seq<u64>) -> Result<
    Option<ShootBulletEvent>,
    SingletonError,
> {
    if expiries(elapsed, delta) == 0 {
        Ok(None)
    } else {
        match single_of(players) {
            Ok(player) => Ok(Some(ShootBulletEvent { shooter: player })),
            Err(e) => Err(e),
        }
    }
}

/// The countdown after a frame: a failed frame leaves it as it was, any
/// other frame advances it and wraps it around the period.
pub open spec fn autoshoot_elapsed(elapsed: nat, delta: nat, players: Seq<u64>) -> nat {
    if autoshoot_outcome(elapsed, delta, players) is Err {
        elapsed
    } else {
        (elapsed + delta) % (AUTOFIRE_PERIOD_NANOS as nat)
    }
}

impl Autofire {
    #[verifier::type_invariant]
    spec fn inv(self) -> bool {
        let s = timer_state(self.timer);
        &&& s.repeating
        &&& !s.paused
        &&& s.period == AUTOFIRE_PERIOD_NANOS
        &&& s.elapsed < s.period
    }

    /// The time on the countdown since it last wrapped, in nanoseconds.
    pub closed spec fn elapsed(self) -> nat {
        timer_state(self.timer).elapsed
    }

    /// A countdown with nothing elapsed.
    pub fn new() -> (autofire: Autofire)
        ensures
            autofire.elapsed() == 0,
    {
        Autofire { timer: timer_new(AUTOFIRE_PERIOD_NANOS, true) }
    }
}

/// Advances the countdown by the frame's time. When it runs out, asks for a
/// projectile from the one player in `players`; without exactly one player
/// the frame fails and the countdown stays where it was.
pub fn autoshoot(state: &mut Autofire, delta_nanos: u64, players: &Vec<u64>) -> (r: Result<
    Option<ShootBulletEvent>,
    SingletonError,
>)
    ensures
        r == autoshoot_outcome(old(state).elapsed(), delta_nanos as nat, players@),
        final(state).elapsed() == autoshoot_elapsed(
            old(state).elapsed(),
            delta_nanos as nat,
            players@,
        ),
        r is Err ==> *final(state) == *old(state),
        final(state).elapsed() < AUTOFIRE_PERIOD_NANOS,
{
    proof {
        use_type_invariant(&*state);
    }
    let mut next = timer_clone(&state.timer);
    timer_tick(&mut next, delta_nanos);
    if timer_just_finished(&next) {
        match get_single(players) {
            Ok(player) => {
                state.timer = next;
                Ok(Some(ShootBulletEvent { shooter: player }))
            },
            Err(e) => Err(e),
        }
    } else {
        state.timer = next;
        Ok(None)
    }
}

/// The number of requests that `autoshoot` yields over a run of frames that
/// starts with `elapsed` on the countdown, while `players` stays as it is.
pub open spec fn requests(elapsed: nat, deltas: Seq<nat>, players: Seq<u64>) -> nat
    decreases deltas.len(),
{
    if deltas.len() == 0 {
        0
    } else {
        let here: nat = if autoshoot_outcome(elapsed, deltas[0], players) matches Ok(Some(_)) {
            1
        } else {
            0
        };
        here + requests(
            autoshoot_elapsed(elapsed, deltas[0], players),
            deltas.drop_first(),
            players,
        )
    }
}

/// No frame of the run spans two expiries of a countdown that advances with
/// every frame.
pub open spec fn one_expiry_per_frame(elapsed: nat, deltas: Seq<nat>) -> bool
    decreases deltas.len(),
{
    deltas.len() > 0 ==> {
        &&& elapsed + deltas[0] < 2 * AUTOFIRE_PERIOD_NANOS
        &&& one_expiry_per_frame(
            (elapsed + deltas[0]) % (AUTOFIRE_PERIOD_NANOS as nat),
            deltas.drop_first(),
        )
    }
}

/// With one player, a run of frames yields one request for each full period
/// of accumulated time, however the time is cut into frames, as long as no
/// single frame spans two expiries.
pub proof fn lemma_one_request_per_period(elapsed: nat, deltas: Seq<nat>, players: Seq<u64>)
    requires
        elapsed < AUTOFIRE_PERIOD_NANOS,
        players.len() == 1,
        one_expiry_per_frame(elapsed, deltas),
    ensures
        requests(elapsed, deltas, players) == (elapsed + total_time(deltas)) / (
        AUTOFIRE_PERIOD_NANOS as nat),
    decreases deltas.len(),
{
    if deltas.len() > 0 {
        lemma_one_request_per_period(
            (elapsed + deltas[0]) % (AUTOFIRE_PERIOD_NANOS as nat),
            deltas.drop_first(),
            players,
        );
    }
}

/// Without exactly one player no run of frames yields a request.
pub proof fn lemma_no_request_without_player(elapsed: nat, deltas: Seq<nat>, players: Seq<u64>)
    requires
        players.len() != 1,
    ensures
        requests(elapsed, deltas, players) == 0,
    decreases deltas.len(),
{
    if deltas.len() > 0 {
        lemma_no_request_without_player(
            autoshoot_elapsed(elapsed, deltas[0], players),
            deltas.drop_first(),
            players,
        );
    }
}

/// Whatever the frames, a run never yields more requests than full periods
/// have passed.
pub proof fn lemma_requests_bounded(elapsed: nat, deltas: Seq<nat>, players: Seq<u64>)
    requires
        elapsed < AUTOFIRE_PERIOD_NANOS,
    ensures
        requests(elapsed, deltas, players) <= (elapsed + total_time(deltas)) / (
        AUTOFIRE_PERIOD_NANOS as nat),
    decreases deltas.len(),
{
    if deltas.len() > 0 {
        lemma_requests_bounded(
            autoshoot_elapsed(elapsed, deltas[0], players),
            deltas.drop_first(),
            players,
        );
    }
}

/// Frames that are each no longer than the period never span two expiries.
pub proof fn lemma_short_frames(elapsed: nat, deltas: Seq<nat>)
    requires
        elapsed < AUTOFIRE_PERIOD_NANOS,
        forall|i: int| 0 <= i < deltas.len() ==> deltas[i] <= AUTOFIRE_PERIOD_NANOS,
    ensures
        one_expiry_per_frame(elapsed, deltas),
    decreases deltas.len(),
{
    if deltas.len() > 0 {
        let rest = deltas.drop_first();
        assert forall|i: int| 0 <= i < rest.len() implies rest[i] <= AUTOFIRE_PERIOD_NANOS by {
            assert(rest[i] == deltas[i + 1]);
        }
        lemma_short_frames((elapsed + deltas[0]) % (AUTOFIRE_PERIOD_NANOS as nat), rest);
    }
}

} // verus!
