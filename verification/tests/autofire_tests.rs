use space_game::autofire::{autoshoot, Autofire, ShootBulletEvent, AUTOFIRE_PERIOD_NANOS};
use space_game::lookup::SingletonError;

const SECOND: u64 = 1_000_000_000;

fn shot(shooter: u64) -> Result<Option<ShootBulletEvent>, SingletonError> {
    Ok(Some(ShootBulletEvent { shooter }))
}

#[test]
fn period_is_three_seconds() {
    assert_eq!(AUTOFIRE_PERIOD_NANOS, 3 * SECOND);
}

#[test]
fn fires_when_three_seconds_have_accumulated() {
    let mut state = Autofire::new();
    let players = vec![42u64];
    assert_eq!(autoshoot(&mut state, SECOND, &players), Ok(None));
    assert_eq!(autoshoot(&mut state, SECOND, &players), Ok(None));
    assert_eq!(autoshoot(&mut state, SECOND - 1, &players), Ok(None));
    assert_eq!(autoshoot(&mut state, 1, &players), shot(42));
    assert_eq!(autoshoot(&mut state, 0, &players), Ok(None));
}

#[test]
fn fires_by_accumulated_time_not_by_frame_count() {
    // 0.7 + 1.9 + 0.4 = 3.0 s, then 2.5 + 0.25 + 0.25 = 3.0 s, then 5.9 s in
    // steps that carry 2.9 s over the second expiry.
    let deltas: [u64; 9] = [
        700_000_000,
        1_900_000_000,
        400_000_000,
        2_500_000_000,
        250_000_000,
        250_000_000,
        2_900_000_000,
        100_000_000,
        2_900_000_000,
    ];
    let expected = [false, false, true, false, false, true, false, true, false];
    let mut state = Autofire::new();
    let players = vec![7u64];
    let mut fired: u64 = 0;
    let mut total: u64 = 0;
    for (delta, expect) in deltas.iter().zip(expected.iter()) {
        let result = autoshoot(&mut state, *delta, &players);
        assert_eq!(result, if *expect { shot(7) } else { Ok(None) });
        if *expect {
            fired += 1;
        }
        total += *delta;
    }
    assert_eq!(fired, total / AUTOFIRE_PERIOD_NANOS);
    assert_eq!(fired, 3);
}

#[test]
fn same_total_in_many_or_few_frames_gives_same_count() {
    let players = vec![1u64];
    let mut coarse = Autofire::new();
    let mut coarse_count = 0;
    for _ in 0..4 {
        if autoshoot(&mut coarse, 3 * SECOND - 1, &players) == shot(1) {
            coarse_count += 1;
        }
    }
    let mut fine = Autofire::new();
    let mut fine_count = 0;
    for _ in 0..(4 * 3 * 16) {
        if autoshoot(&mut fine, (3 * SECOND - 1) / 48, &players) == shot(1) {
            fine_count += 1;
        }
    }
    // 4 * (3 s - 1 ns) is three full periods; the fine run loses 36 ns more
    // to rounding and still covers three.
    assert_eq!(coarse_count, 3);
    assert_eq!(fine_count, 3);
}

#[test]
fn no_player_at_expiry_fails_and_keeps_the_countdown() {
    let mut state = Autofire::new();
    let nobody: Vec<u64> = Vec::new();
    let players = vec![5u64];
    assert_eq!(autoshoot(&mut state, 2 * SECOND, &nobody), Ok(None));
    assert_eq!(
        autoshoot(&mut state, 3 * SECOND / 2, &nobody),
        Err(SingletonError::NoEntities)
    );
    // The failed frame did not advance the countdown: it still stands at 2 s,
    // so one more second reaches the period. Had it advanced, it would stand
    // at 0.5 s and stay silent here.
    assert_eq!(autoshoot(&mut state, SECOND, &players), shot(5));
}

#[test]
fn two_players_at_expiry_fail() {
    let mut state = Autofire::new();
    let players = vec![5u64, 6u64];
    assert_eq!(autoshoot(&mut state, SECOND, &players), Ok(None));
    assert_eq!(
        autoshoot(&mut state, 2 * SECOND, &players),
        Err(SingletonError::MultipleEntities)
    );
}

#[test]
fn no_player_means_no_request_ever() {
    let mut state = Autofire::new();
    let nobody: Vec<u64> = Vec::new();
    for _ in 0..20 {
        let result = autoshoot(&mut state, SECOND / 2, &nobody);
        assert!(!matches!(result, Ok(Some(_))));
    }
}

#[test]
fn a_frame_over_two_periods_gives_one_request() {
    let mut state = Autofire::new();
    let players = vec![9u64];
    assert_eq!(autoshoot(&mut state, 7 * SECOND, &players), shot(9));
    // 7 s wrap to 1 s on the countdown.
    assert_eq!(autoshoot(&mut state, 2 * SECOND - 1, &players), Ok(None));
    assert_eq!(autoshoot(&mut state, 1, &players), shot(9));
}

#[test]
fn a_frame_of_a_multiple_of_the_counter_range_is_silent() {
    // 2^32 periods in one frame: the engine counts expiries in 32 bits, and
    // reports none.
    let mut state = Autofire::new();
    let players = vec![9u64];
    let delta = AUTOFIRE_PERIOD_NANOS * (1u64 << 32);
    assert_eq!(autoshoot(&mut state, delta, &players), Ok(None));
    assert_eq!(autoshoot(&mut state, 3 * SECOND, &players), shot(9));
}
