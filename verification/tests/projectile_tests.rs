use space_game::projectile::{delayed_despawn, DelayedDespawn, BULLET_LIFETIME_NANOS};

const SECOND: u64 = 1_000_000_000;

#[test]
fn bullet_lifetime_is_five_seconds() {
    assert_eq!(BULLET_LIFETIME_NANOS, 5 * SECOND);
}

#[test]
fn countdown_expires_once_when_its_duration_is_reached() {
    let mut countdown = DelayedDespawn::new(BULLET_LIFETIME_NANOS);
    assert!(!countdown.tick(2 * SECOND));
    assert!(!countdown.tick(3 * SECOND - 1));
    assert!(countdown.tick(1));
    assert!(!countdown.tick(1));
    assert!(!countdown.tick(10 * SECOND));
}

#[test]
fn countdown_expires_in_a_frame_that_overshoots() {
    let mut countdown = DelayedDespawn::new(5 * SECOND);
    assert!(countdown.tick(60 * SECOND));
    assert!(!countdown.tick(60 * SECOND));
}

#[test]
fn countdown_of_no_duration_expires_on_its_first_frame() {
    let mut countdown = DelayedDespawn::new(0);
    assert!(countdown.tick(0));
    assert!(!countdown.tick(0));
}

#[test]
fn countdown_takes_the_longest_frame() {
    let mut countdown = DelayedDespawn::new(u64::MAX);
    assert!(!countdown.tick(u64::MAX - 1));
    assert!(countdown.tick(u64::MAX));
    assert!(!countdown.tick(u64::MAX));
}

#[test]
fn clone_keeps_the_state() {
    let mut countdown = DelayedDespawn::new(5 * SECOND);
    assert!(!countdown.tick(4 * SECOND));
    let mut copy = countdown.clone();
    assert!(copy.tick(SECOND));
    assert!(!countdown.tick(SECOND - 1));
    assert!(countdown.tick(1));
}

#[test]
fn frame_returns_the_expired_objects_in_order() {
    let mut countdowns = vec![
        (10u64, DelayedDespawn::new(5 * SECOND)),
        (11u64, DelayedDespawn::new(SECOND)),
        (12u64, DelayedDespawn::new(2 * SECOND)),
        (13u64, DelayedDespawn::new(SECOND / 2)),
    ];
    assert_eq!(delayed_despawn(&mut countdowns, SECOND), vec![11, 13]);
    assert_eq!(countdowns.len(), 4);
    assert_eq!(countdowns[0].0, 10);
    assert_eq!(countdowns[3].0, 13);
    assert_eq!(delayed_despawn(&mut countdowns, SECOND), vec![12]);
    assert_eq!(delayed_despawn(&mut countdowns, 2 * SECOND), Vec::<u64>::new());
    assert_eq!(delayed_despawn(&mut countdowns, SECOND), vec![10]);
    assert_eq!(delayed_despawn(&mut countdowns, 100 * SECOND), Vec::<u64>::new());
}

#[test]
fn frame_over_no_objects_returns_none() {
    let mut countdowns: Vec<(u64, DelayedDespawn)> = Vec::new();
    assert_eq!(delayed_despawn(&mut countdowns, SECOND), Vec::<u64>::new());
}
