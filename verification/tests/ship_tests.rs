use space_game::autofire::ShootBulletEvent;
use space_game::lookup::SingletonError;
use space_game::ship::{player_rotation_controller, spawn_bullet};

#[test]
fn player_chases_the_one_camera() {
    assert_eq!(player_rotation_controller(&vec![2], &vec![30]), Ok((2, 30)));
}

#[test]
fn chase_fails_without_one_player() {
    assert_eq!(
        player_rotation_controller(&Vec::new(), &vec![30]),
        Err(SingletonError::NoEntities)
    );
    assert_eq!(
        player_rotation_controller(&vec![2, 3], &vec![30]),
        Err(SingletonError::MultipleEntities)
    );
}

#[test]
fn chase_fails_without_one_camera() {
    assert_eq!(
        player_rotation_controller(&vec![2], &Vec::new()),
        Err(SingletonError::NoEntities)
    );
    assert_eq!(
        player_rotation_controller(&vec![2], &vec![30, 31]),
        Err(SingletonError::MultipleEntities)
    );
}

#[test]
fn missing_player_is_reported_before_the_camera() {
    assert_eq!(
        player_rotation_controller(&Vec::new(), &vec![30, 31]),
        Err(SingletonError::NoEntities)
    );
    assert_eq!(
        player_rotation_controller(&vec![2, 3], &Vec::new()),
        Err(SingletonError::MultipleEntities)
    );
}

#[test]
fn each_request_of_a_ship_spawns_one_projectile() {
    let ships = vec![1u64, 2];
    let events = vec![
        ShootBulletEvent { shooter: 1 },
        ShootBulletEvent { shooter: 7 },
        ShootBulletEvent { shooter: 2 },
        ShootBulletEvent { shooter: 1 },
    ];
    assert_eq!(spawn_bullet(&events, &ships), vec![1, 2, 1]);
}

#[test]
fn requests_without_a_ship_spawn_nothing() {
    let events = vec![ShootBulletEvent { shooter: 1 }];
    assert_eq!(spawn_bullet(&events, &Vec::new()), Vec::<u64>::new());
    assert_eq!(spawn_bullet(&Vec::new(), &vec![1]), Vec::<u64>::new());
}
