//! The ships, as far as they are decided without arithmetic on vectors:
//! which ship turns after which camera, and which requests for a projectile
//! find their shooter.

use crate::autofire::ShootBulletEvent;
use crate::lookup::{get_single, is_tagged, single_of, SingletonError};
use vstd::prelude::*;

verus! {

/// The player to turn and the camera to turn it after, or why the frame
/// fails: the player is looked up first.
pub open spec fn chase_of(players: Seq<u64>, cameras: Seq<u64>) -> Result<
    (u64, u64),
    SingletonError,
> {
    match single_of(players) {
        Ok(player) => match single_of(cameras) {
            Ok(camera) => Ok((player, camera)),
            Err(e) => Err(e),
        },
        Err(e) => Err(e),
    }
}

/// Picks the one player and the one active camera whose orientation the
/// player chases. The frame fails without exactly one of each.
pub fn player_rotation_controller(players: &Vec<u64>, cameras: &Vec<u64>) -> (r: Result<
    (u64, u64),
    SingletonError,
>)
    ensures
        r == chase_of(players@, cameras@),
{
    match get_single(players) {
        Ok(player) => match get_single(cameras) {
            Ok(camera) => Ok((player, camera)),
            Err(e) => Err(e),
        },
        Err(e) => Err(e),
    }
}

/// The shooters among `events` that are ships, one for each such request, in
/// the order of the requests.
pub open spec fn shooters_of(events: Seq<ShootBulletEvent>, ships: Seq<u64>) -> Seq<u64>
    decreases events.len(),
{
    if events.len() == 0 {
        Seq::empty()
    } else {
        let before = shooters_of(events.drop_last(), ships);
        if ships.contains(events.last().shooter) {
            before.push(events.last().shooter)
        } else {
            before
        }
    }
}

/// Goes through the frame's requests and returns the ships to spawn a
/// projectile from: one for each request whose shooter is a ship. A request
/// whose shooter is no ship, or is gone, is dropped.
pub fn spawn_bullet(events: &Vec<ShootBulletEvent>, ships: &Vec<u64>) -> (shooters: Vec<u64>)
    ensures
        shooters@ == shooters_of(events@, ships@),
{
    let mut shooters: Vec<u64> = Vec::new();
    let mut i: usize = 0;
    while i < events.len()
        invariant
            i <= events@.len(),
            shooters@ == shooters_of(events@.take(i as int), ships@),
        decreases events@.len() - i,
    {
        proof {
            assert(events@.take(i as int + 1).drop_last() == events@.take(i as int));
        }
        let shooter = events[i].shooter;
        if is_tagged(ships, shooter) {
            shooters.push(shooter);
        }
        i += 1;
    }
    proof {
        assert(events@.take(i as int) == events@);
    }
    shooters
}

} // verus!
