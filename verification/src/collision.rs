//! Collision resolution: a contact that starts between a projectile and
//! another object destroys both.

use crate::lookup::is_tagged;
use vstd::prelude::*;

verus! {

/// A contact reported by the physics engine between two objects.
#[derive(Clone, Copy, Debug, PartialEq, Eq, Structural)]
pub enum ContactEvent {
    /// The two objects started to touch.
    Started(u64, u64),
    /// The two objects stopped touching.
    Stopped(u64, u64),
}

/// A projectile and the object that it hit.
#[derive(Clone, Copy, Debug, PartialEq, Eq, Structural)]
pub struct BulletHit {
    /// The projectile: it is destroyed.
    pub bullet: u64,
    /// The object it hit: it is destroyed along with its children.
    pub other: u64,
}

/// What one contact leads to. A contact that starts with a projectile on
/// either side is a hit, and the first participant counts as the projectile
/// when both are; any other contact is none.
pub open spec fn hit_of(event: ContactEvent, bullets: Seq<u64>) -> Option<BulletHit> {
    match event {
        ContactEvent::Started(first, second) => {
            if bullets.contains(first) {
                Some(BulletHit { bullet: first, other: second })
            } else if bullets.contains(second) {
                Some(BulletHit { bullet: second, other: first })
            } else {
                None
            }
        },
        ContactEvent::Stopped(_, _) => None,
    }
}

/// The hits among `events`, one for each contact that is one, in the order
/// of the contacts.
pub open spec fn hits_of(events: Seq<ContactEvent>, bullets: Seq<u64>) -> Seq<BulletHit>
    decreases events.len(),
{
    if events.len() == 0 {
        Seq::empty()
    } else {
        let before = hits_of(events.drop_last(), bullets);
        match hit_of(events.last(), bullets) {
            Some(hit) => before.push(hit),
            None => before,
        }
    }
}

/// Every contact that is a hit has its hit in the list.
pub proof fn lemma_hit_is_listed(events: Seq<ContactEvent>, bullets: Seq<u64>, i: int)
    requires
        0 <= i < events.len(),
        hit_of(events[i], bullets) is Some,
    ensures
        hits_of(events, bullets).contains(hit_of(events[i], bullets)->0),
    decreases events.len(),
{
    let hits = hits_of(events, bullets);
    let front = hits_of(events.drop_last(), bullets);
    if i == events.len() - 1 {
        assert(hits[hits.len() - 1] == hit_of(events[i], bullets)->0);
    } else {
        lemma_hit_is_listed(events.drop_last(), bullets, i);
        let j = choose|j: int| 0 <= j < front.len() && front[j] == hit_of(events[i], bullets)->0;
        assert(hits[j] == front[j]);
    }
}

/// Every hit in the list comes from a contact that started with a projectile
/// on one side: the list holds nothing else.
pub proof fn lemma_listed_hit_has_contact(events: Seq<ContactEvent>, bullets: Seq<u64>, j: int)
    requires
        0 <= j < hits_of(events, bullets).len(),
    ensures
        bullets.contains(hits_of(events, bullets)[j].bullet),
        exists|i: int|
            0 <= i < events.len() && #[trigger] hit_of(events[i], bullets) == Some(
                hits_of(events, bullets)[j],
            ),
    decreases events.len(),
{
    let hits = hits_of(events, bullets);
    let front = hits_of(events.drop_last(), bullets);
    if j < front.len() {
        lemma_listed_hit_has_contact(events.drop_last(), bullets, j);
        let i = choose|i: int|
            0 <= i < events.len() - 1 && #[trigger] hit_of(events.drop_last()[i], bullets) == Some(
                front[j],
            );
        assert(hit_of(events[i], bullets) == Some(hits[j]));
    } else {
        assert(hit_of(events[events.len() - 1], bullets) == Some(hits[j]));
    }
}

/// Decides what one contact leads to, given the objects that carry the
/// projectile tag.
pub fn resolve_contact(event: ContactEvent, bullets: &Vec<u64>) -> (hit: Option<BulletHit>)
    ensures
        hit == hit_of(event, bullets@),
{
    match event {
        ContactEvent::Started(first, second) => {
            if is_tagged(bullets, first) {
                Some(BulletHit { bullet: first, other: second })
            } else if is_tagged(bullets, second) {
                Some(BulletHit { bullet: second, other: first })
            } else {
                None
            }
        },
        ContactEvent::Stopped(_, _) => None,
    }
}

/// Goes through the contacts of a frame and returns the hits: for each, the
/// projectile to destroy and the object to destroy along with its children.
/// Each contact is decided by itself, so one object may be named by several
/// hits.
pub fn bullet_collision(events: &Vec<ContactEvent>, bullets: &Vec<u64>) -> (hits: Vec<BulletHit>)
    ensures
        hits@ == hits_of(events@, bullets@),
{
    let mut hits: Vec<BulletHit> = Vec::new();
    let mut i: usize = 0;
    while i < events.len()
        invariant
            i <= events@.len(),
            hits@ == hits_of(events@.take(i as int), bullets@),
        decreases events@.len() - i,
    {
        proof {
            assert(events@.take(i as int + 1).drop_last() == events@.take(i as int));
        }
        match resolve_contact(events[i], bullets) {
            Some(hit) => {
                hits.push(hit);
            },
            None => {},
        }
        i += 1;
    }
    proof {
        assert(events@.take(i as int) == events@);
    }
    hits
}

} // verus!
