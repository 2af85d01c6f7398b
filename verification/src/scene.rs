//! What destroying objects does to the set of objects in the scene, as far
//! as the objects that the frame logic names.

use crate::collision::{hit_of, hits_of, lemma_hit_is_listed, BulletHit, ContactEvent};
use vstd::prelude::*;

verus! {

/// The objects that a list of hits destroys, in the order in which they are
/// destroyed: for each hit the projectile, then the object that it hit.
pub open spec fn targets(hits: Seq<BulletHit>) -> Seq<u64>
    decreases hits.len(),
{
    if hits.len() == 0 {
        Seq::empty()
    } else {
        targets(hits.drop_last()).push(hits.last().bullet).push(hits.last().other)
    }
}

/// The scene that is left of `live` when `entities` are destroyed one after
/// the other. Destroying an object that is not in the scene changes nothing.
pub open spec fn despawn_all(live: Set<u64>, entities: Seq<u64>) -> Set<u64>
    decreases entities.len(),
{
    if entities.len() == 0 {
        live
    } else {
        despawn_all(live, entities.drop_last()).remove(entities.last())
    }
}

/// Destroying a list of objects leaves those that the list does not name.
pub proof fn lemma_despawn_all_leaves_the_rest(live: Set<u64>, entities: Seq<u64>)
    ensures
        forall|e: u64|
            #[trigger] despawn_all(live, entities).contains(e) <==> live.contains(e)
                && !entities.contains(e),
    decreases entities.len(),
{
    if entities.len() > 0 {
        let front = entities.drop_last();
        lemma_despawn_all_leaves_the_rest(live, front);
        assert forall|e: u64|
            #[trigger] despawn_all(live, entities).contains(e) <==> live.contains(e)
                && !entities.contains(e) by {
            assert(despawn_all(live, front).contains(e) <==> live.contains(e) && !front.contains(
                e,
            ));
            if entities.contains(e) {
                let i = choose|i: int| 0 <= i < entities.len() && entities[i] == e;
                if i < front.len() {
                    assert(front[i] == e);
                }
            }
            if front.contains(e) {
                let i = choose|i: int| 0 <= i < front.len() && front[i] == e;
                assert(entities[i] == e);
            }
        }
    }
}

/// Destroying is idempotent: a second round of the same destroy calls meets
/// objects that are gone, and changes nothing.
pub proof fn lemma_despawn_twice(live: Set<u64>, entities: Seq<u64>)
    ensures
        despawn_all(despawn_all(live, entities), entities) == despawn_all(live, entities),
{
    let once = despawn_all(live, entities);
    lemma_despawn_all_leaves_the_rest(live, entities);
    lemma_despawn_all_leaves_the_rest(once, entities);
    assert(despawn_all(once, entities) =~= once);
}

/// A projectile whose countdown ran out is gone from the scene, and stays
/// gone through the destroy calls of the frame's hits: where a hit names it
/// again, the call does nothing. The scene of the frame's end is the same in
/// whichever order the countdowns and the hits are served.
pub proof fn lemma_expired_and_hit(live: Set<u64>, expired: Seq<u64>, hits: Seq<BulletHit>)
    ensures
        forall|i: int|
            0 <= i < expired.len() ==> !despawn_all(
                despawn_all(live, expired),
                targets(hits),
            ).contains(#[trigger] expired[i]),
        despawn_all(despawn_all(live, expired), targets(hits)) == despawn_all(
            despawn_all(live, targets(hits)),
            expired,
        ),
        despawn_all(despawn_all(live, expired), targets(hits)) == despawn_all(
            live,
            expired + targets(hits),
        ),
{
    let named = targets(hits);
    let timed_out = despawn_all(live, expired);
    let hit_first = despawn_all(live, named);
    lemma_despawn_all_leaves_the_rest(live, expired);
    lemma_despawn_all_leaves_the_rest(timed_out, named);
    lemma_despawn_all_leaves_the_rest(live, named);
    lemma_despawn_all_leaves_the_rest(hit_first, expired);
    lemma_despawn_all_leaves_the_rest(live, expired + named);
    assert forall|e: u64| (expired + named).contains(e) <==> expired.contains(e) || named.contains(
        e,
    ) by {
        if expired.contains(e) {
            let i = choose|i: int| 0 <= i < expired.len() && expired[i] == e;
            assert((expired + named)[i] == e);
        }
        if named.contains(e) {
            let i = choose|i: int| 0 <= i < named.len() && named[i] == e;
            assert((expired + named)[expired.len() + i] == e);
        }
        if (expired + named).contains(e) {
            let i = choose|i: int| 0 <= i < (expired + named).len() && (expired + named)[i] == e;
            if i < expired.len() {
                assert(expired[i] == e);
            } else {
                assert(named[i - expired.len()] == e);
            }
        }
    }
    let both = despawn_all(timed_out, named);
    assert forall|e: u64| both.contains(e) <==> despawn_all(hit_first, expired).contains(e) by {
        assert(timed_out.contains(e) <==> live.contains(e) && !expired.contains(e));
        assert(hit_first.contains(e) <==> live.contains(e) && !named.contains(e));
    }
    assert forall|e: u64| both.contains(e) <==> despawn_all(live, expired + named).contains(e) by {
        assert(timed_out.contains(e) <==> live.contains(e) && !expired.contains(e));
    }
    assert(both =~= despawn_all(hit_first, expired));
    assert(both =~= despawn_all(live, expired + named));
}

/// Every hit names its two objects among the objects to destroy.
pub proof fn lemma_targets_name_both(hits: Seq<BulletHit>, i: int)
    requires
        0 <= i < hits.len(),
    ensures
        targets(hits).contains(hits[i].bullet),
        targets(hits).contains(hits[i].other),
    decreases hits.len(),
{
    let all = targets(hits);
    let front = targets(hits.drop_last());
    assert(all.len() == front.len() + 2);
    if i == hits.len() - 1 {
        assert(all[all.len() - 2] == hits[i].bullet);
        assert(all[all.len() - 1] == hits[i].other);
    } else {
        lemma_targets_name_both(hits.drop_last(), i);
        let b = choose|j: int| 0 <= j < front.len() && front[j] == hits[i].bullet;
        assert(all[b] == hits[i].bullet);
        let o = choose|j: int| 0 <= j < front.len() && front[j] == hits[i].other;
        assert(all[o] == hits[i].other);
    }
}

/// After the destroy calls of a frame's hits neither the projectile nor the
/// object that it hit is in the scene, for any of the hits.
pub proof fn lemma_hit_removes_both(live: Set<u64>, hits: Seq<BulletHit>, i: int)
    requires
        0 <= i < hits.len(),
    ensures
        !despawn_all(live, targets(hits)).contains(hits[i].bullet),
        !despawn_all(live, targets(hits)).contains(hits[i].other),
{
    lemma_targets_name_both(hits, i);
    lemma_despawn_all_leaves_the_rest(live, targets(hits));
}

/// A contact that starts between a projectile and another object removes
/// both from the scene, whatever else the frame's contacts are; and when the
/// same contacts are reported again, the destroy calls meet objects that are
/// gone and leave the scene as it is.
pub proof fn lemma_contact_removes_both(
    live: Set<u64>,
    events: Seq<ContactEvent>,
    bullets: Seq<u64>,
    i: int,
    first: u64,
    second: u64,
)
    requires
        0 <= i < events.len(),
        events[i] == ContactEvent::Started(first, second),
        bullets.contains(first) || bullets.contains(second),
    ensures
        !despawn_all(live, targets(hits_of(events, bullets))).contains(first),
        !despawn_all(live, targets(hits_of(events, bullets))).contains(second),
        despawn_all(
            despawn_all(live, targets(hits_of(events, bullets))),
            targets(hits_of(events, bullets)),
        ) == despawn_all(live, targets(hits_of(events, bullets))),
{
    let hits = hits_of(events, bullets);
    let hit = hit_of(events[i], bullets)->0;
    lemma_hit_is_listed(events, bullets, i);
    let j = choose|j: int| 0 <= j < hits.len() && hits[j] == hit;
    lemma_hit_removes_both(live, hits, j);
    lemma_despawn_twice(live, targets(hits));
}

} // verus!
