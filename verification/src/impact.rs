//! Detonation of missiles that run into something solid.

use crate::collision::both_ways;
use crate::collision::collision_started_events_both_ways;
use crate::collision::CollisionEvent;
use crate::collision::Entity;
use crate::explosion::StartExplosion;
use crate::missile::Missile;
use vstd::prelude::*;

verus! {

/// No two missiles share an identifier.
pub open spec fn distinct_entities(missiles: Seq<Missile>) -> bool {
    forall|i: int, j: int|
        0 <= i < j < missiles.len() ==> (#[trigger] missiles[i]).entity != (
        #[trigger] missiles[j]).entity
}

/// Some missile goes by the identifier `entity`.
pub open spec fn has_entity(missiles: Seq<Missile>, entity: Entity) -> bool {
    exists|i: int| 0 <= i < missiles.len() && (#[trigger] missiles[i]).entity == entity
}

/// The missile that goes by the identifier `entity`.
pub open spec fn missile_with(missiles: Seq<Missile>, entity: Entity) -> Missile {
    missiles[choose|i: int| 0 <= i < missiles.len() && (#[trigger] missiles[i]).entity == entity]
}

/// The pair names `entity` on its left and a detonating body on its right.
pub open spec fn qualifies(pair: (Entity, Entity), detonators: Seq<Entity>, entity: Entity) -> bool {
    pair.0 == entity && detonators.contains(pair.1)
}

/// Some contact of the tick brings `entity` against a detonating body.
pub open spec fn is_hit(pairs: Seq<(Entity, Entity)>, detonators: Seq<Entity>, entity: Entity) -> bool {
    exists|k: int| 0 <= k < pairs.len() && qualifies(#[trigger] pairs[k], detonators, entity)
}

/// The test that a missile passes when nothing of the tick's contacts
/// detonates it.
pub open spec fn survives(pairs: Seq<(Entity, Entity)>, detonators: Seq<Entity>) -> spec_fn(
    Missile,
) -> bool {
    |missile: Missile| !is_hit(pairs, detonators, missile.entity)
}

/// The explosion that a missile leaves where it was, in its own level.
pub open spec fn explosion_of(missile: Missile) -> StartExplosion {
    StartExplosion { level: missile.level, position: missile.position }
}

/// The explosions that a tick's contacts set off, in contact order. A contact
/// detonates the missile on its left when its right side is a detonating body
/// and no earlier contact has detonated that missile already.
pub open spec fn detonations(
    pairs: Seq<(Entity, Entity)>,
    missiles: Seq<Missile>,
    detonators: Seq<Entity>,
) -> Seq<StartExplosion>
    decreases pairs.len(),
{
    if pairs.len() == 0 {
        Seq::empty()
    } else {
        let before = pairs.drop_last();
        let earlier = detonations(before, missiles, detonators);
        let pair = pairs.last();
        if detonators.contains(pair.1) && has_entity(missiles, pair.0) && !is_hit(
            before,
            detonators,
            pair.0,
        ) {
            earlier.push(explosion_of(missile_with(missiles, pair.0)))
        } else {
            earlier
        }
    }
}

/// How many of the flags are set.
pub open spec fn count_set(flags: Seq<bool>) -> nat
    decreases flags.len(),
{
    if flags.len() == 0 {
        0
    } else {
        count_set(flags.drop_last()) + if flags.last() {
            1nat
        } else {
            0nat
        }
    }
}

/// Setting a flag that was clear raises the count by one.
proof fn lemma_count_set_update(flags: Seq<bool>, i: int)
    requires
        0 <= i < flags.len(),
        !flags[i],
    ensures
        count_set(flags.update(i, true)) == count_set(flags) + 1,
    decreases flags.len(),
{
    let updated = flags.update(i, true);
    if i == flags.len() - 1 {
        assert(updated.drop_last() == flags.drop_last());
    } else {
        assert(updated.drop_last() == flags.drop_last().update(i, true));
        lemma_count_set_update(flags.drop_last(), i);
    }
}

/// One more contact hits what was hit before, and what it qualifies for.
proof fn lemma_is_hit_step(
    pairs: Seq<(Entity, Entity)>,
    k: int,
    detonators: Seq<Entity>,
    entity: Entity,
)
    requires
        0 <= k < pairs.len(),
    ensures
        is_hit(pairs.take(k + 1), detonators, entity) <==> is_hit(
            pairs.take(k),
            detonators,
            entity,
        ) || qualifies(pairs[k], detonators, entity),
{
    let shorter = pairs.take(k);
    let longer = pairs.take(k + 1);
    if is_hit(shorter, detonators, entity) {
        let j = choose|j: int|
            0 <= j < shorter.len() && qualifies(#[trigger] shorter[j], detonators, entity);
        assert(longer[j] == shorter[j]);
    }
    if qualifies(pairs[k], detonators, entity) {
        assert(longer[k] == pairs[k]);
    }
    if is_hit(longer, detonators, entity) {
        let j = choose|j: int|
            0 <= j < longer.len() && qualifies(#[trigger] longer[j], detonators, entity);
        if j < k {
            assert(shorter[j] == longer[j]);
        }
    }
}

/// Tells whether `entity` is among `entities`.
pub fn contains_entity(entities: &Vec<Entity>, entity: Entity) -> (found: bool)
    ensures
        found == entities@.contains(entity),
{
    let mut i: usize = 0;
    while i < entities.len()
        invariant
            i <= entities.len(),
            forall|j: int| 0 <= j < i ==> entities[j] != entity,
        decreases entities.len() - i,
    {
        if entities[i] == entity {
            return true;
        }
        i += 1;
    }
    false
}

/// Finds the place of the first missile that goes by the identifier `entity`.
pub fn find_missile(missiles: &Vec<Missile>, entity: Entity) -> (found: Option<usize>)
    ensures
        match found {
            Some(i) => i < missiles.len() && missiles[i as int].entity == entity && forall|j: int|
                0 <= j < i ==> (#[trigger] missiles[j]).entity != entity,
            None => !has_entity(missiles@, entity),
        },
{
    let mut i: usize = 0;
    while i < missiles.len()
        invariant
            i <= missiles.len(),
            forall|j: int| 0 <= j < i ==> (#[trigger] missiles[j]).entity != entity,
        decreases missiles.len() - i,
    {
        if missiles[i].entity == entity {
            return Some(i);
        }
        i += 1;
    }
    None
}

/// Detonates every missile that one of the tick's contacts brings against a
/// detonating body.
///
/// Each such missile leaves `missiles` and sets off one explosion where it
/// was, however many contacts name it; the others stay, in their order.
pub fn explode_missiles_on_impact(
    events: &Vec<CollisionEvent>,
    missiles: &mut Vec<Missile>,
    detonators: &Vec<Entity>,
) -> (explosions: Vec<StartExplosion>)
    requires
        distinct_entities(old(missiles)@),
    ensures
        final(missiles)@ == old(missiles)@.filter(survives(both_ways(events@), detonators@)),
        explosions@ == detonations(both_ways(events@), old(missiles)@, detonators@),
        explosions.len() + final(missiles).len() == old(missiles).len(),
        distinct_entities(final(missiles)@),
{
    let pairs = collision_started_events_both_ways(events);
    let count = missiles.len();
    let mut destroyed: Vec<bool> = Vec::new();
    let mut n: usize = 0;
    while n < count
        invariant
            n <= count,
            destroyed.len() == n,
            forall|i: int| 0 <= i < n ==> !destroyed[i],
            count_set(destroyed@) == 0,
        decreases count - n,
    {
        let ghost clear = destroyed@;
        destroyed.push(false);
        assert(destroyed@.drop_last() == clear);
        n += 1;
    }
    let mut explosions: Vec<StartExplosion> = Vec::new();
    let mut k: usize = 0;
    assert(pairs@.take(0).len() == 0);
    while k < pairs.len()
        invariant
            k <= pairs.len(),
            missiles@ == old(missiles)@,
            count == missiles.len(),
            destroyed.len() == count,
            distinct_entities(missiles@),
            forall|i: int|
                0 <= i < count ==> destroyed[i] == is_hit(
                    pairs@.take(k as int),
                    detonators@,
                    (#[trigger] missiles[i]).entity,
                ),
            explosions@ == detonations(pairs@.take(k as int), missiles@, detonators@),
            explosions.len() == count_set(destroyed@),
        decreases pairs.len() - k,
    {
        let pair = pairs[k];
        let ghost before = pairs@.take(k as int);
        let ghost after = pairs@.take(k + 1);
        let ghost flags = destroyed@;
        proof {
            assert(after.drop_last() == before);
            assert(after.last() == pair);
            assert forall|i: int| 0 <= i < count implies (is_hit(
                after,
                detonators@,
                (#[trigger] missiles[i]).entity,
            ) <==> flags[i] || qualifies(pair, detonators@, missiles[i].entity)) by {
                lemma_is_hit_step(pairs@, k as int, detonators@, missiles[i].entity);
            }
            lemma_is_hit_step(pairs@, k as int, detonators@, pair.0);
        }
        if contains_entity(detonators, pair.1) {
            match find_missile(missiles, pair.0) {
                Some(index) => {
                    assert(missile_with(missiles@, pair.0) == missiles[index as int]);
                    if !destroyed[index] {
                        destroyed.set(index, true);
                        explosions.push(
                            StartExplosion {
                                level: missiles[index].level,
                                position: missiles[index].position,
                            },
                        );
                        proof {
                            lemma_count_set_update(flags, index as int);
                        }
                    }
                },
                None => {},
            }
        }
        k += 1;
    }
    assert(pairs@.take(pairs.len() as int) == pairs@);
    let ghost keep = survives(pairs@, detonators@);
    let mut survivors: Vec<Missile> = Vec::new();
    let mut i: usize = 0;
    assert(missiles@.take(0) == Seq::<Missile>::empty());
    assert(destroyed@.take(0) == Seq::<bool>::empty());
    proof {
        missiles@.take(0).lemma_all_neg_filter_empty(keep);
    }
    while i < count
        invariant
            i <= count,
            missiles@ == old(missiles)@,
            count == missiles.len(),
            destroyed.len() == count,
            keep == survives(pairs@, detonators@),
            forall|j: int|
                0 <= j < count ==> destroyed[j] == is_hit(
                    pairs@,
                    detonators@,
                    (#[trigger] missiles[j]).entity,
                ),
            survivors@ == missiles@.take(i as int).filter(keep),
            survivors.len() + count_set(destroyed@.take(i as int)) == i,
        decreases count - i,
    {
        proof {
            missiles@.lemma_take_succ_push(i as int);
            missiles@.take(i as int).lemma_filter_push(missiles[i as int], keep);
            assert(destroyed@.take(i + 1).drop_last() == destroyed@.take(i as int));
            assert(keep(missiles[i as int]) == !destroyed[i as int]);
        }
        if !destroyed[i] {
            survivors.push(missiles[i]);
        }
        i += 1;
    }
    proof {
        assert(missiles@.take(count as int) == missiles@);
        assert(destroyed@.take(count as int) == destroyed@);
        lemma_filter_keeps_distinct(missiles@, keep);
    }
    *missiles = survivors;
    explosions
}

/// Leaving missiles out keeps the rest distinct.
proof fn lemma_filter_keeps_distinct(missiles: Seq<Missile>, keep: spec_fn(Missile) -> bool)
    requires
        distinct_entities(missiles),
    ensures
        distinct_entities(missiles.filter(keep)),
        forall|m: Missile| #[trigger] missiles.filter(keep).contains(m) ==> missiles.contains(m),
    decreases missiles.len(),
{
    reveal(Seq::filter);
    if missiles.len() > 0 {
        let rest = missiles.drop_last();
        lemma_filter_keeps_distinct(rest, keep);
        let kept = rest.filter(keep);
        assert forall|m: Missile| #[trigger] missiles.filter(keep).contains(m) implies missiles.contains(
            m,
        ) by {
            if kept.contains(m) {
                let j = choose|j: int| 0 <= j < rest.len() && rest[j] == m;
                assert(missiles[j] == m);
            } else {
                assert(m == missiles.last());
                assert(missiles[missiles.len() - 1] == m);
            }
        }
        if keep(missiles.last()) {
            let all = kept.push(missiles.last());
            assert forall|i: int, j: int| 0 <= i < j < all.len() implies (#[trigger] all[i]).entity
                != (#[trigger] all[j]).entity by {
                if j == kept.len() {
                    assert(kept.contains(kept[i]));
                    let a = choose|a: int| 0 <= a < rest.len() && rest[a] == kept[i];
                    assert(missiles[a] == kept[i]);
                }
            }
        }
    }
}

/// A missile that is hit sets off an explosion where it was.
pub proof fn lemma_hit_missile_detonates(
    pairs: Seq<(Entity, Entity)>,
    missiles: Seq<Missile>,
    detonators: Seq<Entity>,
    i: int,
)
    requires
        distinct_entities(missiles),
        0 <= i < missiles.len(),
        is_hit(pairs, detonators, missiles[i].entity),
    ensures
        detonations(pairs, missiles, detonators).contains(explosion_of(missiles[i])),
    decreases pairs.len(),
{
    let entity = missiles[i].entity;
    let k = choose|k: int| 0 <= k < pairs.len() && qualifies(#[trigger] pairs[k], detonators, entity);
    let before = pairs.drop_last();
    let earlier = detonations(before, missiles, detonators);
    let all = detonations(pairs, missiles, detonators);
    if is_hit(before, detonators, entity) {
        lemma_hit_missile_detonates(before, missiles, detonators, i);
        let at = choose|at: int| 0 <= at < earlier.len() && earlier[at] == explosion_of(missiles[i]);
        assert(all[at] == explosion_of(missiles[i]));
    } else {
        if k < pairs.len() - 1 {
            assert(before[k] == pairs[k]);
        }
        assert(pairs.last().0 == entity);
        assert(missile_with(missiles, entity) == missiles[i]);
        assert(all[all.len() - 1] == explosion_of(missiles[i]));
    }
}

/// A missile that is hit is gone after the tick, and one that is not hit is
/// still there.
pub proof fn lemma_missile_is_gone_exactly_when_hit(
    pairs: Seq<(Entity, Entity)>,
    missiles: Seq<Missile>,
    detonators: Seq<Entity>,
    i: int,
)
    requires
        0 <= i < missiles.len(),
    ensures
        missiles.filter(survives(pairs, detonators)).contains(missiles[i]) <==> !is_hit(
            pairs,
            detonators,
            missiles[i].entity,
        ),
{
    let keep = survives(pairs, detonators);
    let kept = missiles.filter(keep);
    if kept.contains(missiles[i]) {
        let at = choose|at: int| 0 <= at < kept.len() && kept[at] == missiles[i];
        missiles.lemma_filter_pred(keep, at);
    }
    if !is_hit(pairs, detonators, missiles[i].entity) {
        missiles.lemma_filter_contains(keep, i);
    }
}

/// However many contacts name it, a missile detonates at most once: the
/// explosions of a tick are as many as the missiles that are hit.
pub proof fn lemma_one_explosion_per_hit_missile(
    pairs: Seq<(Entity, Entity)>,
    missiles: Seq<Missile>,
    detonators: Seq<Entity>,
)
    requires
        distinct_entities(missiles),
    ensures
        detonations(pairs, missiles, detonators).len() + missiles.filter(
            survives(pairs, detonators),
        ).len() == missiles.len(),
    decreases pairs.len(),
{
    let keep = survives(pairs, detonators);
    if pairs.len() == 0 {
        assert forall|i: int| 0 <= i < missiles.len() implies keep(#[trigger] missiles[i]) by {}
        lemma_filter_all(missiles, keep);
    } else {
        let before = pairs.drop_last();
        let pair = pairs.last();
        let kept_before = survives(before, detonators);
        lemma_one_explosion_per_hit_missile(before, missiles, detonators);
        assert(pairs.take(pairs.len() - 1) == before);
        assert(pairs.take(pairs.len() as int) == pairs);
        assert forall|e: Entity|
            is_hit(pairs, detonators, e) <==> is_hit(before, detonators, e) || qualifies(
                pair,
                detonators,
                e,
            ) by {
            lemma_is_hit_step(pairs, pairs.len() - 1, detonators, e);
        }
        if detonators.contains(pair.1) && has_entity(missiles, pair.0) && !is_hit(
            before,
            detonators,
            pair.0,
        ) {
            let at = choose|at: int|
                0 <= at < missiles.len() && (#[trigger] missiles[at]).entity == pair.0;
            assert forall|j: int| 0 <= j < missiles.len() implies keep(#[trigger] missiles[j]) == (
            kept_before(missiles[j]) && j != at) by {}
            lemma_filter_without_one(missiles, kept_before, keep, at);
        } else {
            assert forall|j: int| 0 <= j < missiles.len() implies keep(#[trigger] missiles[j])
                == kept_before(missiles[j]) by {}
            lemma_filter_agrees(missiles, kept_before, keep);
        }
    }
}

/// A test that every item passes leaves nothing out.
proof fn lemma_filter_all(missiles: Seq<Missile>, keep: spec_fn(Missile) -> bool)
    requires
        forall|i: int| 0 <= i < missiles.len() ==> keep(#[trigger] missiles[i]),
    ensures
        missiles.filter(keep) == missiles,
    decreases missiles.len(),
{
    reveal(Seq::filter);
    if missiles.len() > 0 {
        let rest = missiles.drop_last();
        assert forall|i: int| 0 <= i < rest.len() implies keep(#[trigger] rest[i]) by {
            assert(rest[i] == missiles[i]);
        }
        lemma_filter_all(rest, keep);
        assert(rest.push(missiles.last()) == missiles);
    }
}

/// Two tests that agree on every item keep the same items.
proof fn lemma_filter_agrees(
    missiles: Seq<Missile>,
    first: spec_fn(Missile) -> bool,
    second: spec_fn(Missile) -> bool,
)
    requires
        forall|i: int| 0 <= i < missiles.len() ==> second(#[trigger] missiles[i]) == first(missiles[i]),
    ensures
        missiles.filter(second) == missiles.filter(first),
    decreases missiles.len(),
{
    reveal(Seq::filter);
    if missiles.len() > 0 {
        let rest = missiles.drop_last();
        assert forall|i: int| 0 <= i < rest.len() implies second(#[trigger] rest[i]) == first(
            rest[i],
        ) by {
            assert(rest[i] == missiles[i]);
        }
        lemma_filter_agrees(rest, first, second);
        assert(missiles.last() == missiles[missiles.len() - 1]);
    }
}

/// A test that fails one more item, which the other test passes, keeps one
/// item fewer.
proof fn lemma_filter_without_one(
    missiles: Seq<Missile>,
    first: spec_fn(Missile) -> bool,
    second: spec_fn(Missile) -> bool,
    at: int,
)
    requires
        0 <= at < missiles.len(),
        first(missiles[at]),
        forall|j: int|
            0 <= j < missiles.len() ==> second(#[trigger] missiles[j]) == (first(missiles[j]) && j
                != at),
    ensures
        missiles.filter(second).len() + 1 == missiles.filter(first).len(),
    decreases missiles.len(),
{
    reveal(Seq::filter);
    let rest = missiles.drop_last();
    assert(missiles.last() == missiles[missiles.len() - 1]);
    if at == missiles.len() - 1 {
        assert forall|i: int| 0 <= i < rest.len() implies second(#[trigger] rest[i]) == first(
            rest[i],
        ) by {
            assert(rest[i] == missiles[i]);
        }
        lemma_filter_agrees(rest, first, second);
    } else {
        assert(rest[at] == missiles[at]);
        assert forall|j: int| 0 <= j < rest.len() implies second(#[trigger] rest[j]) == (first(
            rest[j],
        ) && j != at) by {
            assert(rest[j] == missiles[j]);
        }
        lemma_filter_without_one(rest, first, second, at);
    }
}

} // verus!
