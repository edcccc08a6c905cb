//! Contacts between bodies, as the physics step reports them.

use vstd::prelude::*;

verus! {

/// Identifier of a body in the simulated world.
pub type Entity = u64;

/// A contact report from the physics step: two bodies began or ceased to touch.
#[derive(Clone, Copy, Debug, PartialEq, Eq)]
pub enum CollisionEvent {
    Started(Entity, Entity),
    Stopped(Entity, Entity),
}

/// The ordered pairs that one contact report contributes: both orders of a
/// contact that began, nothing for one that ceased.
pub open spec fn pairs_of(event: CollisionEvent) -> Seq<(Entity, Entity)> {
    match event {
        CollisionEvent::Started(a, b) => seq![(a, b), (b, a)],
        CollisionEvent::Stopped(_, _) => Seq::empty(),
    }
}

/// The ordered pairs of a whole list of reports, in report order.
pub open spec fn both_ways(events: Seq<CollisionEvent>) -> Seq<(Entity, Entity)>
    decreases events.len(),
{
    if events.len() == 0 {
        Seq::empty()
    } else {
        both_ways(events.drop_last()) + pairs_of(events.last())
    }
}

/// Turns the contact reports of one tick into ordered pairs, so that a
/// consumer may look for its own kind of body on the left side only.
pub fn collision_started_events_both_ways(events: &Vec<CollisionEvent>) -> (pairs: Vec<
    (Entity, Entity),
>)
    ensures
        pairs@ == both_ways(events@),
{
    let mut pairs: Vec<(Entity, Entity)> = Vec::new();
    let mut i: usize = 0;
    while i < events.len()
        invariant
            i <= events.len(),
            pairs@ == both_ways(events@.take(i as int)),
        decreases events.len() - i,
    {
        proof {
            assert(events@.take(i + 1).drop_last() == events@.take(i as int));
        }
        match events[i] {
            CollisionEvent::Started(a, b) => {
                pairs.push((a, b));
                pairs.push((b, a));
                assert(pairs@ == both_ways(events@.take(i as int)) + seq![(a, b), (b, a)]);
            },
            CollisionEvent::Stopped(_, _) => {
                assert(pairs@ == both_ways(events@.take(i as int)) + Seq::<(Entity, Entity)>::empty());
            },
        }
        i += 1;
    }
    proof {
        assert(events@.take(events.len() as int) == events@);
    }
    pairs
}

/// The two bodies that a contact report names.
pub open spec fn bodies(event: CollisionEvent) -> (Entity, Entity) {
    match event {
        CollisionEvent::Started(a, b) => (a, b),
        CollisionEvent::Stopped(a, b) => (a, b),
    }
}

/// Every report of the list says that a contact began.
pub open spec fn all_started(events: Seq<CollisionEvent>) -> bool {
    forall|i: int| 0 <= i < events.len() ==> (#[trigger] events[i]) is Started
}

/// A list of contacts that began yields twice as many pairs: for the report
/// at place `i`, its bodies at place `2 * i` and the same two swapped at
/// place `2 * i + 1`.
pub proof fn lemma_started_events_double(events: Seq<CollisionEvent>)
    requires
        all_started(events),
    ensures
        both_ways(events).len() == 2 * events.len(),
        forall|i: int|
            0 <= i < events.len() ==> both_ways(events)[2 * i] == bodies(#[trigger] events[i])
                && both_ways(events)[2 * i + 1] == (bodies(events[i]).1, bodies(events[i]).0),
    decreases events.len(),
{
    if events.len() > 0 {
        let rest = events.drop_last();
        assert forall|i: int| 0 <= i < rest.len() implies (#[trigger] rest[i]) is Started by {
            assert(rest[i] == events[i]);
        }
        lemma_started_events_double(rest);
        assert(events.last() == events[events.len() - 1]);
        assert forall|i: int| 0 <= i < events.len() implies both_ways(events)[2 * i] == bodies(
            #[trigger] events[i],
        ) && both_ways(events)[2 * i + 1] == (bodies(events[i]).1, bodies(events[i]).0) by {
            if i < rest.len() {
                assert(rest[i] == events[i]);
            }
        }
    }
}

/// Whatever else the list holds, a contact that began shows in the pairs in
/// both orders, and a pair shows only for such a contact.
pub proof fn lemma_pair_appears_both_ways(events: Seq<CollisionEvent>, a: Entity, b: Entity)
    ensures
        both_ways(events).contains((a, b)) <==> events.contains(CollisionEvent::Started(a, b))
            || events.contains(CollisionEvent::Started(b, a)),
    decreases events.len(),
{
    let target = (a, b);
    let direct = CollisionEvent::Started(a, b);
    let swapped = CollisionEvent::Started(b, a);
    if events.len() > 0 {
        let rest = events.drop_last();
        let last = events.last();
        lemma_pair_appears_both_ways(rest, a, b);
        let head = both_ways(rest);
        let tail = pairs_of(last);
        let all = both_ways(events);
        assert(all == head + tail);
        if all.contains(target) {
            let at = choose|at: int| 0 <= at < all.len() && all[at] == target;
            if at < head.len() {
                assert(head[at] == target);
                if rest.contains(direct) {
                    let i = choose|i: int| 0 <= i < rest.len() && rest[i] == direct;
                    assert(events[i] == direct);
                } else {
                    let i = choose|i: int| 0 <= i < rest.len() && rest[i] == swapped;
                    assert(events[i] == swapped);
                }
            } else {
                assert(tail[at - head.len()] == target);
                assert(events[events.len() - 1] == last);
            }
        }
        if events.contains(direct) || events.contains(swapped) {
            let found = if events.contains(direct) {
                direct
            } else {
                swapped
            };
            let i = choose|i: int| 0 <= i < events.len() && events[i] == found;
            if i < rest.len() {
                assert(rest[i] == found);
                let at = choose|at: int| 0 <= at < head.len() && head[at] == target;
                assert(all[at] == target);
            } else {
                assert(last == found);
                if found == direct {
                    assert(all[head.len() as int] == tail[0]);
                } else {
                    assert(all[head.len() as int + 1] == tail[1]);
                }
            }
        }
    }
}

} // verus!
