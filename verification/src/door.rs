//! Doors, through which the player leaves a level.

use crate::collision::both_ways;
use crate::collision::collision_started_events_both_ways;
use crate::collision::CollisionEvent;
use crate::collision::Entity;
use crate::impact::contains_entity;
use vstd::prelude::*;

verus! {

/// Some contact of the tick brings a player against a door.
pub open spec fn enters_door(
    pairs: Seq<(Entity, Entity)>,
    players: Seq<Entity>,
    doors: Seq<Entity>,
) -> bool {
    exists|k: int|
        0 <= k < pairs.len() && players.contains((#[trigger] pairs[k]).0) && doors.contains(
            pairs[k].1,
        )
}

/// Tells whether a player has walked into a door in this tick, which
/// completes the level.
pub fn player_enter_door(events: &Vec<CollisionEvent>, players: &Vec<Entity>, doors: &Vec<Entity>) -> (entered:
    bool)
    ensures
        entered == enters_door(both_ways(events@), players@, doors@),
{
    let pairs = collision_started_events_both_ways(events);
    let mut k: usize = 0;
    while k < pairs.len()
        invariant
            k <= pairs.len(),
            pairs@ == both_ways(events@),
            forall|j: int|
                0 <= j < k ==> !(players@.contains((#[trigger] pairs[j]).0) && doors@.contains(
                    pairs[j].1,
                )),
        decreases pairs.len() - k,
    {
        if contains_entity(players, pairs[k].0) && contains_entity(doors, pairs[k].1) {
            return true;
        }
        k += 1;
    }
    false
}

} // verus!
