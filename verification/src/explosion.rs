//! Explosions: their short life and the push they give to nearby bodies.

use crate::collision::Entity;
use crate::fixed::div_trunc;
use crate::fixed::floor_sqrt;
use crate::fixed::floor_sqrt_of;
use crate::fixed::lemma_square_monotone;
use crate::fixed::lemma_trunc_div_bounds;
use crate::fixed::trunc_div;
use crate::fixed::Vec2;
use crate::fixed::UNIT;
use crate::timer::is_repeating;
use crate::timer::is_tickable;
use crate::timer::lemma_ticked_tickable;
use crate::timer::tickable;
use crate::timer::ticked;
use crate::timer::timer_duration;
use crate::timer::timer_elapsed;
use crate::timer::timer_finished;
use crate::timer::timer_new;
use crate::timer::timer_state;
use crate::timer::timer_tick;
use crate::timer::TimerState;
use bevy::time::Timer;
use bevy::time::TimerMode;
use vstd::prelude::*;

verus! {

/// How long an explosion lasts: three tenths of a second, in nanoseconds.
pub const EXPLOSION_LIFETIME: u64 = 300_000_000;

/// Radius of the volume in which an explosion pushes: one unit.
pub const EXPLOSION_RADIUS: i64 = 1_000_000;

/// The size that an explosion's ball grows toward: six units. It grows as the
/// eighth root of the part of its life that is over, fast at first.
pub const EXPLOSION_PEAK_SCALE: i64 = 6_000_000;

/// Strength of the push: 1000 units per second squared at a distance of one
/// unit, falling off as the inverse of the distance.
pub const EXPLOSION_FORCE: i64 = 1_000_000_000;

/// The distance under which the push stops growing: a tenth of a unit.
pub const EXPLOSION_NEAR_FIELD: i64 = 100_000;

/// The strongest push, reached at [`EXPLOSION_NEAR_FIELD`] and nearer: 10000
/// units per second squared.
pub const EXPLOSION_FORCE_MAX: i64 = 10_000_000_000;

/// A request to set off an explosion.
#[derive(Clone, Copy, Debug, PartialEq, Eq, Structural)]
pub struct StartExplosion {
    /// The level that the explosion will belong to.
    pub level: Entity,
    /// Where it goes off.
    pub position: Vec2,
}

/// An explosion that is going on.
#[derive(Debug)]
pub struct Explosion {
    pub entity: Entity,
    /// The level that the explosion belongs to.
    pub level: Entity,
    pub position: Vec2,
    /// Radius of the volume in which bodies are pushed.
    pub radius: i64,
    /// The size at which the ball is drawn.
    pub scale: i64,
    /// Counts the explosion's age up to its lifetime.
    pub timer: Timer,
}

impl Explosion {
    /// Nanoseconds since the explosion went off.
    pub open spec fn age(self) -> nat {
        timer_state(self.timer).elapsed
    }

    /// Nanoseconds that the explosion lasts.
    pub open spec fn lifetime(self) -> nat {
        timer_state(self.timer).duration
    }

    /// The explosion is going on: its one-shot timer runs and has not reached
    /// its positive duration.
    pub open spec fn wf(self) -> bool {
        &&& tickable(timer_state(self.timer))
        &&& !timer_state(self.timer).repeating
        &&& !timer_state(self.timer).finished
        &&& self.age() < self.lifetime()
        &&& self.position.in_range()
    }

    /// Whether the explosion is still going on after `delta` more
    /// nanoseconds: its age then stays under its lifetime.
    pub open spec fn outlasts(self, delta: nat) -> bool {
        self.age() + delta < self.lifetime()
    }

    /// Tells whether the explosion is going on.
    pub fn is_going_on(&self) -> (going: bool)
        ensures
            going == self.wf(),
    {
        is_tickable(&self.timer) && !is_repeating(&self.timer) && !timer_finished(&self.timer)
            && timer_elapsed(&self.timer) < timer_duration(&self.timer)
            && self.position.is_in_range()
    }

    /// Nanoseconds since the explosion went off.
    pub fn elapsed(&self) -> (nanos: u128)
        ensures
            nanos == self.age(),
    {
        timer_elapsed(&self.timer)
    }

    /// Nanoseconds that the explosion lasts.
    pub fn duration(&self) -> (nanos: u128)
        ensures
            nanos == self.lifetime(),
    {
        timer_duration(&self.timer)
    }

    /// Ages the explosion by the tick's duration and tells whether that ends
    /// it. If not, its ball is set to the size of its new age. One that has
    /// ended is to be destroyed in this very tick.
    pub fn tick(&mut self, delta_nanos: u64) -> (ended: bool)
        requires
            old(self).wf(),
        ensures
            ended == !old(self).outlasts(delta_nanos as nat),
            !ended ==> is_aged(*old(self), *final(self), delta_nanos as nat),
            final(self).entity == old(self).entity,
            final(self).level == old(self).level,
            final(self).position == old(self).position,
            timer_state(final(self).timer) == ticked(
                timer_state(old(self).timer),
                delta_nanos as nat,
            ),
    {
        proof {
            lemma_ticked_tickable(timer_state(self.timer), delta_nanos as nat);
        }
        timer_tick(&mut self.timer, delta_nanos);
        if timer_finished(&self.timer) {
            true
        } else {
            let age = timer_elapsed(&self.timer);
            let lifetime = timer_duration(&self.timer);
            self.scale = explosion_scale(age, lifetime);
            false
        }
    }
}

/// An explosion is just what `request` asks for, begun under the identifier
/// `entity`: at the requested place, of no age and no size yet.
pub open spec fn is_started(explosion: Explosion, entity: Entity, request: StartExplosion) -> bool {
    &&& explosion.entity == entity
    &&& explosion.level == request.level
    &&& explosion.position == request.position
    &&& explosion.radius == EXPLOSION_RADIUS
    &&& explosion.scale == 0
    &&& timer_state(explosion.timer) == (TimerState {
        elapsed: 0,
        duration: EXPLOSION_LIFETIME as nat,
        repeating: false,
        paused: false,
        finished: false,
        times_finished: 0,
    })
}

/// Sets off the explosion for one request, under the identifier that the
/// world allotted to it.
pub fn start_explosion(entity: Entity, request: &StartExplosion) -> (explosion: Explosion)
    requires
        request.position.in_range(),
    ensures
        is_started(explosion, entity, *request),
        explosion.wf(),
{
    Explosion {
        entity,
        level: request.level,
        position: request.position,
        radius: EXPLOSION_RADIUS,
        scale: 0,
        timer: timer_new(EXPLOSION_LIFETIME, TimerMode::Once),
    }
}

/// Sets off the explosions for a tick's requests, in request order, each under
/// the identifier at the same place in `entities`.
pub fn start_explosions(entities: &Vec<Entity>, requests: &Vec<StartExplosion>) -> (explosions:
    Vec<Explosion>)
    requires
        entities.len() == requests.len(),
        forall|i: int| 0 <= i < requests.len() ==> (#[trigger] requests[i]).position.in_range(),
    ensures
        explosions.len() == requests.len(),
        forall|i: int|
            0 <= i < requests.len() ==> is_started(
                #[trigger] explosions[i],
                entities[i],
                requests[i],
            ) && explosions[i].wf(),
{
    let mut explosions: Vec<Explosion> = Vec::new();
    let mut i: usize = 0;
    while i < requests.len()
        invariant
            i <= requests.len(),
            entities.len() == requests.len(),
            forall|k: int| 0 <= k < requests.len() ==> (#[trigger] requests[k]).position.in_range(),
            explosions.len() == i,
            forall|k: int|
                0 <= k < i ==> is_started(#[trigger] explosions[k], entities[k], requests[k])
                    && explosions[k].wf(),
        decreases requests.len() - i,
    {
        let explosion = start_explosion(entities[i], &requests[i]);
        explosions.push(explosion);
        i += 1;
    }
    explosions
}

/// The square root of a fixed-point number, as a fixed-point number.
pub open spec fn fixed_sqrt(x: int) -> int {
    floor_sqrt(x * UNIT)
}

/// The size of an explosion's ball at a given age: the peak size times the
/// eighth root of the part of the lifetime that is over.
pub open spec fn scale_at(age: int, lifetime: int) -> int {
    let progress = age * UNIT / lifetime;
    trunc_div(EXPLOSION_PEAK_SCALE * fixed_sqrt(fixed_sqrt(fixed_sqrt(progress))), UNIT as int)
}

/// Takes the square root of a fixed-point number between 0 and 1.
fn fixed_sqrt_of(x: i128) -> (root: i128)
    requires
        0 <= x <= UNIT,
    ensures
        root == fixed_sqrt(x as int),
        0 <= root <= UNIT,
{
    assert(0 <= x * UNIT <= UNIT * UNIT) by (nonlinear_arith)
        requires
            0 <= x <= UNIT,
    ;
    let root: i128 = floor_sqrt_of(x * UNIT as i128);
    proof {
        if root > UNIT {
            lemma_square_monotone(UNIT + 1, root as int);
        }
    }
    root
}

/// Computes the size of an explosion's ball at a given age.
pub fn explosion_scale(age: u128, lifetime: u128) -> (scale: i64)
    requires
        age <= lifetime,
        0 < lifetime <= u64::MAX,
    ensures
        scale == scale_at(age as int, lifetime as int),
        0 <= scale <= EXPLOSION_PEAK_SCALE,
{
    let unit: u128 = UNIT as u128;
    assert(age * unit <= lifetime * unit <= u64::MAX * unit) by (nonlinear_arith)
        requires
            age <= lifetime <= u64::MAX,
            unit == 1_000_000,
    ;
    let progress: u128 = age * unit / lifetime;
    assert(progress <= unit) by (nonlinear_arith)
        requires
            progress == (age * unit) / (lifetime as int),
            age * unit <= lifetime * unit,
            lifetime > 0,
    ;
    let root: i128 = fixed_sqrt_of(fixed_sqrt_of(fixed_sqrt_of(progress as i128)));
    assert(0 <= EXPLOSION_PEAK_SCALE * root <= EXPLOSION_PEAK_SCALE * UNIT) by (nonlinear_arith)
        requires
            0 <= root <= UNIT,
            EXPLOSION_PEAK_SCALE == 6_000_000,
    ;
    proof {
        lemma_trunc_div_bounds(EXPLOSION_PEAK_SCALE * root, UNIT as int);
    }
    let scale: i128 = div_trunc(EXPLOSION_PEAK_SCALE as i128 * root, UNIT as i128);
    scale as i64
}

/// `after` is `before` grown older by `delta` nanoseconds and still going on:
/// the same explosion at the same place, with its timer advanced and its ball
/// at the size of its new age.
pub open spec fn is_aged(before: Explosion, after: Explosion, delta: nat) -> bool {
    &&& after.entity == before.entity
    &&& after.level == before.level
    &&& after.position == before.position
    &&& after.radius == before.radius
    &&& timer_state(after.timer) == ticked(timer_state(before.timer), delta)
    &&& after.age() == before.age() + delta
    &&& after.lifetime() == before.lifetime()
    &&& after.scale == scale_at(after.age() as int, after.lifetime() as int)
    &&& after.wf()
}

/// The test that an explosion passes when it is still going on after `delta`
/// more nanoseconds.
pub open spec fn lasting(delta: nat) -> spec_fn(Explosion) -> bool {
    |explosion: Explosion| explosion.outlasts(delta)
}

/// The test that an explosion passes when `delta` more nanoseconds end it.
pub open spec fn ending(delta: nat) -> spec_fn(Explosion) -> bool {
    |explosion: Explosion| !explosion.outlasts(delta)
}

/// The identifier of an explosion.
pub open spec fn entity_of() -> spec_fn(Explosion) -> Entity {
    |explosion: Explosion| explosion.entity
}

/// Ages every explosion by the tick's duration.
///
/// An explosion whose age reaches its lifetime leaves `explosions` in this
/// very tick, and its identifier is handed back for the world to destroy it.
/// The others stay in their order, older and larger.
pub fn progress_explosion_lifetime(delta_nanos: u64, explosions: &mut Vec<Explosion>) -> (expired:
    Vec<Entity>)
    requires
        forall|i: int| 0 <= i < old(explosions).len() ==> (#[trigger] old(explosions)[i]).wf(),
    ensures
        expired@ == old(explosions)@.filter(ending(delta_nanos as nat)).map_values(entity_of()),
        final(explosions).len() == old(explosions)@.filter(lasting(delta_nanos as nat)).len(),
        forall|j: int|
            0 <= j < final(explosions).len() ==> is_aged(
                old(explosions)@.filter(lasting(delta_nanos as nat))[j],
                #[trigger] final(explosions)[j],
                delta_nanos as nat,
            ),
        expired.len() + final(explosions).len() == old(explosions).len(),
{
    let ghost before = explosions@;
    let ghost delta = delta_nanos as nat;
    let ghost stay = lasting(delta);
    let ghost go = ending(delta);
    let mut expired: Vec<Entity> = Vec::new();
    let mut i: usize = 0;
    let ghost mut n: int = 0;
    proof {
        assert(before.take(0) == Seq::<Explosion>::empty());
        before.take(0).lemma_all_neg_filter_empty(stay);
        before.take(0).lemma_all_neg_filter_empty(go);
        assert(explosions@.skip(0) == before.skip(0));
        assert(before.take(0).filter(go).map_values(entity_of()) == Seq::<Entity>::empty());
    }
    while i < explosions.len()
        invariant
            before == old(explosions)@,
            delta == delta_nanos as nat,
            stay == lasting(delta),
            go == ending(delta),
            0 <= i <= explosions.len(),
            0 <= n <= before.len(),
            n == i + expired.len(),
            explosions.len() - i == before.len() - n,
            explosions@.skip(i as int) == before.skip(n),
            forall|j: int| 0 <= j < before.len() ==> (#[trigger] before[j]).wf(),
            i == before.take(n).filter(stay).len(),
            forall|j: int|
                0 <= j < i ==> is_aged(
                    before.take(n).filter(stay)[j],
                    #[trigger] explosions[j],
                    delta,
                ),
            expired@ == before.take(n).filter(go).map_values(entity_of()),
        decreases explosions.len() - i,
    {
        let ghost current = explosions@;
        let ghost subject = before[n];
        proof {
            assert(current[i as int] == current.skip(i as int)[0]);
            assert(subject == before.skip(n)[0]);
            assert(subject.wf());
            before.lemma_take_succ_push(n);
            before.take(n).lemma_filter_push(subject, stay);
            before.take(n).lemma_filter_push(subject, go);
        }
        if explosions[i].tick(delta_nanos) {
            let gone = explosions.remove(i);
            expired.push(gone.entity);
            proof {
                assert(go(subject));
                assert(!stay(subject));
                assert(explosions@.skip(i as int) =~= before.skip(n + 1)) by {
                    assert forall|j: int| 0 <= j < before.len() - n - 1 implies explosions@.skip(
                        i as int,
                    )[j] == #[trigger] before.skip(n + 1)[j] by {
                        assert(current.skip(i as int)[j + 1] == before.skip(n)[j + 1]);
                    }
                }
                assert(expired@ =~= before.take(n + 1).filter(go).map_values(entity_of()));
                n = n + 1;
            }
        } else {
            proof {
                assert(stay(subject));
                assert(!go(subject));
                assert(is_aged(subject, explosions[i as int], delta));
                assert(explosions@.skip(i + 1) =~= before.skip(n + 1)) by {
                    assert forall|j: int| 0 <= j < before.len() - n - 1 implies explosions@.skip(
                        i + 1,
                    )[j] == #[trigger] before.skip(n + 1)[j] by {
                        assert(current.skip(i as int)[j + 1] == before.skip(n)[j + 1]);
                    }
                }
                n = n + 1;
            }
            i += 1;
        }
    }
    proof {
        assert(before.take(n) == before);
        lemma_stay_or_go(before, delta);
    }
    expired
}

/// Every explosion either outlasts the tick or ends in it.
proof fn lemma_stay_or_go(explosions: Seq<Explosion>, delta: nat)
    ensures
        explosions.filter(lasting(delta)).len() + explosions.filter(ending(delta)).len()
            == explosions.len(),
    decreases explosions.len(),
{
    reveal(Seq::filter);
    if explosions.len() > 0 {
        lemma_stay_or_go(explosions.drop_last(), delta);
    }
}

} // verus!
