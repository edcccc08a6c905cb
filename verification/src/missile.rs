//! Guided missiles: launch and homing guidance.
//!
//! Guidance goes by a missile's bearing: the signed angle from its forward
//! axis to the vector from its nearest target to itself, negated. The bearing
//! is positive where the missile has to turn counterclockwise to face the
//! target, comes to half a turn as the missile lines up with the target, and
//! is zero where the missile points straight away from it. The angle is the
//! caller's to measure; it is counted in millionths of a radian.

use crate::collision::Entity;
use crate::fixed::abs;
use crate::fixed::clamp;
use crate::fixed::clamp_to;
use crate::fixed::div_trunc;
use crate::fixed::lemma_product_bound;
use crate::fixed::lemma_trunc_div_bounds;
use crate::fixed::magnitude;
use crate::fixed::trunc_div;
use crate::fixed::Vec2;
use crate::fixed::COORD_MAX;
use crate::fixed::HALF_TURN;
use crate::fixed::NANOS_PER_SECOND;
use crate::fixed::UNIT;
use vstd::prelude::*;

verus! {

/// Cruise speed of a launched missile: 30 units per second.
pub const MISSILE_SPEED: i64 = 30_000_000;

/// Thrust of a launched missile: 400 units per second squared.
pub const MISSILE_ACCELERATION: i64 = 400_000_000;

/// Turn rate limit of a launched missile: 20 radians per second.
pub const MISSILE_ANGULAR_SPEED: i64 = 20_000_000;

/// Turn acceleration of a launched missile: 400 radians per second squared.
pub const MISSILE_ANGULAR_ACCELERATION: i64 = 400_000_000;

/// A missile thrusts only while the magnitude of its bearing is more than
/// this many fifths of a half turn: it coasts through its turns and picks up
/// speed when it is nearly lined up with its target.
pub const THRUST_GATE_FIFTHS: i64 = 4;

/// Flight limits of a missile, fixed at launch.
#[derive(Clone, Copy, Debug, PartialEq, Eq, Structural)]
pub struct MissileConfig {
    /// Forward speed that thrust drives toward.
    pub speed: i64,
    /// Forward acceleration available to reach it.
    pub acceleration: i64,
    /// Largest magnitude of the angular velocity that guidance asks for.
    pub angular_speed: i64,
    /// Largest change of angular velocity per second.
    pub angular_acceleration: i64,
}

impl MissileConfig {
    /// Every limit is positive and at most [`COORD_MAX`].
    pub open spec fn wf(self) -> bool {
        &&& 0 < self.speed <= COORD_MAX
        &&& 0 < self.acceleration <= COORD_MAX
        &&& 0 < self.angular_speed <= COORD_MAX
        &&& 0 < self.angular_acceleration <= COORD_MAX
    }

    /// Tells whether every limit is positive and at most [`COORD_MAX`].
    pub fn is_valid(&self) -> (valid: bool)
        ensures
            valid == self.wf(),
    {
        0 < self.speed && self.speed <= COORD_MAX && 0 < self.acceleration && self.acceleration
            <= COORD_MAX && 0 < self.angular_speed && self.angular_speed <= COORD_MAX && 0
            < self.angular_acceleration && self.angular_acceleration <= COORD_MAX
    }

    /// The limits that every launched missile gets.
    pub open spec fn standard_spec() -> MissileConfig {
        MissileConfig {
            speed: MISSILE_SPEED,
            acceleration: MISSILE_ACCELERATION,
            angular_speed: MISSILE_ANGULAR_SPEED,
            angular_acceleration: MISSILE_ANGULAR_ACCELERATION,
        }
    }

    /// The limits that every launched missile gets.
    pub fn standard() -> (config: MissileConfig)
        ensures
            config == Self::standard_spec(),
            config.wf(),
    {
        MissileConfig {
            speed: MISSILE_SPEED,
            acceleration: MISSILE_ACCELERATION,
            angular_speed: MISSILE_ANGULAR_SPEED,
            angular_acceleration: MISSILE_ANGULAR_ACCELERATION,
        }
    }

    /// The limits with the given values, if each is positive and within range.
    pub fn new(speed: i64, acceleration: i64, angular_speed: i64, angular_acceleration: i64) -> (config:
        Option<MissileConfig>)
        ensures
            config == if (MissileConfig {
                speed,
                acceleration,
                angular_speed,
                angular_acceleration,
            }).wf() {
                Some(MissileConfig { speed, acceleration, angular_speed, angular_acceleration })
            } else {
                None
            },
    {
        let config = MissileConfig { speed, acceleration, angular_speed, angular_acceleration };
        if config.is_valid() {
            Some(config)
        } else {
            None
        }
    }
}

/// Linear and angular velocity of a body.
#[derive(Clone, Copy, Debug, PartialEq, Eq, Structural)]
pub struct Velocity {
    pub linvel: Vec2,
    pub angvel: i64,
}

/// A request to launch a missile.
#[derive(Clone, Copy, Debug, PartialEq, Eq, Structural)]
pub struct LaunchMissile {
    /// The level that the missile will belong to.
    pub level: Entity,
    /// Where the missile appears.
    pub position: Vec2,
    /// Where it points and flies.
    pub direction: Vec2,
}

/// A missile in flight.
#[derive(Clone, Copy, Debug, PartialEq, Eq, Structural)]
pub struct Missile {
    pub entity: Entity,
    /// The level that the missile belongs to.
    pub level: Entity,
    pub position: Vec2,
    /// The missile's forward axis: of unit length when it is taken from the
    /// missile's rotation.
    pub forward: Vec2,
    pub velocity: Velocity,
    pub config: MissileConfig,
}

impl Missile {
    /// The vectors are within range and the limits are well formed.
    pub open spec fn wf(self) -> bool {
        &&& self.position.in_range()
        &&& self.forward.in_range()
        &&& self.velocity.linvel.in_range()
        &&& self.config.wf()
    }

    /// Tells whether the vectors are within range and the limits are well
    /// formed.
    pub fn is_valid(&self) -> (valid: bool)
        ensures
            valid == self.wf(),
    {
        self.position.is_in_range() && self.forward.is_in_range()
            && self.velocity.linvel.is_in_range() && self.config.is_valid()
    }
}

/// The velocity of a missile launched along `direction`: `speed` along each
/// unit of it.
pub open spec fn launch_velocity(direction: Vec2, speed: int) -> Vec2 {
    (Vec2 { x: 0, y: 0 }).moved_by(
        trunc_div(direction.x * speed, UNIT as int),
        trunc_div(direction.y * speed, UNIT as int),
    )
}

/// The missile that a launch request gives rise to: at the requested place,
/// already flying at cruise speed along the requested direction, not turning.
/// A request without a direction points the missile along the first axis.
pub open spec fn launched(entity: Entity, request: LaunchMissile) -> Missile {
    Missile {
        entity,
        level: request.level,
        position: request.position,
        forward: if request.direction == (Vec2 { x: 0, y: 0 }) {
            Vec2 { x: UNIT, y: 0 }
        } else {
            request.direction
        },
        velocity: Velocity {
            linvel: launch_velocity(request.direction, MISSILE_SPEED as int),
            angvel: 0,
        },
        config: MissileConfig::standard_spec(),
    }
}

/// Builds the missile for one launch request, under the identifier that the
/// world allotted to it.
pub fn launch_missile(entity: Entity, request: &LaunchMissile) -> (missile: Missile)
    requires
        request.position.in_range(),
        request.direction.in_range(),
    ensures
        missile == launched(entity, *request),
        missile.wf(),
{
    let speed: i128 = MISSILE_SPEED as i128;
    let x: i128 = request.direction.x as i128;
    let y: i128 = request.direction.y as i128;
    proof {
        lemma_product_bound(x as int, speed as int, COORD_MAX as int, COORD_MAX as int);
        lemma_product_bound(y as int, speed as int, COORD_MAX as int, COORD_MAX as int);
        lemma_trunc_div_bounds(x * speed, UNIT as int);
        lemma_trunc_div_bounds(y * speed, UNIT as int);
    }
    let dx: i128 = div_trunc(x * speed, UNIT as i128);
    let dy: i128 = div_trunc(y * speed, UNIT as i128);
    let forward = if request.direction.is_zero() {
        Vec2::unit_x()
    } else {
        request.direction
    };
    Missile {
        entity,
        level: request.level,
        position: request.position,
        forward,
        velocity: Velocity { linvel: Vec2::zero().saturating_move(dx, dy), angvel: 0 },
        config: MissileConfig::standard(),
    }
}

/// The missiles for a tick's launch requests, in request order, each under the
/// identifier at the same place in `entities`.
pub open spec fn launched_all(entities: Seq<Entity>, requests: Seq<LaunchMissile>) -> Seq<
    Missile,
> {
    Seq::new(requests.len(), |i: int| launched(entities[i], requests[i]))
}

/// Builds the missiles for a tick's launch requests.
pub fn launch_missiles(entities: &Vec<Entity>, requests: &Vec<LaunchMissile>) -> (missiles: Vec<
    Missile,
>)
    requires
        entities.len() == requests.len(),
        forall|i: int|
            0 <= i < requests.len() ==> (#[trigger] requests[i]).position.in_range()
                && requests[i].direction.in_range(),
    ensures
        missiles@ == launched_all(entities@, requests@),
        forall|i: int| 0 <= i < missiles.len() ==> (#[trigger] missiles[i]).wf(),
{
    let mut missiles: Vec<Missile> = Vec::new();
    let mut i: usize = 0;
    while i < requests.len()
        invariant
            i <= requests.len(),
            entities.len() == requests.len(),
            forall|k: int|
                0 <= k < requests.len() ==> (#[trigger] requests[k]).position.in_range()
                    && requests[k].direction.in_range(),
            missiles.len() == i,
            forall|k: int|
                0 <= k < i ==> #[trigger] missiles[k] == launched(entities[k], requests[k]),
            forall|k: int| 0 <= k < i ==> (#[trigger] missiles[k]).wf(),
        decreases requests.len() - i,
    {
        let missile = launch_missile(entities[i], &requests[i]);
        missiles.push(missile);
        i += 1;
    }
    assert(missiles@ =~= launched_all(entities@, requests@));
    missiles
}

/// `i` is the place of the candidate nearest to `position`; among equally
/// near candidates, of the first.
pub open spec fn is_closest(position: Vec2, candidates: Seq<Vec2>, i: int) -> bool {
    &&& 0 <= i < candidates.len()
    &&& forall|j: int|
        0 <= j < candidates.len() ==> position.distance_squared(candidates[i])
            <= position.distance_squared(#[trigger] candidates[j])
    &&& forall|j: int|
        0 <= j < i ==> position.distance_squared(candidates[i]) < position.distance_squared(
            #[trigger] candidates[j],
        )
}

/// Finds the candidate nearest to `position`.
pub fn closest_candidate(position: &Vec2, candidates: &Vec<Vec2>) -> (found: Option<usize>)
    requires
        position.in_range(),
        forall|j: int| 0 <= j < candidates.len() ==> (#[trigger] candidates[j]).in_range(),
    ensures
        found is None <==> candidates.len() == 0,
        found matches Some(i) ==> is_closest(*position, candidates@, i as int),
{
    if candidates.len() == 0 {
        return None;
    }
    let mut best: usize = 0;
    let mut best_distance: i128 = position.distance_squared_to(&candidates[0]);
    let mut j: usize = 1;
    while j < candidates.len()
        invariant
            1 <= j <= candidates.len(),
            position.in_range(),
            forall|k: int| 0 <= k < candidates.len() ==> (#[trigger] candidates[k]).in_range(),
            is_closest(*position, candidates@.take(j as int), best as int),
            best_distance == position.distance_squared(candidates[best as int]),
        decreases candidates.len() - j,
    {
        let distance: i128 = position.distance_squared_to(&candidates[j]);
        let ghost before = candidates@.take(j as int);
        let ghost after = candidates@.take(j + 1);
        if distance < best_distance {
            best = j;
            best_distance = distance;
        }
        proof {
            assert forall|k: int| 0 <= k < after.len() implies position.distance_squared(
                after[best as int],
            ) <= position.distance_squared(#[trigger] after[k]) by {
                if k < j {
                    assert(after[k] == before[k]);
                }
            }
            assert forall|k: int| 0 <= k < best implies position.distance_squared(
                after[best as int],
            ) < position.distance_squared(#[trigger] after[k]) by {
                assert(after[k] == before[k]);
            }
        }
        j += 1;
    }
    proof {
        assert(candidates@.take(candidates.len() as int) == candidates@);
    }
    Some(best)
}

/// The vector from the nearest candidate to `position`: none without
/// candidates, and none when the nearest is at `position` itself.
pub open spec fn is_vector_to_target(
    position: Vec2,
    candidates: Seq<Vec2>,
    vector: Option<Vec2>,
) -> bool {
    match vector {
        None => candidates.len() == 0 || exists|i: int|
            is_closest(position, candidates, i) && #[trigger] candidates[i] == position,
        Some(v) => exists|i: int|
            is_closest(position, candidates, i) && (#[trigger] candidates[i]) != position && v.x
                == position.x - candidates[i].x && v.y == position.y - candidates[i].y,
    }
}

/// Picks the nearest target and gives the vector from it to the missile at
/// `position`, from which the caller measures the missile's bearing.
pub fn vector_to_target(position: &Vec2, candidates: &Vec<Vec2>) -> (vector: Option<Vec2>)
    requires
        position.in_range(),
        forall|j: int| 0 <= j < candidates.len() ==> (#[trigger] candidates[j]).in_range(),
    ensures
        is_vector_to_target(*position, candidates@, vector),
{
    match closest_candidate(position, candidates) {
        None => None,
        Some(i) => {
            let vector = position.minus(&candidates[i]);
            if vector.is_zero() {
                None
            } else {
                Some(vector)
            }
        },
    }
}

/// The angular velocity that would take up the whole bearing within the
/// tick, held within the missile's turn rate limit.
pub open spec fn desired_angvel(config: MissileConfig, angle_diff: int, delta_nanos: int) -> int {
    clamp(
        trunc_div(angle_diff * NANOS_PER_SECOND, delta_nanos),
        -config.angular_speed as int,
        config.angular_speed as int,
    )
}

/// The largest change of angular velocity in one tick.
pub open spec fn max_angular_impulse(config: MissileConfig, delta_nanos: int) -> int {
    trunc_div(config.angular_acceleration * delta_nanos, NANOS_PER_SECOND as int)
}

/// The angular velocity after one tick of steering: moved toward the desired
/// one by no more than the tick's largest change.
pub open spec fn steered(config: MissileConfig, angvel: int, angle_diff: int, delta_nanos: int) -> int {
    angvel + clamp(
        desired_angvel(config, angle_diff, delta_nanos) - angvel,
        -max_angular_impulse(config, delta_nanos),
        max_angular_impulse(config, delta_nanos),
    )
}

/// The speed along the forward axis.
pub open spec fn forward_speed(linvel: Vec2, forward: Vec2) -> int {
    trunc_div(linvel.dot(forward), UNIT as int)
}

/// Whether the missile thrusts at this bearing: when its magnitude is more
/// than [`THRUST_GATE_FIFTHS`] fifths of a half turn.
pub open spec fn thrust_gate_open(angle_diff: int) -> bool {
    abs(angle_diff) * 5 > HALF_TURN * THRUST_GATE_FIFTHS
}

/// The speed added along the forward axis in one tick: nothing at cruise
/// speed or at a bearing at which the missile does not thrust; otherwise the
/// tick's thrust, scaled by the fraction of a half turn that the bearing comes
/// to, and no more than is missing to cruise speed.
pub open spec fn boost(
    config: MissileConfig,
    linvel: Vec2,
    forward: Vec2,
    angle_diff: int,
    delta_nanos: int,
) -> int {
    let missing = config.speed - forward_speed(linvel, forward);
    let available = trunc_div(
        abs(angle_diff) * config.acceleration * delta_nanos,
        HALF_TURN * NANOS_PER_SECOND,
    );
    if 0 < missing && thrust_gate_open(angle_diff) {
        if missing < available {
            missing
        } else {
            available
        }
    } else {
        0
    }
}

/// The linear velocity after one tick of thrust.
pub open spec fn thrusted(
    config: MissileConfig,
    linvel: Vec2,
    forward: Vec2,
    angle_diff: int,
    delta_nanos: int,
) -> Vec2 {
    let b = boost(config, linvel, forward, angle_diff, delta_nanos);
    linvel.moved_by(trunc_div(b * forward.x, UNIT as int), trunc_div(b * forward.y, UNIT as int))
}

/// The velocity after one tick of guidance at the bearing `angle_diff`. A
/// tick of no duration changes nothing.
pub open spec fn guided(
    config: MissileConfig,
    velocity: Velocity,
    forward: Vec2,
    angle_diff: int,
    delta_nanos: int,
) -> Velocity {
    if delta_nanos == 0 {
        velocity
    } else {
        Velocity {
            linvel: thrusted(config, velocity.linvel, forward, angle_diff, delta_nanos),
            angvel: steered(config, velocity.angvel as int, angle_diff, delta_nanos) as i64,
        }
    }
}

/// Steers one missile for one tick.
///
/// `angle_diff` is the missile's bearing and `delta_nanos` the tick's
/// duration.
pub fn control_missile(
    config: &MissileConfig,
    velocity: &mut Velocity,
    forward: &Vec2,
    angle_diff: i64,
    delta_nanos: u64,
)
    requires
        config.wf(),
        old(velocity).linvel.in_range(),
        forward.in_range(),
        -HALF_TURN <= angle_diff <= HALF_TURN,
    ensures
        *final(velocity) == guided(
            *config,
            *old(velocity),
            *forward,
            angle_diff as int,
            delta_nanos as int,
        ),
        final(velocity).linvel.in_range(),
        delta_nanos != 0 ==> final(velocity).angvel == steered(
            *config,
            old(velocity).angvel as int,
            angle_diff as int,
            delta_nanos as int,
        ),
{
    if delta_nanos == 0 {
        return ;
    }
    let dt: i128 = delta_nanos as i128;
    let second: i128 = NANOS_PER_SECOND as i128;
    let angle: i128 = angle_diff as i128;
    let angvel: i128 = velocity.angvel as i128;

    let limit: i128 = config.angular_speed as i128;
    let desired: i128 = clamp_to(div_trunc(angle * second, dt), -limit, limit);
    proof {
        lemma_product_bound(
            config.angular_acceleration as int,
            dt as int,
            COORD_MAX as int,
            u64::MAX as int,
        );
        lemma_trunc_div_bounds(config.angular_acceleration * dt, second as int);
        assert(config.angular_acceleration * dt >= 0) by (nonlinear_arith)
            requires
                config.angular_acceleration > 0,
                dt > 0,
        ;
    }
    let impulse_limit: i128 = div_trunc(config.angular_acceleration as i128 * dt, second);
    let impulse: i128 = clamp_to(desired - angvel, -impulse_limit, impulse_limit);
    let new_angvel: i128 = angvel + impulse;

    proof {
        lemma_product_bound(
            velocity.linvel.x as int,
            forward.x as int,
            COORD_MAX as int,
            COORD_MAX as int,
        );
        lemma_product_bound(
            velocity.linvel.y as int,
            forward.y as int,
            COORD_MAX as int,
            COORD_MAX as int,
        );
    }
    let along: i128 = velocity.linvel.x as i128 * forward.x as i128 + velocity.linvel.y as i128
        * forward.y as i128;
    proof {
        lemma_trunc_div_bounds(along as int, UNIT as int);
    }
    let current_speed: i128 = div_trunc(along, UNIT as i128);
    let missing: i128 = config.speed as i128 - current_speed;
    let off: i128 = magnitude(angle_diff);
    assert(HALF_TURN * THRUST_GATE_FIFTHS == 12_566_372) by (nonlinear_arith)
        requires
            HALF_TURN == 3_141_593,
            THRUST_GATE_FIFTHS == 4,
    ;
    let gate: i128 = HALF_TURN as i128 * THRUST_GATE_FIFTHS as i128;
    let mut added: i128 = 0;
    if 0 < missing && off * 5 > gate {
        proof {
            lemma_product_bound(
                off as int,
                config.acceleration as int,
                HALF_TURN as int,
                COORD_MAX as int,
            );
            lemma_product_bound(
                off * config.acceleration,
                dt as int,
                HALF_TURN * COORD_MAX,
                u64::MAX as int,
            );
        }
        let available: i128 = div_trunc(
            off * config.acceleration as i128 * dt,
            HALF_TURN as i128 * second,
        );
        added = if missing < available {
            missing
        } else {
            available
        };
        proof {
            assert(off * config.acceleration * dt >= 0) by (nonlinear_arith)
                requires
                    off >= 0,
                    config.acceleration > 0,
                    dt > 0,
            ;
            lemma_trunc_div_bounds(off * config.acceleration * dt, HALF_TURN * second);
        }
    }
    assert(added == boost(
        *config,
        velocity.linvel,
        *forward,
        angle_diff as int,
        delta_nanos as int,
    ));
    assert(0 <= added <= 3 * COORD_MAX * COORD_MAX);
    proof {
        lemma_product_bound(
            added as int,
            forward.x as int,
            3 * COORD_MAX * COORD_MAX,
            COORD_MAX as int,
        );
        lemma_product_bound(
            added as int,
            forward.y as int,
            3 * COORD_MAX * COORD_MAX,
            COORD_MAX as int,
        );
        lemma_trunc_div_bounds(added * forward.x, UNIT as int);
        lemma_trunc_div_bounds(added * forward.y, UNIT as int);
        assert(3 * COORD_MAX * COORD_MAX * COORD_MAX == 3_000_000_000_000_000_000_000_000_000_000_000_000int)
            by (nonlinear_arith);
    }
    let dx: i128 = div_trunc(added * forward.x as i128, UNIT as i128);
    let dy: i128 = div_trunc(added * forward.y as i128, UNIT as i128);
    velocity.linvel = velocity.linvel.saturating_move(dx, dy);
    velocity.angvel = new_angvel as i64;
}

/// After a tick of steering the angular velocity is within the missile's turn
/// rate limit, if it was so before.
pub proof fn lemma_angvel_within_limit(
    config: MissileConfig,
    angvel: int,
    angle_diff: int,
    delta_nanos: int,
)
    requires
        config.wf(),
        delta_nanos > 0,
        -config.angular_speed <= angvel <= config.angular_speed,
    ensures
        -config.angular_speed <= steered(config, angvel, angle_diff, delta_nanos)
            <= config.angular_speed,
{
    lemma_impulse_limit_nonnegative(config, delta_nanos);
}

/// One tick of steering changes the angular velocity by no more than the
/// angular acceleration allows in the tick's duration.
pub proof fn lemma_angvel_change_bounded(
    config: MissileConfig,
    angvel: int,
    angle_diff: int,
    delta_nanos: int,
)
    requires
        config.wf(),
        delta_nanos > 0,
    ensures
        abs(steered(config, angvel, angle_diff, delta_nanos) - angvel) * NANOS_PER_SECOND
            <= config.angular_acceleration * delta_nanos,
{
    lemma_impulse_limit_nonnegative(config, delta_nanos);
    let limit = max_angular_impulse(config, delta_nanos);
    let change = abs(steered(config, angvel, angle_diff, delta_nanos) - angvel);
    assert(change <= limit);
    lemma_trunc_div_bounds(config.angular_acceleration * delta_nanos, NANOS_PER_SECOND as int);
    assert(change * NANOS_PER_SECOND <= limit * NANOS_PER_SECOND) by (nonlinear_arith)
        requires
            0 <= change <= limit,
    ;
}

/// Steering never carries the angular velocity past the desired one: the new
/// value lies between the old one and the desired one.
pub proof fn lemma_steering_does_not_overshoot(
    config: MissileConfig,
    angvel: int,
    angle_diff: int,
    delta_nanos: int,
)
    requires
        config.wf(),
        delta_nanos > 0,
    ensures
        ({
            let desired = desired_angvel(config, angle_diff, delta_nanos);
            let next = steered(config, angvel, angle_diff, delta_nanos);
            (angvel <= next <= desired) || (desired <= next <= angvel)
        }),
{
    lemma_impulse_limit_nonnegative(config, delta_nanos);
}

/// The largest change of angular velocity in a tick is not negative.
pub proof fn lemma_impulse_limit_nonnegative(config: MissileConfig, delta_nanos: int)
    requires
        config.wf(),
        delta_nanos > 0,
    ensures
        max_angular_impulse(config, delta_nanos) >= 0,
{
    assert(config.angular_acceleration * delta_nanos >= 0) by (nonlinear_arith)
        requires
            config.angular_acceleration > 0,
            delta_nanos > 0,
    ;
    lemma_trunc_div_bounds(config.angular_acceleration * delta_nanos, NANOS_PER_SECOND as int);
}

/// The bearing of the missile at place `i`: none where the list ends before
/// it.
pub open spec fn bearing_of(bearings: Seq<Option<i64>>, i: int) -> Option<i64> {
    if 0 <= i < bearings.len() {
        bearings[i]
    } else {
        None
    }
}

/// The missile after one tick of guidance: one with a bearing to its target
/// is steered, one without flies on as it does.
pub open spec fn controlled(missile: Missile, bearing: Option<i64>, delta_nanos: int) -> Missile {
    match bearing {
        Some(angle_diff) => Missile {
            velocity: guided(
                missile.config,
                missile.velocity,
                missile.forward,
                angle_diff as int,
                delta_nanos,
            ),
            ..missile
        },
        None => missile,
    }
}

/// Steers every missile for one tick.
///
/// `bearings` holds each missile's bearing at the missile's place, and
/// nothing where [`vector_to_target`] gives no vector to measure it by.
pub fn control_missiles(delta_nanos: u64, missiles: &mut Vec<Missile>, bearings: &Vec<Option<i64>>)
    requires
        forall|i: int| 0 <= i < old(missiles).len() ==> (#[trigger] old(missiles)[i]).wf(),
        forall|i: int|
            0 <= i < bearings.len() ==> ((#[trigger] bearings[i]) matches Some(angle_diff)
                ==> -HALF_TURN <= angle_diff <= HALF_TURN),
    ensures
        final(missiles).len() == old(missiles).len(),
        forall|i: int|
            0 <= i < old(missiles).len() ==> #[trigger] final(missiles)[i] == controlled(
                old(missiles)[i],
                bearing_of(bearings@, i),
                delta_nanos as int,
            ) && final(missiles)[i].wf(),
{
    let mut i: usize = 0;
    while i < missiles.len()
        invariant
            i <= missiles.len(),
            missiles.len() == old(missiles).len(),
            forall|k: int| 0 <= k < old(missiles).len() ==> (#[trigger] old(missiles)[k]).wf(),
            forall|k: int|
                0 <= k < bearings.len() ==> ((#[trigger] bearings[k]) matches Some(angle_diff)
                    ==> -HALF_TURN <= angle_diff <= HALF_TURN),
            forall|k: int| i <= k < missiles.len() ==> #[trigger] missiles[k] == old(missiles)[k],
            forall|k: int|
                0 <= k < i ==> #[trigger] missiles[k] == controlled(
                    old(missiles)[k],
                    bearing_of(bearings@, k),
                    delta_nanos as int,
                ) && missiles[k].wf(),
        decreases missiles.len() - i,
    {
        if i < bearings.len() {
            match bearings[i] {
                Some(angle_diff) => {
                    let mut missile = missiles[i];
                    assert(missile.wf());
                    control_missile(
                        &missile.config,
                        &mut missile.velocity,
                        &missile.forward,
                        angle_diff,
                        delta_nanos,
                    );
                    missiles.set(i, missile);
                },
                None => {},
            }
        }
        i += 1;
    }
}

/// Thrust never slows a missile down and never carries it past its cruise
/// speed: the speed added is not negative, and no more than is missing.
pub proof fn lemma_boost_is_bounded(
    config: MissileConfig,
    linvel: Vec2,
    forward: Vec2,
    angle_diff: int,
    delta_nanos: int,
)
    requires
        config.wf(),
        delta_nanos > 0,
        -HALF_TURN <= angle_diff <= HALF_TURN,
    ensures
        0 <= boost(config, linvel, forward, angle_diff, delta_nanos),
        boost(config, linvel, forward, angle_diff, delta_nanos) > 0 ==> boost(
            config,
            linvel,
            forward,
            angle_diff,
            delta_nanos,
        ) <= config.speed - forward_speed(linvel, forward),
        boost(config, linvel, forward, angle_diff, delta_nanos) * NANOS_PER_SECOND
            <= config.acceleration * delta_nanos,
{
    let off = abs(angle_diff);
    let top = off * config.acceleration * delta_nanos;
    let bottom = HALF_TURN * NANOS_PER_SECOND;
    let available = trunc_div(top, bottom);
    let thrust = config.acceleration * delta_nanos;
    assert(thrust >= 0) by (nonlinear_arith)
        requires
            thrust == config.acceleration * delta_nanos,
            config.acceleration > 0,
            delta_nanos > 0,
    ;
    assert(top == off * thrust) by (nonlinear_arith)
        requires
            top == off * config.acceleration * delta_nanos,
            thrust == config.acceleration * delta_nanos,
    ;
    assert(top >= 0) by (nonlinear_arith)
        requires
            top == off * thrust,
            off >= 0,
            thrust >= 0,
    ;
    lemma_trunc_div_bounds(top, bottom);
    let added = boost(config, linvel, forward, angle_diff, delta_nanos);
    if added > 0 {
        assert(available * bottom <= top);
        assert(off * thrust <= HALF_TURN * thrust) by (nonlinear_arith)
            requires
                off <= HALF_TURN,
                thrust >= 0,
        ;
        assert((available * NANOS_PER_SECOND) * HALF_TURN == available * bottom)
            by (nonlinear_arith)
            requires
                bottom == HALF_TURN * NANOS_PER_SECOND,
        ;
        assert(available * NANOS_PER_SECOND <= thrust) by (nonlinear_arith)
            requires
                (available * NANOS_PER_SECOND) * HALF_TURN <= HALF_TURN * thrust,
                HALF_TURN == 3_141_593,
        ;
        assert(added * NANOS_PER_SECOND <= available * NANOS_PER_SECOND) by (nonlinear_arith)
            requires
                added <= available,
        ;
    }
}

} // verus!
