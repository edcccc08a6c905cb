//! The push that an explosion gives to the bodies inside its volume.
//!
//! The push points away from the center of the explosion. Its strength falls
//! off as the inverse of the distance and stops growing inside the near
//! field, so that a body at the very center is not hurled away without bound.
//! It acts on a body's velocity for as long as the body stays inside, tick
//! after tick, and adds to whatever else moves the body.

use crate::collision::Entity;
use crate::explosion::EXPLOSION_FORCE;
use crate::explosion::EXPLOSION_FORCE_MAX;
use crate::explosion::EXPLOSION_NEAR_FIELD;
use crate::fixed::abs;
use crate::fixed::ceil_sqrt;
use crate::fixed::ceil_sqrt_of;
use crate::fixed::div_trunc;
use crate::fixed::floor_sqrt;
use crate::fixed::is_floor_sqrt;
use crate::fixed::lemma_floor_sqrt_exists;
use crate::fixed::lemma_product_bound;
use crate::fixed::lemma_square_bound;
use crate::fixed::lemma_square_monotone;
use crate::fixed::lemma_trunc_div_bounds;
use crate::fixed::trunc_div;
use crate::fixed::Vec2;
use crate::fixed::COORD_MAX;
use crate::fixed::NANOS_PER_SECOND;
use crate::fixed::UNIT;
use vstd::prelude::*;

verus! {

/// A body that explosions push.
#[derive(Clone, Copy, Debug, PartialEq, Eq, Structural)]
pub struct Pushable {
    pub entity: Entity,
    pub position: Vec2,
    pub linvel: Vec2,
}

impl Pushable {
    /// Position and velocity are within range.
    pub open spec fn wf(self) -> bool {
        self.position.in_range() && self.linvel.in_range()
    }

    /// Tells whether position and velocity are within range.
    pub fn is_valid(&self) -> (valid: bool)
        ensures
            valid == self.wf(),
    {
        self.position.is_in_range() && self.linvel.is_in_range()
    }
}

/// Two volumes that the physics step found near each other, and whether they
/// overlap now.
#[derive(Clone, Copy, Debug, PartialEq, Eq, Structural)]
pub struct Intersection {
    pub first: Entity,
    pub second: Entity,
    pub intersecting: bool,
}

/// An explosion together with what the physics step reports about its volume.
#[derive(Debug)]
pub struct Blast {
    /// The explosion's identifier.
    pub explosion: Entity,
    /// The explosion's center.
    pub center: Vec2,
    /// The pairs of volumes that involve the explosion's.
    pub contacts: Vec<Intersection>,
}

/// The push on a body that lies `(x, y)` away from the center, in millionths
/// of a unit per second squared.
///
/// Outside the near field the push is the displacement over the square of
/// its length, times [`EXPLOSION_FORCE`]; inside, it has the strength
/// [`EXPLOSION_FORCE_MAX`] along the displacement. There is none at the
/// center itself.
pub open spec fn push_force(x: int, y: int) -> (int, int) {
    let length_squared = x * x + y * y;
    if length_squared == 0 {
        (0, 0)
    } else if length_squared < EXPLOSION_NEAR_FIELD * EXPLOSION_NEAR_FIELD {
        let length = ceil_sqrt(length_squared);
        (trunc_div(EXPLOSION_FORCE_MAX * x, length), trunc_div(EXPLOSION_FORCE_MAX * y, length))
    } else {
        (
            trunc_div(EXPLOSION_FORCE * UNIT * x, length_squared),
            trunc_div(EXPLOSION_FORCE * UNIT * y, length_squared),
        )
    }
}

/// The change of velocity that a force works in `delta` nanoseconds.
pub open spec fn impulse(force: int, delta: nat) -> int {
    trunc_div(force * delta, NANOS_PER_SECOND as int)
}

/// The body after an explosion centered at `center` has pushed it for
/// `delta` nanoseconds: where it was, with the push added to its velocity.
pub open spec fn pushed(body: Pushable, center: Vec2, delta: nat) -> Pushable {
    let force = push_force(body.position.x - center.x, body.position.y - center.y);
    Pushable { linvel: body.linvel.moved_by(impulse(force.0, delta), impulse(force.1, delta)), ..body }
}

/// `i` is the place of the first body that goes by the identifier `entity`.
pub open spec fn is_first_pushable(pushables: Seq<Pushable>, entity: Entity, i: int) -> bool {
    &&& 0 <= i < pushables.len()
    &&& pushables[i].entity == entity
    &&& forall|j: int| 0 <= j < i ==> (#[trigger] pushables[j]).entity != entity
}

/// The bodies after the one that goes by `entity`, if there is one, has been
/// pushed.
pub open spec fn pushed_at(pushables: Seq<Pushable>, entity: Entity, center: Vec2, delta: nat) -> Seq<
    Pushable,
> {
    if exists|i: int| is_first_pushable(pushables, entity, i) {
        let i = choose|i: int| is_first_pushable(pushables, entity, i);
        pushables.update(i, pushed(pushables[i], center, delta))
    } else {
        pushables
    }
}

/// The volume that a pair brings together with the explosion's.
pub open spec fn other_body(contact: Intersection, explosion: Entity) -> Entity {
    if contact.first == explosion {
        contact.second
    } else {
        contact.first
    }
}

/// The bodies after one pair has been looked at: a pair that overlaps pushes
/// the body that it brings together with the explosion, if that is a body
/// that explosions push.
pub open spec fn pushed_by_contact(
    pushables: Seq<Pushable>,
    explosion: Entity,
    center: Vec2,
    contact: Intersection,
    delta: nat,
) -> Seq<Pushable> {
    if contact.intersecting {
        pushed_at(pushables, other_body(contact, explosion), center, delta)
    } else {
        pushables
    }
}

/// The bodies after all pairs of one explosion have been looked at, in
/// order.
pub open spec fn pushed_by_contacts(
    pushables: Seq<Pushable>,
    explosion: Entity,
    center: Vec2,
    contacts: Seq<Intersection>,
    delta: nat,
) -> Seq<Pushable>
    decreases contacts.len(),
{
    if contacts.len() == 0 {
        pushables
    } else {
        pushed_by_contact(
            pushed_by_contacts(pushables, explosion, center, contacts.drop_last(), delta),
            explosion,
            center,
            contacts.last(),
            delta,
        )
    }
}

/// The bodies after every explosion has pushed, in order.
pub open spec fn pushed_by_blasts(pushables: Seq<Pushable>, blasts: Seq<Blast>, delta: nat) -> Seq<
    Pushable,
>
    decreases blasts.len(),
{
    if blasts.len() == 0 {
        pushables
    } else {
        pushed_by_contacts(
            pushed_by_blasts(pushables, blasts.drop_last(), delta),
            blasts.last().explosion,
            blasts.last().center,
            blasts.last().contacts@,
            delta,
        )
    }
}

/// Every body's position and velocity are within range.
pub open spec fn all_wf(pushables: Seq<Pushable>) -> bool {
    forall|i: int| 0 <= i < pushables.len() ==> (#[trigger] pushables[i]).wf()
}

/// Along each axis the push is no stronger than [`EXPLOSION_FORCE_MAX`].
pub proof fn lemma_push_is_limited(x: int, y: int)
    ensures
        abs(push_force(x, y).0) <= EXPLOSION_FORCE_MAX,
        abs(push_force(x, y).1) <= EXPLOSION_FORCE_MAX,
{
    lemma_axis_is_limited(x, y);
    lemma_axis_is_limited(y, x);
    assert(x * x + y * y == y * y + x * x);
}

/// The push is no stronger than [`EXPLOSION_FORCE_MAX`], whichever way it
/// points.
pub proof fn lemma_push_strength_is_limited(x: int, y: int)
    ensures
        push_force(x, y).0 * push_force(x, y).0 + push_force(x, y).1 * push_force(x, y).1
            <= EXPLOSION_FORCE_MAX * EXPLOSION_FORCE_MAX,
{
    let length_squared = x * x + y * y;
    let near = EXPLOSION_NEAR_FIELD as int;
    let most = EXPLOSION_FORCE_MAX as int;
    let force = push_force(x, y);
    let first = force.0 * force.0;
    let second = force.1 * force.1;
    let limit = most * most;
    assert(x * x >= 0 && y * y >= 0) by (nonlinear_arith);
    assert(first >= 0) by (nonlinear_arith)
        requires
            first == force.0 * force.0,
    ;
    assert(second >= 0) by (nonlinear_arith)
        requires
            second == force.1 * force.1,
    ;
    assert(limit >= 0) by (nonlinear_arith)
        requires
            limit == most * most,
    ;
    if length_squared == 0 {
        assert(first + second == 0);
    } else if length_squared < near * near {
        let length = ceil_sqrt(length_squared);
        lemma_ceil_sqrt_covers(length_squared);
        let divisor = length * length;
        lemma_axis_square(most, x, length);
        lemma_axis_square(most, y, length);
        lemma_shares(first, second, divisor, limit, x * x, y * y);
        lemma_cancel(first + second, limit, divisor);
    } else {
        let scale = EXPLOSION_FORCE * UNIT;
        let strength = first + second;
        lemma_push_is_inverse_to_distance(x, y);
        // strength * near * near <= strength * L <= scale * scale == limit * near * near
        let floor = near * near;
        assert(strength * floor <= strength * length_squared) by (nonlinear_arith)
            requires
                floor <= length_squared,
                strength >= 0,
        ;
        assert(scale * scale == limit * floor) by (nonlinear_arith)
            requires
                scale == EXPLOSION_FORCE * UNIT,
                EXPLOSION_FORCE == 1_000_000_000,
                UNIT == 1_000_000,
                most == 10_000_000_000,
                near == 100_000,
                limit == most * most,
                floor == near * near,
        ;
        lemma_cancel(strength, limit, floor);
    }
}

/// Outside the near field the push is at most [`EXPLOSION_FORCE`] over the
/// distance: its strength times the distance, both squared, is within the
/// square of that constant. What is missing to it is lost in rounding.
pub proof fn lemma_push_is_inverse_to_distance(x: int, y: int)
    requires
        x * x + y * y >= EXPLOSION_NEAR_FIELD * EXPLOSION_NEAR_FIELD,
    ensures
        (push_force(x, y).0 * push_force(x, y).0 + push_force(x, y).1 * push_force(x, y).1) * (x
            * x + y * y) <= (EXPLOSION_FORCE * UNIT) * (EXPLOSION_FORCE * UNIT),
{
    let length_squared = x * x + y * y;
    let force = push_force(x, y);
    let first = force.0 * force.0;
    let second = force.1 * force.1;
    let strength = first + second;
    let scale = EXPLOSION_FORCE * UNIT;
    let divisor = length_squared * length_squared;
    let ceiling = scale * scale;
    assert(EXPLOSION_NEAR_FIELD * EXPLOSION_NEAR_FIELD > 0) by (nonlinear_arith)
        requires
            EXPLOSION_NEAR_FIELD == 100_000,
    ;
    assert(scale >= 0) by (nonlinear_arith)
        requires
            scale == EXPLOSION_FORCE * UNIT,
            EXPLOSION_FORCE == 1_000_000_000,
            UNIT == 1_000_000,
    ;
    lemma_axis_square(scale, x, length_squared);
    lemma_axis_square(scale, y, length_squared);
    // strength * L * L <= ceiling * (x * x + y * y) == ceiling * L
    assert(strength * divisor <= ceiling * length_squared) by {
        assert(strength * divisor == first * divisor + second * divisor) by (nonlinear_arith)
            requires
                strength == first + second,
        ;
        assert(ceiling * (x * x) + ceiling * (y * y) == ceiling * length_squared)
            by (nonlinear_arith)
            requires
                length_squared == x * x + y * y,
        ;
    }
    assert(strength * divisor == (strength * length_squared) * length_squared) by (nonlinear_arith)
        requires
            divisor == length_squared * length_squared,
    ;
    lemma_cancel(strength * length_squared, ceiling, length_squared);
}

/// If each of two shares, times a divisor, is within a limit times its part,
/// and the parts together are within the divisor, then the shares together,
/// times the divisor, are within the limit times the divisor.
proof fn lemma_shares(first: int, second: int, divisor: int, limit: int, part: int, other: int)
    requires
        first * divisor <= limit * part,
        second * divisor <= limit * other,
        part + other <= divisor,
        limit >= 0,
    ensures
        (first + second) * divisor <= limit * divisor,
{
    assert((first + second) * divisor == first * divisor + second * divisor) by (nonlinear_arith);
    assert(limit * part + limit * other == limit * (part + other)) by (nonlinear_arith);
    assert(limit * (part + other) <= limit * divisor) by (nonlinear_arith)
        requires
            part + other <= divisor,
            limit >= 0,
    ;
}

/// The square of a quotient rounded toward zero, times the square of the
/// divisor, is at most the square of the dividend.
proof fn lemma_axis_square(factor: int, x: int, divisor: int)
    requires
        divisor > 0,
        factor >= 0,
    ensures
        (trunc_div(factor * x, divisor) * trunc_div(factor * x, divisor)) * (divisor * divisor) <= (
        factor * factor) * (x * x),
{
    let top = factor * x;
    let quotient = trunc_div(top, divisor);
    lemma_trunc_div_bounds(top, divisor);
    let a = abs(quotient);
    let b = abs(top);
    assert((a * a) * (divisor * divisor) <= b * b) by (nonlinear_arith)
        requires
            0 <= a,
            0 < divisor,
            a * divisor <= b,
    ;
    assert(a * a == quotient * quotient) by (nonlinear_arith)
        requires
            a == quotient || a == -quotient,
    ;
    assert(b * b == (factor * factor) * (x * x)) by (nonlinear_arith)
        requires
            b == factor * x || b == -(factor * x),
    ;
}

/// A positive factor on both sides of an inequality can be dropped.
proof fn lemma_cancel(a: int, b: int, factor: int)
    requires
        factor > 0,
        a * factor <= b * factor,
    ensures
        a <= b,
{
    assert(a <= b) by (nonlinear_arith)
        requires
            factor > 0,
            a * factor <= b * factor,
    ;
}

/// The push along one axis is no stronger than [`EXPLOSION_FORCE_MAX`].
proof fn lemma_axis_is_limited(x: int, y: int)
    ensures
        abs(push_force(x, y).0) <= EXPLOSION_FORCE_MAX,
{
    let length_squared = x * x + y * y;
    let near = EXPLOSION_NEAR_FIELD as int;
    let most = EXPLOSION_FORCE_MAX as int;
    lemma_square_bound(x, abs(x));
    lemma_square_bound(y, abs(y));
    assert(abs(x) * abs(x) == x * x) by (nonlinear_arith);
    if length_squared == 0 {
    } else if length_squared < near * near {
        let length = ceil_sqrt(length_squared);
        lemma_ceil_sqrt_covers(length_squared);
        if length < abs(x) {
            lemma_square_monotone(length + 1, abs(x));
            assert(length * length < (length + 1) * (length + 1)) by (nonlinear_arith)
                requires
                    length >= 0,
            ;
        }
        let top = most * x;
        assert(abs(top) == most * abs(x)) by (nonlinear_arith)
            requires
                top == most * x,
                most > 0,
        ;
        assert(most * abs(x) <= most * length) by (nonlinear_arith)
            requires
                abs(x) <= length,
                most > 0,
        ;
        lemma_trunc_div_bounds(top, length);
        let quotient = abs(trunc_div(top, length));
        assert(quotient <= most) by (nonlinear_arith)
            requires
                quotient * length <= most * length,
                length > 0,
        ;
    } else {
        let top = EXPLOSION_FORCE * UNIT * x;
        assert(EXPLOSION_FORCE * UNIT == most * near) by (nonlinear_arith)
            requires
                EXPLOSION_FORCE == 1_000_000_000,
                UNIT == 1_000_000,
                most == 10_000_000_000,
                near == 100_000,
        ;
        assert(abs(top) == most * near * abs(x)) by (nonlinear_arith)
            requires
                top == most * near * x,
                most * near > 0,
        ;
        assert(near * abs(x) <= length_squared) by (nonlinear_arith)
            requires
                abs(x) * abs(x) <= length_squared,
                near * near <= length_squared,
                abs(x) >= 0,
                near > 0,
        ;
        assert(most * near * abs(x) <= most * length_squared) by (nonlinear_arith)
            requires
                near * abs(x) <= length_squared,
                most > 0,
        ;
        lemma_trunc_div_bounds(top, length_squared);
        let quotient = abs(trunc_div(top, length_squared));
        assert(quotient <= most) by (nonlinear_arith)
            requires
                quotient * length_squared <= most * length_squared,
                length_squared > 0,
        ;
    }
}

/// The rounded-up square root of a positive number is positive, and its
/// square covers the number.
proof fn lemma_ceil_sqrt_covers(n: int)
    requires
        n > 0,
    ensures
        ceil_sqrt(n) > 0,
        ceil_sqrt(n) * ceil_sqrt(n) >= n,
{
    lemma_floor_sqrt_exists(n);
    let r = floor_sqrt(n);
    assert(is_floor_sqrt(n, r));
    if r == 0 {
        assert(r * r == 0);
    }
}

/// A body at the center of an explosion is not pushed.
pub proof fn lemma_no_push_at_center(body: Pushable, delta: nat)
    requires
        body.wf(),
    ensures
        push_force(0, 0) == (0int, 0int),
        pushed(body, body.position, delta) == body,
{
    assert(impulse(0, delta) == 0) by {
        assert(0 * delta == 0);
    }
}

/// Straight along the first axis and outside the near field, the push is
/// [`EXPLOSION_FORCE`] over the distance: it falls off as the inverse of the
/// distance.
pub proof fn lemma_push_falls_off(distance: int)
    requires
        distance >= EXPLOSION_NEAR_FIELD,
    ensures
        push_force(distance, 0) == (EXPLOSION_FORCE * UNIT / distance, 0int),
{
    let strength = EXPLOSION_FORCE * UNIT;
    assert(distance * distance >= EXPLOSION_NEAR_FIELD * EXPLOSION_NEAR_FIELD) by (nonlinear_arith)
        requires
            distance >= EXPLOSION_NEAR_FIELD,
            EXPLOSION_NEAR_FIELD > 0,
    ;
    assert(distance * distance + 0 * 0 == distance * distance);
    assert(strength * 0 == 0);
    assert(strength * distance >= 0) by (nonlinear_arith)
        requires
            strength >= 0,
            distance >= 0,
    ;
    vstd::arithmetic::div_mod::lemma_div_multiples_vanish_quotient(distance, strength, distance);
    assert(strength * distance == distance * strength) by (nonlinear_arith);
}

/// Farther from the center along the first axis, the push is no stronger.
pub proof fn lemma_push_weakens_with_distance(nearer: int, farther: int)
    requires
        EXPLOSION_NEAR_FIELD <= nearer <= farther,
    ensures
        push_force(farther, 0).0 <= push_force(nearer, 0).0,
{
    lemma_push_falls_off(nearer);
    lemma_push_falls_off(farther);
    vstd::arithmetic::div_mod::lemma_div_is_ordered_by_denominator(
        EXPLOSION_FORCE * UNIT,
        nearer,
        farther,
    );
}

/// Computes the push on a body that lies `(x, y)` away from the center.
pub fn push_force_of(x: i64, y: i64) -> (force: (i128, i128))
    requires
        -2 * COORD_MAX <= x <= 2 * COORD_MAX,
        -2 * COORD_MAX <= y <= 2 * COORD_MAX,
    ensures
        force.0 == push_force(x as int, y as int).0,
        force.1 == push_force(x as int, y as int).1,
        -EXPLOSION_FORCE_MAX <= force.0 <= EXPLOSION_FORCE_MAX,
        -EXPLOSION_FORCE_MAX <= force.1 <= EXPLOSION_FORCE_MAX,
{
    let wide_x: i128 = x as i128;
    let wide_y: i128 = y as i128;
    proof {
        lemma_square_bound(x as int, 2_000_000_000_000);
        lemma_square_bound(y as int, 2_000_000_000_000);
        assert(2_000_000_000_000int * 2_000_000_000_000int == 4_000_000_000_000_000_000_000_000int)
            by (nonlinear_arith);
        lemma_push_is_limited(x as int, y as int);
    }
    let length_squared: i128 = wide_x * wide_x + wide_y * wide_y;
    let near: i128 = EXPLOSION_NEAR_FIELD as i128;
    assert(near * near == 10_000_000_000) by (nonlinear_arith)
        requires
            near == 100_000,
    ;
    if length_squared == 0 {
        (0, 0)
    } else if length_squared < near * near {
        let length: i128 = ceil_sqrt_of(length_squared);
        proof {
            lemma_product_bound(
                EXPLOSION_FORCE_MAX as int,
                x as int,
                EXPLOSION_FORCE_MAX as int,
                2 * COORD_MAX,
            );
            lemma_product_bound(
                EXPLOSION_FORCE_MAX as int,
                y as int,
                EXPLOSION_FORCE_MAX as int,
                2 * COORD_MAX,
            );
        }
        (
            div_trunc(EXPLOSION_FORCE_MAX as i128 * wide_x, length),
            div_trunc(EXPLOSION_FORCE_MAX as i128 * wide_y, length),
        )
    } else {
        let strength: i128 = EXPLOSION_FORCE as i128 * UNIT as i128;
        proof {
            lemma_product_bound(
                strength as int,
                x as int,
                strength as int,
                2 * COORD_MAX,
            );
            lemma_product_bound(
                strength as int,
                y as int,
                strength as int,
                2 * COORD_MAX,
            );
        }
        (div_trunc(strength * wide_x, length_squared), div_trunc(strength * wide_y, length_squared))
    }
}

/// Pushes one body away from an explosion centered at `center` for the
/// tick's duration.
pub fn push_body(body: &mut Pushable, center: &Vec2, delta_nanos: u64)
    requires
        old(body).wf(),
        center.in_range(),
    ensures
        *final(body) == pushed(*old(body), *center, delta_nanos as nat),
        final(body).wf(),
{
    let push = body.position.minus(center);
    let force = push_force_of(push.x, push.y);
    let delta: i128 = delta_nanos as i128;
    proof {
        lemma_product_bound(
            force.0 as int,
            delta as int,
            EXPLOSION_FORCE_MAX as int,
            u64::MAX as int,
        );
        lemma_product_bound(
            force.1 as int,
            delta as int,
            EXPLOSION_FORCE_MAX as int,
            u64::MAX as int,
        );
        lemma_trunc_div_bounds(force.0 * delta, NANOS_PER_SECOND as int);
        lemma_trunc_div_bounds(force.1 * delta, NANOS_PER_SECOND as int);
    }
    let dx: i128 = div_trunc(force.0 * delta, NANOS_PER_SECOND as i128);
    let dy: i128 = div_trunc(force.1 * delta, NANOS_PER_SECOND as i128);
    body.linvel = body.linvel.saturating_move(dx, dy);
}

/// Finds the place of the first body that goes by the identifier `entity`.
pub fn find_pushable(pushables: &Vec<Pushable>, entity: Entity) -> (found: Option<usize>)
    ensures
        match found {
            Some(i) => is_first_pushable(pushables@, entity, i as int),
            None => forall|i: int| !is_first_pushable(pushables@, entity, i),
        },
{
    let mut i: usize = 0;
    while i < pushables.len()
        invariant
            i <= pushables.len(),
            forall|j: int| 0 <= j < i ==> (#[trigger] pushables[j]).entity != entity,
        decreases pushables.len() - i,
    {
        if pushables[i].entity == entity {
            return Some(i);
        }
        i += 1;
    }
    None
}

/// Lets one explosion push the bodies inside its volume for the tick's
/// duration.
///
/// `contacts` are the pairs of volumes that involve the explosion's; each
/// names the explosion on one side.
pub fn push_from_explosion(
    delta_nanos: u64,
    explosion: Entity,
    center: &Vec2,
    contacts: &Vec<Intersection>,
    pushables: &mut Vec<Pushable>,
)
    requires
        center.in_range(),
        all_wf(old(pushables)@),
    ensures
        final(pushables)@ == pushed_by_contacts(
            old(pushables)@,
            explosion,
            *center,
            contacts@,
            delta_nanos as nat,
        ),
        all_wf(final(pushables)@),
        final(pushables).len() == old(pushables).len(),
{
    let ghost delta = delta_nanos as nat;
    let mut k: usize = 0;
    assert(contacts@.take(0).len() == 0);
    while k < contacts.len()
        invariant
            k <= contacts.len(),
            center.in_range(),
            delta == delta_nanos as nat,
            all_wf(pushables@),
            pushables.len() == old(pushables).len(),
            pushables@ == pushed_by_contacts(
                old(pushables)@,
                explosion,
                *center,
                contacts@.take(k as int),
                delta,
            ),
        decreases contacts.len() - k,
    {
        let contact = contacts[k];
        proof {
            assert(contacts@.take(k + 1).drop_last() == contacts@.take(k as int));
            assert(contacts@.take(k + 1).last() == contact);
        }
        if contact.intersecting {
            let other = if contact.first == explosion {
                contact.second
            } else {
                contact.first
            };
            let ghost bodies = pushables@;
            match find_pushable(pushables, other) {
                Some(i) => {
                    let ghost chosen = choose|c: int| is_first_pushable(bodies, other, c);
                    assert(chosen == i) by {
                        assert(is_first_pushable(bodies, other, i as int));
                        assert(is_first_pushable(bodies, other, chosen));
                    }
                    let mut body = pushables[i];
                    push_body(&mut body, center, delta_nanos);
                    pushables.set(i, body);
                },
                None => {},
            }
        }
        k += 1;
    }
    assert(contacts@.take(contacts.len() as int) == contacts@);
}

/// Lets every explosion push the bodies inside its volume for the tick's
/// duration. The pushes of several explosions on one body add up.
pub fn apply_explosion_force(delta_nanos: u64, blasts: &Vec<Blast>, pushables: &mut Vec<Pushable>)
    requires
        forall|i: int| 0 <= i < blasts.len() ==> (#[trigger] blasts[i]).center.in_range(),
        all_wf(old(pushables)@),
    ensures
        final(pushables)@ == pushed_by_blasts(old(pushables)@, blasts@, delta_nanos as nat),
        all_wf(final(pushables)@),
        final(pushables).len() == old(pushables).len(),
{
    let mut n: usize = 0;
    assert(blasts@.take(0).len() == 0);
    while n < blasts.len()
        invariant
            n <= blasts.len(),
            forall|i: int| 0 <= i < blasts.len() ==> (#[trigger] blasts[i]).center.in_range(),
            all_wf(pushables@),
            pushables.len() == old(pushables).len(),
            pushables@ == pushed_by_blasts(
                old(pushables)@,
                blasts@.take(n as int),
                delta_nanos as nat,
            ),
        decreases blasts.len() - n,
    {
        proof {
            assert(blasts@.take(n + 1).drop_last() == blasts@.take(n as int));
            assert(blasts@.take(n + 1).last() == blasts[n as int]);
        }
        push_from_explosion(
            delta_nanos,
            blasts[n].explosion,
            &blasts[n].center,
            &blasts[n].contacts,
            pushables,
        );
        n += 1;
    }
    assert(blasts@.take(blasts.len() as int) == blasts@);
}

} // verus!
