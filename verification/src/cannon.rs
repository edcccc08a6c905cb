//! Cannons, which launch a missile every half second.

use crate::collision::Entity;
use crate::fixed::div_trunc;
use crate::fixed::trunc_div;
use crate::fixed::Vec2;
use crate::missile::LaunchMissile;
use crate::timer::is_repeating;
use crate::timer::is_tickable;
use crate::timer::lemma_ticked_tickable;
use crate::timer::tickable;
use crate::timer::ticked;
use crate::timer::timer_just_finished;
use crate::timer::timer_new;
use crate::timer::timer_state;
use crate::timer::timer_tick;
use crate::timer::TimerState;
use bevy::time::Timer;
use bevy::time::TimerMode;
use vstd::prelude::*;

verus! {

/// Time between two shots of a cannon: half a second, in nanoseconds.
pub const CANNON_PERIOD: u64 = 500_000_000;

/// A missile appears this many halves of its direction in front of the
/// cannon: at one and a half times the direction.
pub const MUZZLE_HALVES: i64 = 3;

/// The repeating timer that tells a cannon when to fire.
#[derive(Debug)]
pub struct FireEvery(pub Timer);

impl FireEvery {
    /// The timer runs, repeats, and has a positive period.
    pub open spec fn wf(self) -> bool {
        tickable(timer_state(self.0)) && timer_state(self.0).repeating
    }

    /// The timer of a new cannon, as it is before its random head start.
    pub open spec fn fresh() -> TimerState {
        TimerState {
            elapsed: 0,
            duration: CANNON_PERIOD as nat,
            repeating: true,
            paused: false,
            finished: false,
            times_finished: 0,
        }
    }

    /// Whether `delta` more nanoseconds complete a period, so that the cannon
    /// fires.
    pub open spec fn fires(self, delta: nat) -> bool {
        ticked(timer_state(self.0), delta).times_finished > 0
    }

    /// Tells whether the timer runs, repeats, and has a positive period.
    pub fn is_running(&self) -> (running: bool)
        ensures
            running == self.wf(),
    {
        is_tickable(&self.0) && is_repeating(&self.0)
    }

    /// Makes the timer of a new cannon and runs it for `head_start`
    /// nanoseconds, so that cannons set up together do not fire together. The
    /// caller draws the head start at random from within one period.
    pub fn with_head_start(head_start: u64) -> (fire_every: FireEvery)
        ensures
            timer_state(fire_every.0) == ticked(Self::fresh(), head_start as nat),
            fire_every.wf(),
    {
        let mut timer = timer_new(CANNON_PERIOD, TimerMode::Repeating);
        proof {
            lemma_ticked_tickable(timer_state(timer), head_start as nat);
        }
        timer_tick(&mut timer, head_start);
        FireEvery(timer)
    }
}

/// A cannon in a level.
#[derive(Debug)]
pub struct Cannon {
    /// The level that the cannon belongs to.
    pub level: Entity,
    pub position: Vec2,
    /// Where the cannon points: a unit vector, or none at all.
    pub direction: Vec2,
    pub fire_every: FireEvery,
}

impl Cannon {
    /// The vectors are within range and the timer is well formed.
    pub open spec fn wf(self) -> bool {
        self.position.in_range() && self.direction.in_range() && self.fire_every.wf()
    }

    /// Tells whether the vectors are within range and the timer is well
    /// formed.
    pub fn is_ready(&self) -> (ready: bool)
        ensures
            ready == self.wf(),
    {
        self.position.is_in_range() && self.direction.is_in_range() && self.fire_every.is_running()
    }

    /// Runs the cannon's timer for the tick's duration and gives the launch
    /// request if the cannon fires.
    pub fn tick(&mut self, delta_nanos: u64) -> (request: Option<LaunchMissile>)
        requires
            old(self).wf(),
        ensures
            is_ticked(*old(self), *final(self), delta_nanos as nat),
            request == if old(self).fire_every.fires(delta_nanos as nat) {
                Some(shot_of(*old(self)))
            } else {
                None
            },
            request matches Some(request) ==> request.position.in_range()
                && request.direction.in_range(),
    {
        proof {
            lemma_ticked_tickable(timer_state(self.fire_every.0), delta_nanos as nat);
        }
        timer_tick(&mut self.fire_every.0, delta_nanos);
        if timer_just_finished(&self.fire_every.0) {
            Some(shoot(self))
        } else {
            None
        }
    }
}

/// The request by which a cannon launches a missile: in the cannon's level,
/// along its direction, from one and a half times the direction in front of
/// it.
pub open spec fn shot_of(cannon: Cannon) -> LaunchMissile {
    LaunchMissile {
        level: cannon.level,
        position: cannon.position.moved_by(
            trunc_div(cannon.direction.x * MUZZLE_HALVES, 2),
            trunc_div(cannon.direction.y * MUZZLE_HALVES, 2),
        ),
        direction: cannon.direction,
    }
}

/// The test that a cannon passes when it fires within `delta` nanoseconds.
pub open spec fn firing(delta: nat) -> spec_fn(Cannon) -> bool {
    |cannon: Cannon| cannon.fire_every.fires(delta)
}

/// The request by which each cannon launches.
pub open spec fn shot() -> spec_fn(Cannon) -> LaunchMissile {
    |cannon: Cannon| shot_of(cannon)
}

/// `after` is `before` with its timer run for `delta` nanoseconds.
pub open spec fn is_ticked(before: Cannon, after: Cannon, delta: nat) -> bool {
    &&& after.level == before.level
    &&& after.position == before.position
    &&& after.direction == before.direction
    &&& timer_state(after.fire_every.0) == ticked(timer_state(before.fire_every.0), delta)
    &&& after.wf()
}

/// Builds the request by which a cannon launches a missile.
pub fn shoot(cannon: &Cannon) -> (request: LaunchMissile)
    requires
        cannon.position.in_range(),
        cannon.direction.in_range(),
    ensures
        request == shot_of(*cannon),
        request.position.in_range(),
        request.direction.in_range(),
{
    let halves: i128 = MUZZLE_HALVES as i128;
    let dx: i128 = div_trunc(cannon.direction.x as i128 * halves, 2);
    let dy: i128 = div_trunc(cannon.direction.y as i128 * halves, 2);
    LaunchMissile {
        level: cannon.level,
        position: cannon.position.saturating_move(dx, dy),
        direction: cannon.direction,
    }
}

/// Runs every cannon's timer for the tick's duration and gives the launch
/// requests of those that fire, in the cannons' order.
pub fn cannons_fire_missiles(delta_nanos: u64, cannons: &mut Vec<Cannon>) -> (requests: Vec<
    LaunchMissile,
>)
    requires
        forall|i: int| 0 <= i < old(cannons).len() ==> (#[trigger] old(cannons)[i]).wf(),
    ensures
        requests@ == old(cannons)@.filter(firing(delta_nanos as nat)).map_values(shot()),
        final(cannons).len() == old(cannons).len(),
        forall|i: int|
            0 <= i < old(cannons).len() ==> is_ticked(
                old(cannons)[i],
                #[trigger] final(cannons)[i],
                delta_nanos as nat,
            ),
        forall|i: int|
            0 <= i < requests.len() ==> (#[trigger] requests[i]).position.in_range()
                && requests[i].direction.in_range(),
{
    let ghost before = cannons@;
    let ghost delta = delta_nanos as nat;
    let ghost fire = firing(delta);
    let mut requests: Vec<LaunchMissile> = Vec::new();
    let mut i: usize = 0;
    proof {
        assert(before.take(0) == Seq::<Cannon>::empty());
        before.take(0).lemma_all_neg_filter_empty(fire);
        assert(before.take(0).filter(fire).map_values(shot()) == Seq::<LaunchMissile>::empty());
    }
    while i < cannons.len()
        invariant
            before == old(cannons)@,
            delta == delta_nanos as nat,
            fire == firing(delta),
            i <= cannons.len(),
            cannons.len() == before.len(),
            forall|j: int| 0 <= j < before.len() ==> (#[trigger] before[j]).wf(),
            forall|j: int| i <= j < before.len() ==> #[trigger] cannons[j] == before[j],
            forall|j: int| 0 <= j < i ==> is_ticked(before[j], #[trigger] cannons[j], delta),
            requests@ == before.take(i as int).filter(fire).map_values(shot()),
            forall|j: int|
                0 <= j < requests.len() ==> (#[trigger] requests[j]).position.in_range()
                    && requests[j].direction.in_range(),
        decreases cannons.len() - i,
    {
        let ghost subject = before[i as int];
        proof {
            assert(cannons[i as int] == subject);
            assert(subject.wf());
            before.lemma_take_succ_push(i as int);
            before.take(i as int).lemma_filter_push(subject, fire);
        }
        match cannons[i].tick(delta_nanos) {
            Some(request) => {
                requests.push(request);
                proof {
                    assert(fire(subject));
                    assert(requests@ =~= before.take(i + 1).filter(fire).map_values(shot()));
                }
            },
            None => {
                assert(!fire(subject));
            },
        }
        i += 1;
    }
    proof {
        assert(before.take(before.len() as int) == before);
    }
    requests
}

} // verus!
