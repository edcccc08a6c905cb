//! What the player's figure is told to do, from what the player presses.
//!
//! Reading the keys and the sticks and moving the figure is the caller's
//! part. Each tick it reports what is pressed and what the figure has just
//! done in the air, and gets back how the figure should walk, jump and dash.

use crate::fixed::div_trunc;
use crate::fixed::lemma_trunc_div_bounds;
use crate::fixed::trunc_div;
use crate::fixed::UNIT;
use crate::player::PlayerFacing;
use vstd::prelude::*;

verus! {

/// A second press counts as a double click when it follows the release by
/// less than a tenth of a second, in nanoseconds.
pub const DOUBLE_CLICK_WINDOW: u64 = 100_000_000;

/// The stick counts as pushed to a side from a tenth of its way on.
pub const RUN_DEAD_ZONE: i64 = 100_000;

/// Speed of running with the stick pushed all the way: 20 units per second.
pub const RUN_SPEED: i64 = 20_000_000;

/// Height at which the figure floats over the ground: one and a half units.
pub const FLOAT_HEIGHT: i64 = 1_500_000;

/// Distance over which the figure clings to the ground: half a unit.
pub const CLING_DISTANCE: i64 = 500_000;

/// Height of a jump from the ground with the button fully pressed: 5 units.
pub const JUMP_HEIGHT: i64 = 5_000_000;

/// Height of the second jump, in the air: 4 units.
pub const AIR_JUMP_HEIGHT: i64 = 4_000_000;

/// Length of a dash: 10 units.
pub const DASH_DISPLACEMENT: i64 = 10_000_000;

/// Speed of a dash: 120 units per second.
pub const DASH_SPEED: i64 = 120_000_000;

/// Speed that a dash brakes to at its end: 40 units per second.
pub const DASH_BRAKE_TO_SPEED: i64 = 40_000_000;

/// Acceleration into a dash: 800 units per second squared.
pub const DASH_ACCELERATION: i64 = 800_000_000;

/// What the figure is doing in the air, as far as it counts.
#[derive(Clone, Copy, Debug, PartialEq, Eq, Structural)]
pub enum CurrentAirAction {
    NoAction,
    Jump,
    Dash,
}

/// An action that the figure can begin in the air.
#[derive(Clone, Copy, Debug, PartialEq, Eq, Structural)]
pub enum AirAction {
    /// A jump, from the ground or in the air.
    Jump,
    Dash,
    /// Anything else, which is not counted.
    Other,
}

/// What has changed about the figure's flight since the last tick.
#[derive(Clone, Copy, Debug, PartialEq, Eq, Structural)]
pub enum AirActionsUpdate {
    NoChange,
    FreeFallStarted,
    AirActionStarted(AirAction),
    ActionFinishedInAir,
    JustLanded,
}

/// Counts the jumps and dashes that the figure has made since it left the
/// ground.
#[derive(Clone, Copy, Debug, PartialEq, Eq, Structural)]
pub struct PlayerAirCounters {
    pub current: CurrentAirAction,
    pub jumps: usize,
    pub dashes: usize,
}

impl PlayerAirCounters {
    /// The action that is going on has been counted.
    pub open spec fn wf(self) -> bool {
        &&& self.current is Jump ==> self.jumps >= 1
        &&& self.current is Dash ==> self.dashes >= 1
    }

    /// The counters after a change of the figure's flight.
    pub open spec fn updated(self, update: AirActionsUpdate) -> PlayerAirCounters {
        match update {
            AirActionsUpdate::NoChange => self,
            AirActionsUpdate::FreeFallStarted => PlayerAirCounters {
                current: CurrentAirAction::NoAction,
                ..self
            },
            AirActionsUpdate::AirActionStarted(AirAction::Jump) => PlayerAirCounters {
                current: CurrentAirAction::Jump,
                jumps: (self.jumps + 1) as usize,
                ..self
            },
            AirActionsUpdate::AirActionStarted(AirAction::Dash) => PlayerAirCounters {
                current: CurrentAirAction::Dash,
                dashes: (self.dashes + 1) as usize,
                ..self
            },
            AirActionsUpdate::AirActionStarted(AirAction::Other) => self,
            AirActionsUpdate::ActionFinishedInAir => PlayerAirCounters {
                current: CurrentAirAction::NoAction,
                ..self
            },
            AirActionsUpdate::JustLanded => PlayerAirCounters {
                current: CurrentAirAction::NoAction,
                jumps: 0,
                dashes: 0,
            },
        }
    }

    /// The jumps that are over: the jump that is going on does not count.
    pub open spec fn jumps_done(self) -> int {
        if self.current is Jump {
            self.jumps - 1
        } else {
            self.jumps as int
        }
    }

    /// The dashes that are over: the dash that is going on does not count.
    pub open spec fn dashes_done(self) -> int {
        if self.current is Dash {
            self.dashes - 1
        } else {
            self.dashes as int
        }
    }

    /// The counters of a figure on the ground.
    pub fn new() -> (counters: PlayerAirCounters)
        ensures
            counters == (PlayerAirCounters { current: CurrentAirAction::NoAction, jumps: 0, dashes: 0 }),
            counters.wf(),
    {
        PlayerAirCounters { current: CurrentAirAction::NoAction, jumps: 0, dashes: 0 }
    }

    /// Takes note of a change of the figure's flight.
    pub fn update(&mut self, update: AirActionsUpdate)
        requires
            old(self).wf(),
            old(self).jumps < usize::MAX,
            old(self).dashes < usize::MAX,
        ensures
            *final(self) == old(self).updated(update),
            final(self).wf(),
    {
        match update {
            AirActionsUpdate::NoChange => {},
            AirActionsUpdate::FreeFallStarted => {
                self.current = CurrentAirAction::NoAction;
            },
            AirActionsUpdate::AirActionStarted(action) => {
                match action {
                    AirAction::Jump => {
                        self.current = CurrentAirAction::Jump;
                        self.jumps += 1;
                    },
                    AirAction::Dash => {
                        self.current = CurrentAirAction::Dash;
                        self.dashes += 1;
                    },
                    AirAction::Other => {},
                }
            },
            AirActionsUpdate::ActionFinishedInAir => {
                self.current = CurrentAirAction::NoAction;
            },
            AirActionsUpdate::JustLanded => {
                self.current = CurrentAirAction::NoAction;
                self.jumps = 0;
                self.dashes = 0;
            },
        }
    }

    /// The number of jumps that are over.
    pub fn jump_count(&self) -> (count: usize)
        requires
            self.wf(),
        ensures
            count == self.jumps_done(),
    {
        if matches!(self.current, CurrentAirAction::Jump) {
            self.jumps - 1
        } else {
            self.jumps
        }
    }

    /// The number of dashes that are over.
    pub fn dash_count(&self) -> (count: usize)
        requires
            self.wf(),
        ensures
            count == self.dashes_done(),
    {
        if matches!(self.current, CurrentAirAction::Dash) {
            self.dashes - 1
        } else {
            self.dashes
        }
    }
}

/// Tells a double click on one side of the stick from a single one.
///
/// Each tick the detector is first told that time has passed and then, if the
/// side is held, that it is. A side that is let go and pressed again within
/// [`DOUBLE_CLICK_WINDOW`] becomes active, and stays so while it is held.
#[derive(Clone, Copy, Debug, PartialEq, Eq, Structural)]
pub enum DoubleClickDetector {
    /// Not pressed for a long time.
    Idle,
    /// Held in this tick.
    Pressed,
    /// Held in the last tick; whether it still is will show.
    Maybe,
    /// Held in this tick after a double click.
    Active,
    /// Held after a double click in the last tick; whether it still is will
    /// show.
    MaybeActive,
    /// Let go, this many nanoseconds ago.
    Pending(u64),
}

impl DoubleClickDetector {
    /// The detector after `delta` nanoseconds have passed. The time since the
    /// side was let go stops counting at the largest `u64`.
    pub open spec fn ticked(self, delta: u64) -> DoubleClickDetector {
        match self {
            DoubleClickDetector::Idle => DoubleClickDetector::Idle,
            DoubleClickDetector::Pressed => DoubleClickDetector::Maybe,
            DoubleClickDetector::Maybe => DoubleClickDetector::Pending(delta),
            DoubleClickDetector::Active => DoubleClickDetector::MaybeActive,
            DoubleClickDetector::MaybeActive => DoubleClickDetector::Idle,
            DoubleClickDetector::Pending(since) => DoubleClickDetector::Pending(
                if since + delta > u64::MAX {
                    u64::MAX
                } else {
                    (since + delta) as u64
                },
            ),
        }
    }

    /// The detector after it was told that the side is held.
    pub open spec fn pressed(self) -> DoubleClickDetector {
        match self {
            DoubleClickDetector::Idle => DoubleClickDetector::Pressed,
            DoubleClickDetector::Maybe => DoubleClickDetector::Pressed,
            DoubleClickDetector::Pressed => DoubleClickDetector::Pressed,
            DoubleClickDetector::Active => DoubleClickDetector::Active,
            DoubleClickDetector::MaybeActive => DoubleClickDetector::Active,
            DoubleClickDetector::Pending(since) => if since < DOUBLE_CLICK_WINDOW {
                DoubleClickDetector::Active
            } else {
                DoubleClickDetector::Pressed
            },
        }
    }

    /// Takes note that `time_delta` nanoseconds have passed.
    pub fn update(&mut self, time_delta: u64)
        ensures
            *final(self) == old(self).ticked(time_delta),
    {
        let next = match *self {
            DoubleClickDetector::Idle => DoubleClickDetector::Idle,
            DoubleClickDetector::Pressed => DoubleClickDetector::Maybe,
            DoubleClickDetector::Maybe => DoubleClickDetector::Pending(time_delta),
            DoubleClickDetector::Active => DoubleClickDetector::MaybeActive,
            DoubleClickDetector::MaybeActive => DoubleClickDetector::Idle,
            DoubleClickDetector::Pending(since) => DoubleClickDetector::Pending(
                since.saturating_add(time_delta),
            ),
        };
        *self = next;
    }

    /// Takes note that the side is held in this tick.
    pub fn update_pressed(&mut self)
        ensures
            *final(self) == old(self).pressed(),
    {
        let next = match *self {
            DoubleClickDetector::Idle | DoubleClickDetector::Maybe => DoubleClickDetector::Pressed,
            DoubleClickDetector::Pressed => DoubleClickDetector::Pressed,
            DoubleClickDetector::Active => DoubleClickDetector::Active,
            DoubleClickDetector::MaybeActive => DoubleClickDetector::Active,
            DoubleClickDetector::Pending(since) => {
                if since < DOUBLE_CLICK_WINDOW {
                    DoubleClickDetector::Active
                } else {
                    DoubleClickDetector::Pressed
                }
            },
        };
        *self = next;
    }

    /// Whether the side is held after a double click.
    pub fn is_active(&self) -> (active: bool)
        ensures
            active == (*self is Active),
    {
        matches!(self, DoubleClickDetector::Active)
    }
}

/// The detectors of the two sides of the stick.
#[derive(Clone, Copy, Debug, PartialEq, Eq, Structural)]
pub struct DoubleClickInputs {
    pub left: DoubleClickDetector,
    pub right: DoubleClickDetector,
}

impl DoubleClickInputs {
    /// Detectors of a stick that was not touched.
    pub fn new() -> (inputs: DoubleClickInputs)
        ensures
            inputs == (DoubleClickInputs {
                left: DoubleClickDetector::Idle,
                right: DoubleClickDetector::Idle,
            }),
    {
        DoubleClickInputs { left: DoubleClickDetector::Idle, right: DoubleClickDetector::Idle }
    }

    /// Takes note that `time_delta` nanoseconds have passed.
    pub fn update(&mut self, time_delta: u64)
        ensures
            final(self).left == old(self).left.ticked(time_delta),
            final(self).right == old(self).right.ticked(time_delta),
    {
        self.left.update(time_delta);
        self.right.update(time_delta);
    }
}

/// What the player presses in a tick.
#[derive(Clone, Copy, Debug, PartialEq, Eq, Structural)]
pub struct ControlInput {
    /// How far the stick is pushed sideways, from -1 on the left to 1 on the
    /// right, if it is there at all.
    pub run: Option<i64>,
    /// How far the jump button is pressed, from 0 to 1.
    pub jump: i64,
}

impl ControlInput {
    /// The stick and the button are within their ways.
    pub open spec fn wf(self) -> bool {
        &&& self.run matches Some(run) ==> -UNIT <= run <= UNIT
        &&& 0 <= self.jump <= UNIT
    }
}

/// How the figure should walk.
#[derive(Clone, Copy, Debug, PartialEq, Eq, Structural)]
pub struct Walk {
    /// Speed along the first axis.
    pub desired_velocity: i64,
    pub float_height: i64,
    pub cling_distance: i64,
}

/// A jump that the figure should make.
#[derive(Clone, Copy, Debug, PartialEq, Eq, Structural)]
pub struct Jump {
    pub height: i64,
    pub allow_in_air: bool,
    /// Whether this is the second jump, in the air.
    pub air_jump: bool,
}

/// A dash that the figure should make.
#[derive(Clone, Copy, Debug, PartialEq, Eq, Structural)]
pub struct Dash {
    /// Length along the first axis, negative to the left.
    pub displacement: i64,
    pub allow_in_air: bool,
    pub speed: i64,
    pub brake_to_speed: i64,
    pub acceleration: i64,
}

/// Everything the figure is told in a tick.
#[derive(Clone, Copy, Debug, PartialEq, Eq, Structural)]
pub struct Controls {
    pub walk: Walk,
    pub jump: Option<Jump>,
    pub dash_left: Option<Dash>,
    pub dash_right: Option<Dash>,
}

/// What is remembered about the player's figure from tick to tick.
#[derive(Clone, Copy, Debug, PartialEq, Eq, Structural)]
pub struct PlayerControlState {
    pub facing: PlayerFacing,
    pub air_counters: PlayerAirCounters,
    pub double_click_inputs: DoubleClickInputs,
}

/// The side that the stick is pushed to, if it is pushed past the dead zone.
pub open spec fn pushed_side(input: ControlInput) -> Option<PlayerFacing> {
    match input.run {
        Some(run) => if run <= -RUN_DEAD_ZONE {
            Some(PlayerFacing::Left)
        } else if RUN_DEAD_ZONE <= run {
            Some(PlayerFacing::Right)
        } else {
            None
        },
        None => None,
    }
}

/// What is remembered after a tick: the flight is counted, time has passed
/// for both sides of the stick, and the side that the stick is pushed to is
/// held and faced.
pub open spec fn state_after(
    state: PlayerControlState,
    air_update: AirActionsUpdate,
    input: ControlInput,
    delta: u64,
) -> PlayerControlState {
    let left = state.double_click_inputs.left.ticked(delta);
    let right = state.double_click_inputs.right.ticked(delta);
    let side = pushed_side(input);
    PlayerControlState {
        facing: match side {
            Some(side) => side,
            None => state.facing,
        },
        air_counters: state.air_counters.updated(air_update),
        double_click_inputs: DoubleClickInputs {
            left: if side == Some(PlayerFacing::Left) {
                left.pressed()
            } else {
                left
            },
            right: if side == Some(PlayerFacing::Right) {
                right.pressed()
            } else {
                right
            },
        },
    }
}

/// How the figure should walk: at [`RUN_SPEED`] times the push of the stick.
pub open spec fn walk_for(input: ControlInput) -> Walk {
    Walk {
        desired_velocity: match input.run {
            Some(run) => trunc_div(RUN_SPEED * run, UNIT as int) as i64,
            None => 0,
        },
        float_height: FLOAT_HEIGHT,
        cling_distance: CLING_DISTANCE,
    }
}

/// The jump that the figure should make: none unless the button is pressed;
/// after exactly one jump that is over, a second one in the air; else a jump
/// from the ground. The height goes with the press of the button.
pub open spec fn jump_for(counters: PlayerAirCounters, input: ControlInput) -> Option<Jump> {
    if 0 < input.jump {
        if counters.jumps_done() == 1 {
            Some(
                Jump {
                    height: trunc_div(AIR_JUMP_HEIGHT * input.jump, UNIT as int) as i64,
                    allow_in_air: true,
                    air_jump: true,
                },
            )
        } else {
            Some(
                Jump {
                    height: trunc_div(JUMP_HEIGHT * input.jump, UNIT as int) as i64,
                    allow_in_air: false,
                    air_jump: false,
                },
            )
        }
    } else {
        None
    }
}

/// The dash toward one side, if that side is held after a double click. It
/// may begin in the air as long as no dash is over since the figure left the
/// ground.
pub open spec fn dash_for(
    detector: DoubleClickDetector,
    counters: PlayerAirCounters,
    sign: int,
) -> Option<Dash> {
    if detector is Active {
        Some(
            Dash {
                displacement: (sign * DASH_DISPLACEMENT) as i64,
                allow_in_air: counters.dashes_done() < 1,
                speed: DASH_SPEED,
                brake_to_speed: DASH_BRAKE_TO_SPEED,
                acceleration: DASH_ACCELERATION,
            },
        )
    } else {
        None
    }
}

/// Everything the figure is told in a tick, from what is remembered after
/// it.
pub open spec fn controls_for(state: PlayerControlState, input: ControlInput) -> Controls {
    Controls {
        walk: walk_for(input),
        jump: jump_for(state.air_counters, input),
        dash_left: dash_for(state.double_click_inputs.left, state.air_counters, -1),
        dash_right: dash_for(state.double_click_inputs.right, state.air_counters, 1),
    }
}

/// Scales a setting by how far a control is pushed.
fn scaled(setting: i64, push: i64) -> (scaled: i64)
    requires
        0 <= setting <= 1_000_000_000_000,
        -UNIT <= push <= UNIT,
    ensures
        scaled == trunc_div(setting * push, UNIT as int),
{
    assert(-1_000_000_000_000_000_000 <= setting * push <= 1_000_000_000_000_000_000)
        by (nonlinear_arith)
        requires
            0 <= setting <= 1_000_000_000_000,
            -1_000_000 <= push <= 1_000_000,
    ;
    let product: i128 = setting as i128 * push as i128;
    proof {
        lemma_trunc_div_bounds(product as int, UNIT as int);
    }
    div_trunc(product, UNIT as i128) as i64
}

/// Decides what the player's figure is told in a tick.
///
/// `air_update` is what has changed about the figure's flight since the last
/// tick, and `delta_nanos` the tick's duration.
pub fn apply_controls(
    delta_nanos: u64,
    air_update: AirActionsUpdate,
    input: &ControlInput,
    state: &mut PlayerControlState,
) -> (controls: Controls)
    requires
        input.wf(),
        old(state).air_counters.wf(),
        old(state).air_counters.jumps < usize::MAX,
        old(state).air_counters.dashes < usize::MAX,
    ensures
        *final(state) == state_after(*old(state), air_update, *input, delta_nanos),
        controls == controls_for(*final(state), *input),
        final(state).air_counters.wf(),
{
    state.air_counters.update(air_update);
    state.double_click_inputs.update(delta_nanos);
    let desired_velocity: i64 = match input.run {
        Some(run) => {
            if run <= -RUN_DEAD_ZONE {
                state.facing = PlayerFacing::Left;
                state.double_click_inputs.left.update_pressed();
            } else if RUN_DEAD_ZONE <= run {
                state.facing = PlayerFacing::Right;
                state.double_click_inputs.right.update_pressed();
            }
            scaled(RUN_SPEED, run)
        },
        None => 0,
    };
    let walk = Walk {
        desired_velocity,
        float_height: FLOAT_HEIGHT,
        cling_distance: CLING_DISTANCE,
    };
    let jump = if 0 < input.jump {
        if state.air_counters.jump_count() == 1 {
            Some(Jump { height: scaled(AIR_JUMP_HEIGHT, input.jump), allow_in_air: true, air_jump: true })
        } else {
            Some(Jump { height: scaled(JUMP_HEIGHT, input.jump), allow_in_air: false, air_jump: false })
        }
    } else {
        None
    };
    let allow_in_air = state.air_counters.dash_count() < 1;
    let dash_left = if state.double_click_inputs.left.is_active() {
        Some(
            Dash {
                displacement: -DASH_DISPLACEMENT,
                allow_in_air,
                speed: DASH_SPEED,
                brake_to_speed: DASH_BRAKE_TO_SPEED,
                acceleration: DASH_ACCELERATION,
            },
        )
    } else {
        None
    };
    let dash_right = if state.double_click_inputs.right.is_active() {
        Some(
            Dash {
                displacement: DASH_DISPLACEMENT,
                allow_in_air,
                speed: DASH_SPEED,
                brake_to_speed: DASH_BRAKE_TO_SPEED,
                acceleration: DASH_ACCELERATION,
            },
        )
    } else {
        None
    };
    Controls { walk, jump, dash_left, dash_right }
}

/// A side that is pressed again less than [`DOUBLE_CLICK_WINDOW`] after it
/// was let go becomes active.
pub proof fn lemma_quick_second_press_activates(since: u64, delta: u64)
    requires
        since + delta < DOUBLE_CLICK_WINDOW,
    ensures
        DoubleClickDetector::Pending(since).ticked(delta).pressed() is Active,
{
}

/// A side that is pressed again later than that is pressed like the first
/// time.
pub proof fn lemma_slow_second_press_does_not_activate(since: u64, delta: u64)
    requires
        since + delta >= DOUBLE_CLICK_WINDOW,
    ensures
        DoubleClickDetector::Pending(since).ticked(delta).pressed() is Pressed,
{
}

/// An active side stays active for as long as it is held, tick after tick,
/// and is idle again two ticks after it was let go.
pub proof fn lemma_active_while_held(first: u64, second: u64)
    ensures
        DoubleClickDetector::Active.ticked(first).pressed() is Active,
        DoubleClickDetector::Active.ticked(first).ticked(second) is Idle,
{
}

/// A single press, however long it is held, never activates: from rest, a
/// side becomes active only through being let go.
pub proof fn lemma_holding_does_not_activate(detector: DoubleClickDetector, delta: u64)
    requires
        detector is Idle || detector is Pressed,
    ensures
        detector.ticked(delta).pressed() is Pressed,
{
}

/// On landing the figure has all its jumps and dashes again.
pub proof fn lemma_landing_resets(counters: PlayerAirCounters)
    ensures
        counters.updated(AirActionsUpdate::JustLanded).jumps_done() == 0,
        counters.updated(AirActionsUpdate::JustLanded).dashes_done() == 0,
{
}

} // verus!
