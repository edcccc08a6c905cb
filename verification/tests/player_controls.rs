use maze_of_many_missiles::fixed::UNIT;
use maze_of_many_missiles::player::PlayerFacing;
use maze_of_many_missiles::player_controls::{
    apply_controls, AirAction, AirActionsUpdate, ControlInput, Controls, CurrentAirAction, Dash,
    DoubleClickDetector, DoubleClickInputs, Jump, PlayerAirCounters, PlayerControlState, Walk,
};

const TICK: u64 = 16_000_000;

fn fresh() -> PlayerControlState {
    PlayerControlState {
        facing: PlayerFacing::Right,
        air_counters: PlayerAirCounters::new(),
        double_click_inputs: DoubleClickInputs::new(),
    }
}

fn walk(desired_velocity: i64) -> Walk {
    Walk { desired_velocity, float_height: 1_500_000, cling_distance: 500_000 }
}

fn dash(displacement: i64, allow_in_air: bool) -> Dash {
    Dash {
        displacement,
        allow_in_air,
        speed: 120_000_000,
        brake_to_speed: 40_000_000,
        acceleration: 800_000_000,
    }
}

#[test]
fn counting_jumps_and_dashes() {
    let mut counters = PlayerAirCounters::new();
    assert_eq!((counters.jump_count(), counters.dash_count()), (0, 0));
    counters.update(AirActionsUpdate::AirActionStarted(AirAction::Jump));
    assert_eq!(counters.current, CurrentAirAction::Jump);
    assert_eq!(counters.jumps, 1);
    // The jump that is going on does not count yet.
    assert_eq!(counters.jump_count(), 0);
    counters.update(AirActionsUpdate::NoChange);
    assert_eq!(counters.jump_count(), 0);
    counters.update(AirActionsUpdate::ActionFinishedInAir);
    assert_eq!(counters.jump_count(), 1);
    counters.update(AirActionsUpdate::AirActionStarted(AirAction::Dash));
    assert_eq!((counters.jump_count(), counters.dash_count()), (1, 0));
    counters.update(AirActionsUpdate::FreeFallStarted);
    assert_eq!((counters.jump_count(), counters.dash_count()), (1, 1));
    counters.update(AirActionsUpdate::AirActionStarted(AirAction::Other));
    assert_eq!((counters.jump_count(), counters.dash_count()), (1, 1));
    assert_eq!(counters.current, CurrentAirAction::NoAction);
    counters.update(AirActionsUpdate::AirActionStarted(AirAction::Jump));
    assert_eq!((counters.jump_count(), counters.dash_count()), (1, 1));
    counters.update(AirActionsUpdate::JustLanded);
    assert_eq!(counters, PlayerAirCounters::new());
}

#[test]
fn steps_of_the_double_click_detector() {
    let mut detector = DoubleClickDetector::Idle;
    detector.update(TICK);
    assert_eq!(detector, DoubleClickDetector::Idle);
    detector.update_pressed();
    assert_eq!(detector, DoubleClickDetector::Pressed);
    detector.update(TICK);
    assert_eq!(detector, DoubleClickDetector::Maybe);
    detector.update(TICK);
    assert_eq!(detector, DoubleClickDetector::Pending(TICK));
    detector.update(TICK);
    assert_eq!(detector, DoubleClickDetector::Pending(2 * TICK));
    detector.update_pressed();
    assert_eq!(detector, DoubleClickDetector::Active);
    assert!(detector.is_active());
    detector.update(TICK);
    assert_eq!(detector, DoubleClickDetector::MaybeActive);
    assert!(!detector.is_active());
    detector.update_pressed();
    assert_eq!(detector, DoubleClickDetector::Active);
    detector.update_pressed();
    assert_eq!(detector, DoubleClickDetector::Active);
    detector.update(TICK);
    detector.update(TICK);
    assert_eq!(detector, DoubleClickDetector::Idle);
}

#[test]
fn the_window_of_a_double_click() {
    let mut detector = DoubleClickDetector::Pending(99_999_999);
    detector.update_pressed();
    assert_eq!(detector, DoubleClickDetector::Active);
    let mut detector = DoubleClickDetector::Pending(100_000_000);
    detector.update_pressed();
    assert_eq!(detector, DoubleClickDetector::Pressed);
    let mut detector = DoubleClickDetector::Pending(u64::MAX - 1);
    detector.update(5);
    assert_eq!(detector, DoubleClickDetector::Pending(u64::MAX));
    detector.update_pressed();
    assert_eq!(detector, DoubleClickDetector::Pressed);
    let mut detector = DoubleClickDetector::Maybe;
    detector.update_pressed();
    assert_eq!(detector, DoubleClickDetector::Pressed);
}

#[test]
fn both_sides_tick_together() {
    let mut inputs =
        DoubleClickInputs { left: DoubleClickDetector::Pressed, right: DoubleClickDetector::Active };
    inputs.update(TICK);
    assert_eq!(
        inputs,
        DoubleClickInputs { left: DoubleClickDetector::Maybe, right: DoubleClickDetector::MaybeActive }
    );
}

#[test]
fn nothing_pressed() {
    let mut state = fresh();
    let input = ControlInput { run: None, jump: 0 };
    let controls = apply_controls(TICK, AirActionsUpdate::NoChange, &input, &mut state);
    assert_eq!(controls, Controls { walk: walk(0), jump: None, dash_left: None, dash_right: None });
    assert_eq!(state, fresh());
}

#[test]
fn running_turns_the_figure() {
    let mut state = fresh();
    let input = ControlInput { run: Some(-UNIT), jump: 0 };
    let controls = apply_controls(TICK, AirActionsUpdate::NoChange, &input, &mut state);
    assert_eq!(controls.walk, walk(-20_000_000));
    assert_eq!(state.facing, PlayerFacing::Left);
    assert_eq!(state.double_click_inputs.left, DoubleClickDetector::Pressed);
    assert_eq!(state.double_click_inputs.right, DoubleClickDetector::Idle);
    let input = ControlInput { run: Some(500_000), jump: 0 };
    let controls = apply_controls(TICK, AirActionsUpdate::NoChange, &input, &mut state);
    assert_eq!(controls.walk, walk(10_000_000));
    assert_eq!(state.facing, PlayerFacing::Right);
    assert_eq!(state.double_click_inputs.left, DoubleClickDetector::Maybe);
    assert_eq!(state.double_click_inputs.right, DoubleClickDetector::Pressed);
}

#[test]
fn the_dead_zone_of_the_stick() {
    let mut state = fresh();
    state.facing = PlayerFacing::Left;
    let input = ControlInput { run: Some(99_999), jump: 0 };
    let controls = apply_controls(TICK, AirActionsUpdate::NoChange, &input, &mut state);
    // The figure still moves, but neither turns nor counts as pressing a side.
    assert_eq!(controls.walk, walk(1_999_980));
    assert_eq!(state.facing, PlayerFacing::Left);
    assert_eq!(state.double_click_inputs, DoubleClickInputs::new());
    let input = ControlInput { run: Some(100_000), jump: 0 };
    apply_controls(TICK, AirActionsUpdate::NoChange, &input, &mut state);
    assert_eq!(state.facing, PlayerFacing::Right);
    let input = ControlInput { run: Some(-100_000), jump: 0 };
    apply_controls(TICK, AirActionsUpdate::NoChange, &input, &mut state);
    assert_eq!(state.facing, PlayerFacing::Left);
}

#[test]
fn jumping_from_the_ground_and_in_the_air() {
    let mut state = fresh();
    let input = ControlInput { run: None, jump: UNIT };
    let controls = apply_controls(TICK, AirActionsUpdate::NoChange, &input, &mut state);
    assert_eq!(controls.jump, Some(Jump { height: 5_000_000, allow_in_air: false, air_jump: false }));
    // The jump has begun and is not over.
    let started = AirActionsUpdate::AirActionStarted(AirAction::Jump);
    let controls = apply_controls(TICK, started, &input, &mut state);
    assert_eq!(controls.jump, Some(Jump { height: 5_000_000, allow_in_air: false, air_jump: false }));
    // It is over: the next one is the jump in the air.
    let half = ControlInput { run: None, jump: 500_000 };
    let controls = apply_controls(TICK, AirActionsUpdate::ActionFinishedInAir, &half, &mut state);
    assert_eq!(controls.jump, Some(Jump { height: 2_000_000, allow_in_air: true, air_jump: true }));
    // While that one goes on, and after it, there is no third.
    let controls = apply_controls(TICK, started, &input, &mut state);
    assert_eq!(controls.jump, Some(Jump { height: 4_000_000, allow_in_air: true, air_jump: true }));
    let controls = apply_controls(TICK, AirActionsUpdate::FreeFallStarted, &input, &mut state);
    assert_eq!(controls.jump, Some(Jump { height: 5_000_000, allow_in_air: false, air_jump: false }));
    let released = ControlInput { run: None, jump: 0 };
    let controls = apply_controls(TICK, AirActionsUpdate::JustLanded, &released, &mut state);
    assert_eq!(controls.jump, None);
    assert_eq!(state.air_counters, PlayerAirCounters::new());
}

#[test]
fn a_double_click_dashes() {
    let mut state = fresh();
    let left = ControlInput { run: Some(-UNIT), jump: 0 };
    let rest = ControlInput { run: Some(0), jump: 0 };
    let no_change = AirActionsUpdate::NoChange;
    assert_eq!(apply_controls(TICK, no_change, &left, &mut state).dash_left, None);
    assert_eq!(apply_controls(TICK, no_change, &rest, &mut state).dash_left, None);
    assert_eq!(apply_controls(TICK, no_change, &rest, &mut state).dash_left, None);
    let controls = apply_controls(TICK, no_change, &left, &mut state);
    assert_eq!(controls.dash_left, Some(dash(-10_000_000, true)));
    assert_eq!(controls.dash_right, None);
    // Held: the dash is asked for again.
    let controls = apply_controls(TICK, no_change, &left, &mut state);
    assert_eq!(controls.dash_left, Some(dash(-10_000_000, true)));
    // Let go: no more.
    assert_eq!(apply_controls(TICK, no_change, &rest, &mut state).dash_left, None);
}

#[test]
fn a_slow_second_press_does_not_dash() {
    let mut state = fresh();
    let right = ControlInput { run: Some(UNIT), jump: 0 };
    let rest = ControlInput { run: None, jump: 0 };
    let no_change = AirActionsUpdate::NoChange;
    apply_controls(TICK, no_change, &right, &mut state);
    apply_controls(TICK, no_change, &rest, &mut state);
    apply_controls(60_000_000, no_change, &rest, &mut state);
    let controls = apply_controls(40_000_000, no_change, &right, &mut state);
    assert_eq!(controls.dash_right, None);
    assert_eq!(state.double_click_inputs.right, DoubleClickDetector::Pressed);
}

#[test]
fn one_dash_in_the_air() {
    let mut state = fresh();
    state.double_click_inputs.right = DoubleClickDetector::Active;
    let right = ControlInput { run: Some(UNIT), jump: 0 };
    let started = AirActionsUpdate::AirActionStarted(AirAction::Dash);
    let controls = apply_controls(TICK, started, &right, &mut state);
    assert_eq!(controls.dash_right, Some(dash(10_000_000, true)));
    let controls = apply_controls(TICK, AirActionsUpdate::ActionFinishedInAir, &right, &mut state);
    assert_eq!(controls.dash_right, Some(dash(10_000_000, false)));
    let controls = apply_controls(TICK, AirActionsUpdate::JustLanded, &right, &mut state);
    assert_eq!(controls.dash_right, Some(dash(10_000_000, true)));
}
