//! The player's figure: which way it faces and how it is animated.

use crate::fixed::div_trunc;
use crate::fixed::lemma_trunc_div_bounds;
use crate::fixed::trunc_div;
use crate::fixed::Vec3;
use crate::fixed::UNIT;
use vstd::prelude::*;

verus! {

/// The figure counts as running above this speed: a tenth of a unit per
/// second.
pub const RUNNING_THRESHOLD: i64 = 100_000;

/// Speed of the running animation for each unit per second of the figure's
/// speed: 0.35.
pub const RUNNING_ANIMATION_RATE: i64 = 350_000;

/// Speed of the standing animation: 1.
pub const STANDING_ANIMATION_SPEED: i64 = 1_000_000;

/// Speed of the jumping animation: 3.
pub const JUMPING_ANIMATION_SPEED: i64 = 3_000_000;

/// Time over which the figure eases into standing: a quarter of a second, in
/// nanoseconds.
pub const STANDING_TRANSITION: u64 = 250_000_000;

/// The side that the player's figure faces.
#[derive(Clone, Copy, Debug, PartialEq, Eq, Structural)]
pub enum PlayerFacing {
    Left,
    Right,
}

impl PlayerFacing {
    /// The direction that the figure looks in: along the first axis, toward
    /// the side that it faces.
    pub fn direction(&self) -> (direction: Vec3)
        ensures
            direction.x == match *self {
                PlayerFacing::Left => -UNIT,
                PlayerFacing::Right => UNIT as int,
            },
            direction.y == 0,
            direction.z == 0,
    {
        match self {
            PlayerFacing::Left => Vec3 { x: -UNIT, y: 0, z: 0 },
            PlayerFacing::Right => Vec3 { x: UNIT, y: 0, z: 0 },
        }
    }
}

/// What the player's figure is shown doing.
#[derive(Clone, Copy, Debug, PartialEq, Eq, Structural)]
pub enum PlayerAnimationState {
    Standing,
    /// Running, with the speed of the animation.
    Running(i64),
    Jumping,
}

impl PlayerAnimationState {
    /// Both states show the same activity, at whatever speed.
    pub open spec fn same_kind(self, other: PlayerAnimationState) -> bool {
        match (self, other) {
            (PlayerAnimationState::Standing, PlayerAnimationState::Standing) => true,
            (PlayerAnimationState::Running(_), PlayerAnimationState::Running(_)) => true,
            (PlayerAnimationState::Jumping, PlayerAnimationState::Jumping) => true,
            _ => false,
        }
    }
}

/// The speed of the running animation at a given speed of the figure.
pub open spec fn running_animation_speed(speed: int) -> int {
    trunc_div(speed * RUNNING_ANIMATION_RATE, UNIT as int)
}

/// What the figure is shown doing: jumping while it jumps; else, by its
/// speed over the ground, running or standing. Nothing can be said of a
/// figure that neither jumps nor has a speed over the ground.
pub open spec fn animation_state_of(jumping: bool, speed: Option<i64>) -> Option<
    PlayerAnimationState,
> {
    if jumping {
        Some(PlayerAnimationState::Jumping)
    } else {
        match speed {
            None => None,
            Some(speed) => if RUNNING_THRESHOLD < speed {
                Some(PlayerAnimationState::Running(running_animation_speed(speed as int) as i64))
            } else {
                Some(PlayerAnimationState::Standing)
            },
        }
    }
}

/// Decides what the figure is shown doing.
pub fn player_animation_state(jumping: bool, speed: Option<i64>) -> (state: Option<
    PlayerAnimationState,
>)
    ensures
        state == animation_state_of(jumping, speed),
        state matches Some(PlayerAnimationState::Running(rate)) ==> speed is Some && rate
            == running_animation_speed(speed->0 as int),
{
    if jumping {
        return Some(PlayerAnimationState::Jumping);
    }
    match speed {
        None => None,
        Some(speed) => {
            if RUNNING_THRESHOLD < speed {
                let product: i128 = speed as i128 * RUNNING_ANIMATION_RATE as i128;
                proof {
                    lemma_trunc_div_bounds(product as int, UNIT as int);
                }
                let rate: i128 = div_trunc(product, UNIT as i128);
                Some(PlayerAnimationState::Running(rate as i64))
            } else {
                Some(PlayerAnimationState::Standing)
            }
        },
    }
}

/// The animation clips of the figure.
#[derive(Clone, Copy, Debug, PartialEq, Eq, Structural)]
pub enum Clip {
    Stand,
    Walk,
    Jump,
}

/// What to tell the figure's animation player.
#[derive(Clone, Copy, Debug, PartialEq, Eq, Structural)]
pub enum AnimationCommand {
    /// Leave it as it is.
    Keep,
    /// Go on with the clip that plays, at another speed.
    SetSpeed(i64),
    /// Play another clip.
    Play {
        clip: Clip,
        /// Nanoseconds over which the clip eases in.
        transition: u64,
        /// Whether the clip starts over when it ends.
        repeat: bool,
        speed: i64,
    },
}

/// The command that starts showing `state`.
pub open spec fn start_of(state: PlayerAnimationState) -> AnimationCommand {
    match state {
        PlayerAnimationState::Standing => AnimationCommand::Play {
            clip: Clip::Stand,
            transition: STANDING_TRANSITION,
            repeat: false,
            speed: STANDING_ANIMATION_SPEED,
        },
        PlayerAnimationState::Running(speed) => AnimationCommand::Play {
            clip: Clip::Walk,
            transition: 0,
            repeat: true,
            speed,
        },
        PlayerAnimationState::Jumping => AnimationCommand::Play {
            clip: Clip::Jump,
            transition: 0,
            repeat: false,
            speed: JUMPING_ANIMATION_SPEED,
        },
    }
}

/// The command that goes on showing `state`: running follows the figure's
/// speed, the rest plays on as it is.
pub open spec fn continuation_of(state: PlayerAnimationState) -> AnimationCommand {
    match state {
        PlayerAnimationState::Running(speed) => AnimationCommand::SetSpeed(speed),
        _ => AnimationCommand::Keep,
    }
}

/// The command that leads from showing `previous` to showing `state`.
pub open spec fn command_for(
    previous: Option<PlayerAnimationState>,
    state: PlayerAnimationState,
) -> AnimationCommand {
    match previous {
        Some(previous) if previous.same_kind(state) => continuation_of(state),
        _ => start_of(state),
    }
}

/// Remembers what the figure is shown doing, so that a clip is started only
/// when the figure takes up something else.
#[derive(Clone, Copy, Debug, PartialEq, Eq, Structural)]
pub struct PlayerAnimator {
    pub state: Option<PlayerAnimationState>,
}

impl PlayerAnimator {
    /// An animator that shows nothing yet.
    pub fn new() -> (animator: PlayerAnimator)
        ensures
            animator.state is None,
    {
        PlayerAnimator { state: None }
    }

    /// Takes note of what the figure does now and gives the command for the
    /// animation player.
    pub fn update(&mut self, state: PlayerAnimationState) -> (command: AnimationCommand)
        ensures
            command == command_for(old(self).state, state),
            final(self).state == Some(state),
    {
        let same = match self.state {
            Some(PlayerAnimationState::Standing) => matches!(state, PlayerAnimationState::Standing),
            Some(PlayerAnimationState::Running(_)) => matches!(
                state,
                PlayerAnimationState::Running(_)
            ),
            Some(PlayerAnimationState::Jumping) => matches!(state, PlayerAnimationState::Jumping),
            None => false,
        };
        self.state = Some(state);
        if same {
            match state {
                PlayerAnimationState::Running(speed) => AnimationCommand::SetSpeed(speed),
                _ => AnimationCommand::Keep,
            }
        } else {
            match state {
                PlayerAnimationState::Standing => AnimationCommand::Play {
                    clip: Clip::Stand,
                    transition: STANDING_TRANSITION,
                    repeat: false,
                    speed: STANDING_ANIMATION_SPEED,
                },
                PlayerAnimationState::Running(speed) => AnimationCommand::Play {
                    clip: Clip::Walk,
                    transition: 0,
                    repeat: true,
                    speed,
                },
                PlayerAnimationState::Jumping => AnimationCommand::Play {
                    clip: Clip::Jump,
                    transition: 0,
                    repeat: false,
                    speed: JUMPING_ANIMATION_SPEED,
                },
            }
        }
    }
}

/// Decides how to animate the figure in this tick: nothing, when nothing can
/// be said of what it does; else the command that leads from what it was
/// shown doing to what it does now.
pub fn animate_player(animator: &mut PlayerAnimator, jumping: bool, speed: Option<i64>) -> (command:
    Option<AnimationCommand>)
    ensures
        match animation_state_of(jumping, speed) {
            None => command is None && *final(animator) == *old(animator),
            Some(state) => command == Some(command_for(old(animator).state, state))
                && final(animator).state == Some(state),
        },
{
    match player_animation_state(jumping, speed) {
        None => None,
        Some(state) => Some(animator.update(state)),
    }
}

/// While the figure goes on doing the same thing, no clip is started anew.
pub proof fn lemma_no_restart_while_same(previous: PlayerAnimationState, state: PlayerAnimationState)
    requires
        previous.same_kind(state),
    ensures
        !(command_for(Some(previous), state) is Play),
{
}

} // verus!
