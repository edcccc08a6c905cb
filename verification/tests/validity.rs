use bevy::time::{Timer, TimerMode};
use maze_of_many_missiles::cannon::{Cannon, FireEvery};
use maze_of_many_missiles::explosion::{start_explosion, StartExplosion};
use maze_of_many_missiles::fixed::{Vec2, COORD_MAX};
use maze_of_many_missiles::force::Pushable;
use maze_of_many_missiles::missile::{launch_missile, LaunchMissile, MissileConfig};
use maze_of_many_missiles::timer::{is_repeating, is_tickable};
use std::time::Duration;

#[test]
fn vectors_within_and_outside_the_range() {
    assert!(Vec2 { x: 0, y: 0 }.is_in_range());
    assert!(Vec2 { x: COORD_MAX, y: -COORD_MAX }.is_in_range());
    assert!(!Vec2 { x: COORD_MAX + 1, y: 0 }.is_in_range());
    assert!(!Vec2 { x: 0, y: -COORD_MAX - 1 }.is_in_range());
    assert!(!Vec2 { x: i64::MIN, y: i64::MAX }.is_in_range());
}

#[test]
fn limits_that_are_valid() {
    assert!(MissileConfig::standard().is_valid());
    let mut config = MissileConfig::standard();
    config.angular_acceleration = 0;
    assert!(!config.is_valid());
    config.angular_acceleration = COORD_MAX + 1;
    assert!(!config.is_valid());
    config.angular_acceleration = COORD_MAX;
    assert!(config.is_valid());
    config.speed = -1;
    assert!(!config.is_valid());
}

#[test]
fn missiles_that_are_valid() {
    let request = LaunchMissile { level: 1, position: Vec2::zero(), direction: Vec2::unit_x() };
    let missile = launch_missile(1, &request);
    assert!(missile.is_valid());
    let mut far = missile;
    far.position.x = COORD_MAX + 1;
    assert!(!far.is_valid());
    let mut fast = missile;
    fast.velocity.linvel.y = -COORD_MAX - 1;
    assert!(!fast.is_valid());
    let mut skewed = missile;
    skewed.forward.x = i64::MAX;
    assert!(!skewed.is_valid());
    let mut slow = missile;
    slow.config.speed = 0;
    assert!(!slow.is_valid());
    // The angular velocity knows no range.
    let mut spinning = missile;
    spinning.velocity.angvel = i64::MIN;
    assert!(spinning.is_valid());
}

#[test]
fn bodies_that_are_valid() {
    let body = Pushable { entity: 1, position: Vec2::zero(), linvel: Vec2::zero() };
    assert!(body.is_valid());
    assert!(!Pushable { position: Vec2 { x: 0, y: COORD_MAX + 1 }, ..body }.is_valid());
    assert!(!Pushable { linvel: Vec2 { x: -COORD_MAX - 1, y: 0 }, ..body }.is_valid());
}

#[test]
fn timers_that_can_be_ticked() {
    let timer = Timer::new(Duration::from_millis(300), TimerMode::Once);
    assert!(is_tickable(&timer));
    assert!(!is_repeating(&timer));
    let repeating = Timer::new(Duration::from_millis(300), TimerMode::Repeating);
    assert!(is_tickable(&repeating));
    assert!(is_repeating(&repeating));
    let mut paused = timer.clone();
    paused.pause();
    assert!(!is_tickable(&paused));
    assert!(!is_tickable(&Timer::new(Duration::ZERO, TimerMode::Once)));
    assert!(is_tickable(&Timer::new(Duration::from_nanos(u64::MAX), TimerMode::Once)));
    assert!(!is_tickable(&Timer::new(Duration::from_secs(u64::MAX), TimerMode::Once)));
    let mut overrun = timer.clone();
    overrun.set_elapsed(Duration::from_millis(301));
    assert!(!is_tickable(&overrun));
    let mut full = timer.clone();
    full.set_elapsed(Duration::from_millis(300));
    assert!(is_tickable(&full));
}

#[test]
fn explosions_that_are_going_on() {
    let request = StartExplosion { level: 1, position: Vec2::zero() };
    let explosion = start_explosion(1, &request);
    assert!(explosion.is_going_on());
    let mut ended = start_explosion(1, &request);
    assert!(ended.tick(300_000_000));
    assert!(!ended.is_going_on());
    let mut paused = start_explosion(1, &request);
    paused.timer.pause();
    assert!(!paused.is_going_on());
    let mut repeating = start_explosion(1, &request);
    repeating.timer.set_mode(TimerMode::Repeating);
    assert!(!repeating.is_going_on());
    let mut full = start_explosion(1, &request);
    full.timer.set_elapsed(Duration::from_millis(300));
    assert!(!full.is_going_on());
    let mut far = start_explosion(1, &request);
    far.position.x = COORD_MAX + 1;
    assert!(!far.is_going_on());
    let mut aged = start_explosion(1, &request);
    assert!(!aged.tick(299_999_999));
    assert!(aged.is_going_on());
}

#[test]
fn cannons_that_are_ready() {
    assert!(FireEvery::with_head_start(0).is_running());
    assert!(FireEvery::with_head_start(u64::MAX).is_running());
    assert!(!FireEvery(Timer::new(Duration::from_millis(500), TimerMode::Once)).is_running());
    assert!(!FireEvery(Timer::default()).is_running());
    let mut paused = FireEvery::with_head_start(0);
    paused.0.pause();
    assert!(!paused.is_running());
    let cannon = Cannon {
        level: 1,
        position: Vec2::zero(),
        direction: Vec2::unit_x(),
        fire_every: FireEvery::with_head_start(0),
    };
    assert!(cannon.is_ready());
    let far = Cannon { position: Vec2 { x: COORD_MAX + 1, y: 0 }, ..cannon };
    assert!(!far.is_ready());
    let stopped = Cannon {
        level: 1,
        position: Vec2::zero(),
        direction: Vec2::unit_x(),
        fire_every: FireEvery(Timer::default()),
    };
    assert!(!stopped.is_ready());
}

#[test]
fn ticking_a_cannon_and_an_explosion_by_themselves() {
    let mut cannon = Cannon {
        level: 1,
        position: Vec2::zero(),
        direction: Vec2 { x: 0, y: 1_000_000 },
        fire_every: FireEvery::with_head_start(400_000_000),
    };
    assert_eq!(cannon.tick(99_999_999), None);
    let request = cannon.tick(1).unwrap();
    assert_eq!(request.position, Vec2 { x: 0, y: 1_500_000 });
    assert_eq!(request.direction, Vec2 { x: 0, y: 1_000_000 });
    assert_eq!(request.level, 1);
    assert_eq!(cannon.tick(0), None);
    let mut explosion = start_explosion(1, &StartExplosion { level: 1, position: Vec2::zero() });
    assert!(!explosion.tick(150_000_000));
    assert_eq!(explosion.scale, 5_502_018);
    assert_eq!(explosion.elapsed(), 150_000_000);
    assert!(explosion.tick(150_000_000));
}
