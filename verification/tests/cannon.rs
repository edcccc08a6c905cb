use maze_of_many_missiles::cannon::{cannons_fire_missiles, shoot, Cannon, FireEvery, CANNON_PERIOD};
use maze_of_many_missiles::fixed::{Vec2, COORD_MAX, UNIT};
use maze_of_many_missiles::missile::LaunchMissile;
use std::time::Duration;

fn at(x: i64, y: i64) -> Vec2 {
    Vec2 { x: x * UNIT, y: y * UNIT }
}

fn cannon(level: u64, position: Vec2, direction: Vec2, head_start: u64) -> Cannon {
    Cannon { level, position, direction, fire_every: FireEvery::with_head_start(head_start) }
}

#[test]
fn a_new_timer_has_run_for_its_head_start() {
    assert_eq!(CANNON_PERIOD, 500_000_000);
    let fire_every = FireEvery::with_head_start(0);
    assert_eq!(fire_every.0.duration(), Duration::from_millis(500));
    assert_eq!(fire_every.0.elapsed(), Duration::ZERO);
    let fire_every = FireEvery::with_head_start(123_456_789);
    assert_eq!(fire_every.0.elapsed(), Duration::from_nanos(123_456_789));
    let fire_every = FireEvery::with_head_start(700_000_000);
    assert_eq!(fire_every.0.elapsed(), Duration::from_millis(200));
}

#[test]
fn a_missile_appears_in_front_of_the_cannon() {
    let cannon = cannon(4, at(10, 20), Vec2 { x: 0, y: -UNIT }, 0);
    assert_eq!(
        shoot(&cannon),
        LaunchMissile {
            level: 4,
            position: Vec2 { x: 10 * UNIT, y: 18_500_000 },
            direction: Vec2 { x: 0, y: -UNIT },
        }
    );
}

#[test]
fn a_cannon_without_direction_launches_on_the_spot() {
    let cannon = cannon(4, at(10, 20), Vec2::zero(), 0);
    assert_eq!(shoot(&cannon), LaunchMissile { level: 4, position: at(10, 20), direction: Vec2::zero() });
}

#[test]
fn the_launch_position_stops_at_the_range() {
    let cannon = cannon(4, Vec2 { x: COORD_MAX, y: 0 }, Vec2::unit_x(), 0);
    assert_eq!(shoot(&cannon).position, Vec2 { x: COORD_MAX, y: 0 });
}

#[test]
fn a_cannon_fires_every_half_second() {
    let mut cannons = vec![cannon(1, at(0, 0), Vec2::unit_x(), 0)];
    let mut shots = Vec::new();
    for tick in 1..=15 {
        let requests = cannons_fire_missiles(100_000_000, &mut cannons);
        if !requests.is_empty() {
            assert_eq!(
                requests,
                vec![LaunchMissile {
                    level: 1,
                    position: Vec2 { x: 1_500_000, y: 0 },
                    direction: Vec2::unit_x(),
                }]
            );
            shots.push(tick);
        }
    }
    assert_eq!(shots, vec![5, 10, 15]);
}

#[test]
fn head_starts_spread_the_shots() {
    let mut cannons = vec![
        cannon(1, at(0, 0), Vec2::unit_x(), 0),
        cannon(2, at(0, 1), Vec2::unit_x(), 450_000_000),
        cannon(3, at(0, 2), Vec2::unit_x(), 250_000_000),
    ];
    let levels = |requests: Vec<LaunchMissile>| -> Vec<u64> {
        requests.iter().map(|request| request.level).collect()
    };
    assert_eq!(levels(cannons_fire_missiles(100_000_000, &mut cannons)), vec![2]);
    assert_eq!(levels(cannons_fire_missiles(100_000_000, &mut cannons)), Vec::<u64>::new());
    assert_eq!(levels(cannons_fire_missiles(100_000_000, &mut cannons)), vec![3]);
    assert_eq!(levels(cannons_fire_missiles(100_000_000, &mut cannons)), Vec::<u64>::new());
    assert_eq!(levels(cannons_fire_missiles(100_000_000, &mut cannons)), vec![1]);
    assert_eq!(levels(cannons_fire_missiles(100_000_000, &mut cannons)), vec![2]);
    assert_eq!(cannons.len(), 3);
    assert_eq!(cannons[0].fire_every.0.elapsed(), Duration::from_millis(100));
    assert_eq!(cannons[1].fire_every.0.elapsed(), Duration::from_millis(50));
}

#[test]
fn a_long_tick_fires_once() {
    let mut cannons = vec![cannon(1, at(0, 0), Vec2::unit_x(), 0)];
    assert_eq!(cannons_fire_missiles(1_700_000_000, &mut cannons).len(), 1);
    assert_eq!(cannons[0].fire_every.0.elapsed(), Duration::from_millis(200));
    assert_eq!(cannons[0].fire_every.0.times_finished_this_tick(), 3);
}

#[test]
fn a_tick_without_duration_fires_nothing() {
    let mut cannons = vec![cannon(1, at(0, 0), Vec2::unit_x(), 499_999_999)];
    assert!(cannons_fire_missiles(0, &mut cannons).is_empty());
    assert_eq!(cannons_fire_missiles(1, &mut cannons).len(), 1);
    assert!(cannons_fire_missiles(0, &mut cannons).is_empty());
}
