use maze_of_many_missiles::explosion::{EXPLOSION_FORCE, EXPLOSION_FORCE_MAX, EXPLOSION_NEAR_FIELD};
use maze_of_many_missiles::fixed::{Vec2, COORD_MAX, UNIT};
use maze_of_many_missiles::force::{
    apply_explosion_force, find_pushable, push_body, push_force_of, push_from_explosion, Blast,
    Intersection, Pushable,
};

fn at(x: i64, y: i64) -> Vec2 {
    Vec2 { x: x * UNIT, y: y * UNIT }
}

fn body(entity: u64, position: Vec2) -> Pushable {
    Pushable { entity, position, linvel: Vec2::zero() }
}

fn touching(first: u64, second: u64) -> Intersection {
    Intersection { first, second, intersecting: true }
}

const TICK: u64 = 50_000_000;

#[test]
fn constants_agree() {
    assert_eq!(EXPLOSION_FORCE, 1_000_000_000);
    assert_eq!(EXPLOSION_NEAR_FIELD, 100_000);
    assert_eq!(EXPLOSION_FORCE_MAX, 10_000_000_000);
    assert_eq!(
        EXPLOSION_FORCE as i128 * UNIT as i128,
        EXPLOSION_FORCE_MAX as i128 * EXPLOSION_NEAR_FIELD as i128
    );
}

#[test]
fn the_push_falls_off_as_the_inverse_of_the_distance() {
    assert_eq!(push_force_of(UNIT, 0), (1_000_000_000, 0));
    assert_eq!(push_force_of(2 * UNIT, 0), (500_000_000, 0));
    assert_eq!(push_force_of(4 * UNIT, 0), (250_000_000, 0));
    assert_eq!(push_force_of(0, -2 * UNIT), (0, -500_000_000));
    assert_eq!(push_force_of(3 * UNIT, 4 * UNIT), (120_000_000, 160_000_000));
    assert_eq!(push_force_of(-UNIT, UNIT), (-500_000_000, 500_000_000));
}

#[test]
fn the_push_is_limited_in_the_near_field() {
    assert_eq!(push_force_of(100_000, 0), (10_000_000_000, 0));
    assert_eq!(push_force_of(50_000, 0), (10_000_000_000, 0));
    assert_eq!(push_force_of(1, 0), (10_000_000_000, 0));
    assert_eq!(push_force_of(0, -1), (0, -10_000_000_000));
    assert_eq!(push_force_of(30_000, 40_000), (6_000_000_000, 8_000_000_000));
    // Rounded lengths only ever weaken the push.
    let (x, y) = push_force_of(1, 1);
    assert_eq!((x, y), (5_000_000_000, 5_000_000_000));
}

#[test]
fn there_is_no_push_at_the_center() {
    assert_eq!(push_force_of(0, 0), (0, 0));
    let mut pushed = Pushable { entity: 1, position: at(2, 2), linvel: at(1, -1) };
    push_body(&mut pushed, &at(2, 2), TICK);
    assert_eq!(pushed, Pushable { entity: 1, position: at(2, 2), linvel: at(1, -1) });
}

#[test]
fn the_push_at_the_far_end_of_the_range() {
    assert_eq!(push_force_of(2 * COORD_MAX, 0), (500, 0));
    assert_eq!(push_force_of(2 * COORD_MAX, -2 * COORD_MAX), (250, -250));
}

#[test]
fn a_push_adds_to_the_velocity() {
    let mut pushed = Pushable { entity: 1, position: at(1, 0), linvel: at(3, -7) };
    push_body(&mut pushed, &at(0, 0), TICK);
    assert_eq!(pushed.linvel, at(53, -7));
    assert_eq!(pushed.position, at(1, 0));
    push_body(&mut pushed, &at(0, 0), TICK);
    assert_eq!(pushed.linvel, at(103, -7));
    // Half the time, half the push.
    push_body(&mut pushed, &at(0, 0), TICK / 2);
    assert_eq!(pushed.linvel, at(128, -7));
    // No time, no push.
    push_body(&mut pushed, &at(0, 0), 0);
    assert_eq!(pushed.linvel, at(128, -7));
}

#[test]
fn the_push_points_away_from_the_center() {
    let mut pushed = body(1, at(10, 8));
    push_body(&mut pushed, &at(10, 10), TICK);
    assert_eq!(pushed.linvel, at(0, -25));
    let mut pushed = body(1, Vec2 { x: 10 * UNIT - 50_000, y: 10 * UNIT });
    push_body(&mut pushed, &at(10, 10), TICK);
    assert_eq!(pushed.linvel, at(-500, 0));
}

#[test]
fn the_velocity_stops_at_the_range() {
    let mut pushed = Pushable { entity: 1, position: at(1, 0), linvel: Vec2 { x: COORD_MAX - 5, y: 0 } };
    push_body(&mut pushed, &at(0, 0), TICK);
    assert_eq!(pushed.linvel, Vec2 { x: COORD_MAX, y: 0 });
}

#[test]
fn an_explosion_pushes_the_bodies_that_overlap_it() {
    let mut pushables = vec![body(1, at(1, 0)), body(2, at(0, 2)), body(3, at(-1, 0))];
    let contacts = vec![
        touching(100, 1),
        // The explosion may stand on either side.
        touching(2, 100),
        // Near, but not overlapping.
        Intersection { first: 100, second: 3, intersecting: false },
        // Not a body that explosions push.
        touching(100, 9),
    ];
    push_from_explosion(TICK, 100, &at(0, 0), &contacts, &mut pushables);
    assert_eq!(pushables[0].linvel, at(50, 0));
    assert_eq!(pushables[1].linvel, at(0, 25));
    assert_eq!(pushables[2].linvel, Vec2::zero());
    assert_eq!(pushables[0].position, at(1, 0));
}

#[test]
fn several_explosions_add_up() {
    let mut pushables = vec![body(1, at(1, 0)), body(2, at(5, 5))];
    let blasts = vec![
        Blast { explosion: 100, center: at(0, 0), contacts: vec![touching(100, 1)] },
        Blast { explosion: 101, center: at(1, 1), contacts: vec![touching(1, 101)] },
        Blast { explosion: 102, center: at(0, 0), contacts: Vec::new() },
    ];
    apply_explosion_force(TICK, &blasts, &mut pushables);
    assert_eq!(pushables[0].linvel, at(50, -50));
    assert_eq!(pushables[1].linvel, Vec2::zero());
    apply_explosion_force(TICK, &blasts, &mut pushables);
    assert_eq!(pushables[0].linvel, at(100, -100));
    apply_explosion_force(TICK, &Vec::new(), &mut pushables);
    assert_eq!(pushables[0].linvel, at(100, -100));
}

#[test]
fn a_pair_reported_twice_pushes_twice() {
    let mut pushables = vec![body(1, at(1, 0))];
    let contacts = vec![touching(100, 1), touching(100, 1)];
    push_from_explosion(TICK, 100, &at(0, 0), &contacts, &mut pushables);
    assert_eq!(pushables[0].linvel, at(100, 0));
}

#[test]
fn the_first_body_of_an_identifier_is_found() {
    let pushables = vec![body(4, at(0, 0)), body(5, at(1, 1)), body(5, at(2, 2))];
    assert_eq!(find_pushable(&pushables, 5), Some(1));
    assert_eq!(find_pushable(&pushables, 4), Some(0));
    assert_eq!(find_pushable(&pushables, 6), None);
}
