use maze_of_many_missiles::collision::{collision_started_events_both_ways, CollisionEvent};

#[test]
fn started_event_yields_both_orders() {
    let events = vec![CollisionEvent::Started(1, 2)];
    assert_eq!(collision_started_events_both_ways(&events), vec![(1, 2), (2, 1)]);
}

#[test]
fn no_events_yield_no_pairs() {
    let events: Vec<CollisionEvent> = Vec::new();
    assert!(collision_started_events_both_ways(&events).is_empty());
}

#[test]
fn stopped_events_are_left_out() {
    let events = vec![
        CollisionEvent::Stopped(1, 2),
        CollisionEvent::Started(3, 4),
        CollisionEvent::Stopped(3, 4),
    ];
    assert_eq!(collision_started_events_both_ways(&events), vec![(3, 4), (4, 3)]);
}

#[test]
fn pairs_come_in_event_order() {
    let events = vec![
        CollisionEvent::Started(7, 8),
        CollisionEvent::Started(1, 2),
        CollisionEvent::Started(8, 7),
    ];
    assert_eq!(
        collision_started_events_both_ways(&events),
        vec![(7, 8), (8, 7), (1, 2), (2, 1), (8, 7), (7, 8)]
    );
}

#[test]
fn started_events_double_in_number() {
    let mut events = Vec::new();
    for i in 0..25u64 {
        events.push(CollisionEvent::Started(i, i + 100));
    }
    let pairs = collision_started_events_both_ways(&events);
    assert_eq!(pairs.len(), 50);
    for i in 0..25usize {
        assert_eq!(pairs[2 * i], (i as u64, i as u64 + 100));
        assert_eq!(pairs[2 * i + 1], (i as u64 + 100, i as u64));
    }
}

#[test]
fn a_body_touching_itself_shows_twice() {
    let events = vec![CollisionEvent::Started(5, 5)];
    assert_eq!(collision_started_events_both_ways(&events), vec![(5, 5), (5, 5)]);
}
