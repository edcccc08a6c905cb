use maze_of_many_missiles::collision::CollisionEvent;
use maze_of_many_missiles::door::player_enter_door;

#[test]
fn a_player_walking_into_a_door_enters_it() {
    let events = vec![CollisionEvent::Started(1, 2)];
    assert!(player_enter_door(&events, &vec![1], &vec![2]));
    let events = vec![CollisionEvent::Started(2, 1)];
    assert!(player_enter_door(&events, &vec![1], &vec![2]));
}

#[test]
fn other_contacts_open_no_door() {
    let events = vec![
        CollisionEvent::Started(1, 3),
        CollisionEvent::Started(4, 2),
        CollisionEvent::Stopped(1, 2),
        CollisionEvent::Started(1, 1),
        CollisionEvent::Started(2, 2),
    ];
    assert!(!player_enter_door(&events, &vec![1], &vec![2]));
    assert!(!player_enter_door(&Vec::new(), &vec![1], &vec![2]));
    assert!(!player_enter_door(&vec![CollisionEvent::Started(1, 2)], &Vec::new(), &vec![2]));
    assert!(!player_enter_door(&vec![CollisionEvent::Started(1, 2)], &vec![1], &Vec::new()));
}

#[test]
fn one_entering_contact_among_many_is_enough() {
    let events = vec![
        CollisionEvent::Started(7, 8),
        CollisionEvent::Stopped(1, 2),
        CollisionEvent::Started(9, 5),
        CollisionEvent::Started(7, 9),
    ];
    assert!(player_enter_door(&events, &vec![4, 5], &vec![8, 9]));
}
