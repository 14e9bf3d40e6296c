use shooter_core::actor::{Actor, ActorContainer, ActorKind};
use shooter_core::door::{Color, Door, DoorContainer, DoorState, LightSetting};
use shooter_core::geometry::Vec3;

const ALL: [DoorState; 6] = [
    DoorState::Opened,
    DoorState::Opening,
    DoorState::Closed,
    DoorState::Closing,
    DoorState::Locked,
    DoorState::Broken,
];

#[test]
fn door_state_numbers() {
    assert_eq!(DoorState::Opened.id(), 0);
    assert_eq!(DoorState::Opening.id(), 1);
    assert_eq!(DoorState::Closed.id(), 2);
    assert_eq!(DoorState::Closing.id(), 3);
    assert_eq!(DoorState::Locked.id(), 4);
    assert_eq!(DoorState::Broken.id(), 5);
}

#[test]
fn door_state_is_read_back_from_its_number() {
    for state in ALL {
        assert_eq!(DoorState::from_id(state.id()), Ok(state));
    }
}

#[test]
fn number_of_no_door_state_is_refused() {
    assert_eq!(DoorState::from_id(6), Err(String::from("Invalid door state id 6!")));
    assert_eq!(
        DoorState::from_id(u32::MAX),
        Err(String::from("Invalid door state id 4294967295!"))
    );
    assert_eq!(DoorState::from_id(10), Err(String::from("Invalid door state id 10!")));
}

#[test]
fn a_door_is_closed_unless_told_otherwise() {
    assert_eq!(DoorState::default(), DoorState::Closed);
}

fn off() -> LightSetting {
    LightSetting { enabled: false, color: None }
}

fn green() -> LightSetting {
    LightSetting { enabled: true, color: Some(Color::opaque(0, 255, 0)) }
}

fn side() -> Vec3 {
    Vec3::new(30, 0, 40)
}

fn step(door: &mut Door, near: bool, dt: u32) -> (DoorState, u32, LightSetting, Vec3) {
    let command = door.update(near, dt);
    assert_eq!(command.node, door.node);
    assert_eq!(command.offset, door.offset);
    (door.state, command.offset, command.lights, command.position)
}

#[test]
fn door_opens_for_somebody_near_and_closes_behind_them() {
    let mut door = Door::new(9, vec![1, 2], DoorState::Closed, Vec3::new(100, 200, 300), side());
    let green = LightSetting { enabled: true, color: Some(Color::opaque(0, 255, 0)) };
    let at = |x, z| Vec3::new(x, 200, z);
    assert_eq!(step(&mut door, false, 100), (DoorState::Closed, 0, green, at(100, 300)));
    assert_eq!(step(&mut door, true, 300), (DoorState::Opening, 300, off(), at(280, 540)));
    assert_eq!(step(&mut door, false, 300), (DoorState::Opening, 600, off(), at(460, 780)));
    assert_eq!(step(&mut door, true, 300), (DoorState::Opened, 750, off(), at(550, 900)));
    assert_eq!(step(&mut door, true, 300), (DoorState::Opened, 750, off(), at(550, 900)));
    assert_eq!(step(&mut door, false, 500), (DoorState::Closing, 250, off(), at(250, 500)));
    assert_eq!(step(&mut door, true, 100), (DoorState::Closing, 150, off(), at(190, 420)));
    assert_eq!(step(&mut door, false, 150), (DoorState::Closed, 0, off(), at(100, 300)));
    assert_eq!(step(&mut door, false, 150), (DoorState::Closed, 0, green, at(100, 300)));
}

#[test]
fn door_whose_side_has_no_length_slides_along_the_third_axis() {
    let mut door = Door::new(9, Vec::new(), DoorState::Closed, Vec3::new(1, 2, 3), Vec3::zero());
    assert_eq!(step(&mut door, false, 300), (DoorState::Closed, 0, green(), Vec3::new(1, 2, 3)));
    assert_eq!(step(&mut door, true, 300), (DoorState::Opening, 300, off(), Vec3::new(1, 2, 303)));
    assert_eq!(step(&mut door, true, 500), (DoorState::Opened, 750, off(), Vec3::new(1, 2, 753)));
}

#[test]
fn locked_door_stays_locked_and_shows_red() {
    let mut door = Door::new(3, Vec::new(), DoorState::Locked, Vec3::zero(), side());
    let red = LightSetting { enabled: true, color: Some(Color::opaque(255, 0, 0)) };
    assert_eq!(step(&mut door, true, 100), (DoorState::Locked, 0, red, Vec3::zero()));
}

#[test]
fn broken_door_stays_broken_and_dark() {
    let mut door = Door::new(3, Vec::new(), DoorState::Broken, Vec3::zero(), side());
    assert_eq!(step(&mut door, true, 100), (DoorState::Broken, 0, off(), Vec3::zero()));
}

#[test]
fn a_door_of_its_own_is_closed_at_the_origin() {
    let door = Door::default();
    assert_eq!((door.node, door.state, door.offset), (0, DoorState::Closed, 0));
    assert!(door.lights.is_empty());
    assert_eq!(DoorContainer::default().doors.capacity(), 0);
}

#[test]
fn doors_open_for_actors_nearer_than_the_opening_distance() {
    let mut actors = ActorContainer::new();
    actors.add(Actor::new(ActorKind::Player, Vec3::new(1249, 0, 0), None));
    let mut doors = DoorContainer::new();
    let near = doors.add(Door::new(1, Vec::new(), DoorState::Closed, Vec3::new(0, 0, 0), side()));
    let edge = doors.add(Door::new(2, Vec::new(), DoorState::Closed, Vec3::new(2499, 0, 0), side()));
    let far = doors.add(Door::new(3, Vec::new(), DoorState::Closed, Vec3::new(0, 5000, 0), side()));
    let commands = doors.update(&actors, 100);
    assert_eq!(commands.len(), 3);
    assert_eq!(commands[0].unwrap().offset, 100);
    assert_eq!(commands[1].unwrap().offset, 0);
    assert_eq!(commands[2].unwrap().offset, 0);
    assert_eq!(doors.doors.try_borrow(near).unwrap().state, DoorState::Opening);
    assert_eq!(doors.doors.try_borrow(edge).unwrap().state, DoorState::Closed);
    assert_eq!(doors.doors.try_borrow(far).unwrap().state, DoorState::Closed);
}

#[test]
fn doors_are_told_where_they_are_when_closed() {
    let mut doors = DoorContainer::new();
    let a = doors.add(Door::new(1, vec![4], DoorState::Closed, Vec3::new(0, 0, 0), side()));
    let b = doors.add(Door::new(2, Vec::new(), DoorState::Locked, Vec3::new(1, 1, 1), side()));
    doors.resolve(&vec![Some(Vec3::new(7, 8, 9))]);
    assert_eq!(doors.doors.try_borrow(a).unwrap().initial_position, Vec3::new(7, 8, 9));
    assert_eq!(doors.doors.try_borrow(a).unwrap().lights, vec![4]);
    assert_eq!(doors.doors.try_borrow(b).unwrap().initial_position, Vec3::new(1, 1, 1));
    doors.resolve(&vec![None, Some(Vec3::new(5, 5, 5))]);
    assert_eq!(doors.doors.try_borrow(a).unwrap().initial_position, Vec3::new(7, 8, 9));
    assert_eq!(doors.doors.try_borrow(b).unwrap().initial_position, Vec3::new(5, 5, 5));
}
