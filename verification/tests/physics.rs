use smart_road::geometry::{LanePair, Layout, Position};
use smart_road::physics::{
    get_close_calls_for_vehicle, is_closer_to_center, will_vehicles_collide, HORIZON, SAFETY_GAP,
};
use smart_road::vehicle::Vehicle;

fn square() -> Layout {
    Layout::new(600, 600).unwrap()
}

fn vehicle_at(pair: LanePair, id: u32, x: i32, y: i32) -> Vehicle {
    let mut vehicle = Vehicle::new(&square(), pair, id);
    vehicle.position = Position::new(x, y);
    vehicle
}

#[test]
fn predictor_constants() {
    assert_eq!(SAFETY_GAP, 4);
    assert_eq!(HORIZON, 1000);
}

#[test]
fn followers_at_equal_speed_collide_only_when_too_close() {
    // footprint 49 plus gap 4 makes a reach of 53
    let front = vehicle_at(LanePair::NorthToSouth, 1, 233, 100);
    let far = vehicle_at(LanePair::NorthToSouth, 2, 233, 46);
    let near = vehicle_at(LanePair::NorthToSouth, 3, 233, 47);
    assert!(!will_vehicles_collide(&front, &far));
    assert!(will_vehicles_collide(&front, &near));
}

#[test]
fn a_faster_follower_catches_up() {
    let front = vehicle_at(LanePair::NorthToSouth, 1, 233, 100);
    let mut behind = vehicle_at(LanePair::NorthToSouth, 2, 233, 0);
    assert!(!will_vehicles_collide(&front, &behind));
    behind.set_velocity(4);
    // the gap of 100 shrinks by one unit per step
    assert!(will_vehicles_collide(&front, &behind));
}

#[test]
fn crossing_routes_collide_when_they_meet_in_the_box() {
    let down = Vehicle::new(&square(), LanePair::NorthToSouth, 1);
    let right = Vehicle::new(&square(), LanePair::WestToEast, 2);
    assert!(will_vehicles_collide(&down, &right));
    // at minimum velocity the second arrives long after the first has gone
    let mut slow = Vehicle::new(&square(), LanePair::WestToEast, 2);
    slow.set_velocity(1);
    assert!(!will_vehicles_collide(&down, &slow));
}

#[test]
fn lanes_two_apart_never_collide() {
    let a = vehicle_at(LanePair::NorthToWest, 1, 200, 0);
    let b = vehicle_at(LanePair::NorthToEast, 2, 266, 0);
    // 66 apart on x until the first turns away
    assert!(!will_vehicles_collide(&a, &b));
}

#[test]
fn the_present_position_is_not_a_predicted_collision() {
    // both stand on top of each other now but drive apart at once and for good
    let mut up = vehicle_at(LanePair::SouthToNorth, 1, 334, 300);
    let mut down = vehicle_at(LanePair::NorthToSouth, 2, 334, 300);
    up.set_velocity(4);
    down.set_velocity(4);
    // after 7 steps they are 56 apart; before that within reach
    assert!(will_vehicles_collide(&up, &down));
    let away = vehicle_at(LanePair::NorthToSouth, 3, 334, 353);
    let mut leaving = vehicle_at(LanePair::SouthToNorth, 4, 334, 300);
    leaving.set_velocity(1);
    // 53 apart now, 57 after the first step
    assert!(!will_vehicles_collide(&leaving, &away));
}

#[test]
fn prediction_is_symmetric() {
    let layout = square();
    let pairs = [
        LanePair::NorthToSouth,
        LanePair::NorthToEast,
        LanePair::SouthToWest,
        LanePair::EastToNorth,
        LanePair::WestToEast,
        LanePair::WestToSouth,
    ];
    for (i, first) in pairs.iter().enumerate() {
        for (j, second) in pairs.iter().enumerate() {
            for velocity_a in 1..=4 {
                for velocity_b in 1..=4 {
                    let mut a = Vehicle::new(&layout, *first, i as u32);
                    let mut b = Vehicle::new(&layout, *second, 10 + j as u32);
                    a.set_velocity(velocity_a);
                    b.set_velocity(velocity_b);
                    assert_eq!(
                        will_vehicles_collide(&a, &b),
                        will_vehicles_collide(&b, &a),
                        "{:?} at {} against {:?} at {}",
                        first,
                        velocity_a,
                        second,
                        velocity_b
                    );
                }
            }
        }
    }
}

#[test]
fn prediction_does_not_move_the_vehicles() {
    let a = Vehicle::new(&square(), LanePair::NorthToSouth, 1);
    let b = Vehicle::new(&square(), LanePair::WestToEast, 2);
    will_vehicles_collide(&a, &b);
    assert_eq!(a.position, Position::new(233, 0));
    assert_eq!(b.position, Position::new(0, 334));
    assert_eq!(a.velocity, 3);
    assert_eq!(a.time, 0);
}

#[test]
fn the_longer_vehicle_sets_the_footprint() {
    let small = Layout::new(600, 600).unwrap();
    let large = Layout::new(1200, 600).unwrap();
    // vehicle lengths 49 and 99: reach 103
    let mut a = Vehicle::new(&small, LanePair::NorthToSouth, 1);
    let mut b = Vehicle::new(&large, LanePair::NorthToSouth, 2);
    a.position = Position::new(500, 0);
    b.position = Position::new(500, 103);
    assert!(will_vehicles_collide(&a, &b));
    assert!(will_vehicles_collide(&b, &a));
    b.position = Position::new(500, 104);
    assert!(!will_vehicles_collide(&a, &b));
    assert!(!will_vehicles_collide(&b, &a));
}

#[test]
fn closeness_to_the_centre_is_compared_exactly() {
    let layout = square();
    let centre = Position::new(300, 300);
    assert!(is_closer_to_center(&layout, centre, Position::new(301, 300)));
    assert!(!is_closer_to_center(&layout, Position::new(301, 300), centre));
    // equal distances count as closer both ways
    assert!(is_closer_to_center(
        &layout,
        Position::new(297, 304),
        Position::new(305, 300)
    ));
    assert!(is_closer_to_center(
        &layout,
        Position::new(305, 300),
        Position::new(297, 304)
    ));
    // 3-4-5 against a distance of 5.1
    assert!(is_closer_to_center(
        &layout,
        Position::new(303, 304),
        Position::new(300, 306)
    ));
    assert!(!is_closer_to_center(
        &layout,
        Position::new(300, 306),
        Position::new(303, 304)
    ));
}

#[test]
fn the_centre_of_an_odd_playfield_lies_between_units() {
    let layout = Layout::new(601, 601).unwrap();
    // the centre is at 300.5: 300 and 301 are equally close
    assert!(is_closer_to_center(
        &layout,
        Position::new(300, 300),
        Position::new(301, 301)
    ));
    assert!(is_closer_to_center(
        &layout,
        Position::new(301, 301),
        Position::new(300, 300)
    ));
    assert!(!is_closer_to_center(
        &layout,
        Position::new(299, 300),
        Position::new(301, 300)
    ));
}

#[test]
fn closeness_to_the_centre_at_the_ends_of_the_coordinates() {
    let layout = square();
    let far = Position::new(i32::MIN, i32::MIN);
    let further = Position::new(i32::MAX, i32::MAX);
    // the centre lies on the positive side, so the negative corner is further away
    assert!(is_closer_to_center(&layout, further, far));
    assert!(!is_closer_to_center(&layout, far, further));
}

#[test]
fn close_calls_are_recorded_once_and_counted_on_the_smaller_identity() {
    let mut low = vehicle_at(LanePair::NorthToSouth, 1, 233, 100);
    let mut high = vehicle_at(LanePair::NorthToSouth, 2, 233, 149);
    let far = vehicle_at(LanePair::NorthToSouth, 3, 233, 199);
    let others = vec![low.clone(), high.clone(), far.clone()];

    assert_eq!(get_close_calls_for_vehicle(&mut low, &others), 1);
    assert_eq!(low.close_calls, vec![2]);
    assert_eq!(get_close_calls_for_vehicle(&mut high, &others), 0);
    assert_eq!(high.close_calls, vec![1]);

    // nothing is recorded twice
    assert_eq!(get_close_calls_for_vehicle(&mut low, &others), 0);
    assert_eq!(low.close_calls, vec![2]);
    assert_eq!(get_close_calls_for_vehicle(&mut high, &others), 0);
    assert_eq!(high.close_calls, vec![1]);
}

#[test]
fn close_calls_need_both_axes_within_the_footprint() {
    let mut car = vehicle_at(LanePair::NorthToSouth, 5, 233, 100);
    let others = vec![
        vehicle_at(LanePair::NorthToEast, 6, 282, 149),
        vehicle_at(LanePair::NorthToEast, 7, 283, 100),
        vehicle_at(LanePair::NorthToEast, 8, 233, 50),
        vehicle_at(LanePair::NorthToEast, 9, 184, 51),
    ];
    assert_eq!(get_close_calls_for_vehicle(&mut car, &others), 2);
    assert_eq!(car.close_calls, vec![6, 9]);
}

#[test]
fn a_vehicle_is_no_close_call_of_its_own_identity() {
    let mut car = vehicle_at(LanePair::NorthToSouth, 5, 233, 100);
    let twin = vehicle_at(LanePair::NorthToSouth, 5, 233, 101);
    let smaller = vehicle_at(LanePair::NorthToSouth, 4, 233, 101);
    assert_eq!(get_close_calls_for_vehicle(&mut car, &vec![twin, smaller]), 0);
    assert_eq!(car.close_calls, vec![4]);
}

#[test]
fn recording_close_calls_changes_nothing_else() {
    let mut car = vehicle_at(LanePair::WestToEast, 1, 50, 334);
    car.set_velocity(2);
    car.time = 5;
    let other = vehicle_at(LanePair::WestToEast, 2, 60, 334);
    get_close_calls_for_vehicle(&mut car, &vec![other]);
    assert_eq!(car.position, Position::new(50, 334));
    assert_eq!(car.velocity, 2);
    assert_eq!(car.time, 5);
    assert!(!car.colliding);
}
