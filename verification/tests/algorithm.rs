use smart_road::algorithm::determine_velocity;
use smart_road::geometry::{LanePair, Layout, Position};
use smart_road::physics::will_vehicles_collide;
use smart_road::vehicle::Vehicle;

fn square() -> Layout {
    Layout::new(600, 600).unwrap()
}

fn vehicle_at(pair: LanePair, id: u32, x: i32, y: i32) -> Vehicle {
    let mut vehicle = Vehicle::new(&square(), pair, id);
    vehicle.position = Position::new(x, y);
    vehicle
}

#[test]
fn a_lone_vehicle_cruises() {
    let mut car = Vehicle::new(&square(), LanePair::SouthToEast, 1);
    car.set_velocity(1);
    car.colliding = true;
    let mut all = vec![car.clone()];
    assert_eq!(determine_velocity(&mut car, &mut all), 3);
    assert_eq!(car.velocity, 3);
    assert!(!car.colliding);
    let mut nobody: Vec<Vehicle> = vec![];
    assert_eq!(determine_velocity(&mut car, &mut nobody), 3);
}

#[test]
fn a_vehicle_in_its_exit_lane_cruises_whatever_is_around() {
    let mut car = vehicle_at(LanePair::NorthToSouth, 1, 233, 400);
    car.set_velocity(2);
    let blocker = vehicle_at(LanePair::NorthToSouth, 2, 233, 420);
    let mut all = vec![car.clone(), blocker];
    assert_eq!(determine_velocity(&mut car, &mut all), 3);
    assert_eq!(car.velocity, 3);
    assert!(!car.colliding);
    assert!(!all[1].colliding);
}

#[test]
fn vehicles_further_from_finishing_are_no_peers() {
    // scenario: X is strictly closer to finishing than Y on a colliding path
    let mut x = vehicle_at(LanePair::NorthToSouth, 1, 233, 100);
    let mut y = Vehicle::new(&square(), LanePair::WestToEast, 2);
    assert_eq!(x.get_distance_to_finish(), 300);
    assert_eq!(y.get_distance_to_finish(), 400);
    assert!(will_vehicles_collide(&x, &y));

    let mut snapshot = vec![x.clone(), y.clone()];
    assert_eq!(determine_velocity(&mut x, &mut snapshot), 3);
    assert!(!x.colliding);

    let mut snapshot = vec![x.clone(), y.clone()];
    assert_eq!(determine_velocity(&mut y, &mut snapshot), 1);
    assert_eq!(y.velocity, 1);
    assert!(!y.colliding);
    assert!(!will_vehicles_collide(&x, &y));
    assert!(!snapshot[0].colliding);
}

#[test]
fn a_vehicle_slows_only_as_far_as_needed() {
    let front = vehicle_at(LanePair::NorthToSouth, 1, 233, 100);
    let mut behind = vehicle_at(LanePair::NorthToSouth, 2, 233, 47);
    // 53 apart: within reach at any equal speed, clear as soon as the gap grows
    let mut snapshot = vec![front.clone(), behind.clone()];
    assert_eq!(determine_velocity(&mut behind, &mut snapshot), 2);
    assert!(!will_vehicles_collide(&behind, &front));
    assert!(!behind.colliding);
}

#[test]
fn equal_distances_make_both_give_way() {
    let mut down = Vehicle::new(&square(), LanePair::NorthToSouth, 1);
    let mut right = Vehicle::new(&square(), LanePair::WestToEast, 2);
    assert_eq!(down.get_distance_to_finish(), right.get_distance_to_finish());
    let snapshot = vec![down.clone(), right.clone()];

    let mut against = snapshot.clone();
    let for_down = determine_velocity(&mut down, &mut against);
    let mut against = snapshot.clone();
    let for_right = determine_velocity(&mut right, &mut against);

    assert_eq!(for_down, 2);
    assert_eq!(for_right, 1);
    assert!(for_down == 1 || for_right == 1);
    assert!(!(for_down == 4 && for_right == 4));
    assert!(!down.colliding);
    assert!(!right.colliding);
}

#[test]
fn a_vehicle_at_the_same_position_is_ignored() {
    let mut car = vehicle_at(LanePair::NorthToSouth, 1, 233, 100);
    let twin = vehicle_at(LanePair::NorthToSouth, 2, 233, 100);
    let mut snapshot = vec![twin];
    assert_eq!(determine_velocity(&mut car, &mut snapshot), 3);
    assert!(!car.colliding);
}

#[test]
fn peers_in_their_exit_lane_are_ignored() {
    let mut car = vehicle_at(LanePair::NorthToSouth, 1, 233, 380);
    let ahead = vehicle_at(LanePair::NorthToSouth, 2, 233, 400);
    assert!(will_vehicles_collide(&car, &ahead));
    let mut snapshot = vec![ahead];
    assert_eq!(determine_velocity(&mut car, &mut snapshot), 3);
}

#[test]
fn when_no_speed_helps_both_are_marked_and_the_vehicle_crawls() {
    // the peer stands within reach and stays there at every speed
    let mut car = vehicle_at(LanePair::NorthToSouth, 1, 233, 100);
    let mut peer = vehicle_at(LanePair::NorthToSouth, 2, 233, 101);
    peer.set_velocity(1);
    let bystander = vehicle_at(LanePair::EastToWest, 3, 551, 233);
    let mut snapshot = vec![bystander, peer];
    assert_eq!(determine_velocity(&mut car, &mut snapshot), 1);
    assert_eq!(car.velocity, 1);
    assert!(car.colliding);
    assert!(snapshot[1].colliding);
    assert!(!snapshot[0].colliding);
    // nothing else about the peer has changed
    assert_eq!(snapshot[1].velocity, 1);
    assert_eq!(snapshot[1].position, Position::new(233, 101));
}

#[test]
fn burst_velocity_is_kept_when_it_clears_the_conflict() {
    // The peer crosses from the west just ahead; slowing down never clears
    // the box in time, slipping through first does.
    let layout = square();
    let mut found = false;
    for y in 0..400 {
        for x in 0..400 {
            let mut car = Vehicle::new(&layout, LanePair::NorthToSouth, 1);
            car.position = Position::new(233, y);
            let mut peer = Vehicle::new(&layout, LanePair::WestToEast, 2);
            peer.position = Position::new(x, 334);
            peer.set_velocity(1);
            if peer.get_distance_to_finish() > car.get_distance_to_finish() {
                continue;
            }
            let collides_at = |velocity: u32| {
                let mut probe = car.clone();
                probe.set_velocity(velocity);
                will_vehicles_collide(&probe, &peer)
            };
            if collides_at(3) && collides_at(2) && collides_at(1) && !collides_at(4) {
                let mut snapshot = vec![peer.clone()];
                assert_eq!(determine_velocity(&mut car, &mut snapshot), 4);
                assert_eq!(car.velocity, 4);
                assert!(!car.colliding);
                assert!(!snapshot[0].colliding);
                found = true;
                break;
            }
        }
        if found {
            break;
        }
    }
    assert!(found);
}

#[test]
fn the_velocity_is_always_between_minimum_and_burst() {
    let layout = square();
    let pairs = [
        LanePair::NorthToSouth,
        LanePair::SouthToWest,
        LanePair::EastToNorth,
        LanePair::WestToEast,
    ];
    for first in pairs {
        for second in pairs {
            for steps in [0, 20, 40, 60, 80] {
                let mut car = Vehicle::new(&layout, first, 1);
                let mut peer = Vehicle::new(&layout, second, 2);
                for _ in 0..steps {
                    peer.update(1);
                }
                let mut snapshot = vec![peer];
                let velocity = determine_velocity(&mut car, &mut snapshot);
                assert!((1..=4).contains(&velocity));
                assert_eq!(car.velocity, velocity);
                if car.colliding {
                    assert_eq!(velocity, 1);
                    assert!(snapshot[0].colliding);
                }
            }
        }
    }
}

#[test]
fn vehicles_without_priority_change_nothing() {
    // the verdict against everybody is the verdict against the peers alone
    let layout = square();
    let pairs = [
        LanePair::NorthToSouth,
        LanePair::NorthToEast,
        LanePair::SouthToWest,
        LanePair::EastToNorth,
        LanePair::EastToWest,
        LanePair::WestToEast,
        LanePair::WestToNorth,
    ];
    for own_steps in [0, 30, 60, 90] {
        for own in pairs {
            let mut car = Vehicle::new(&layout, own, 0);
            for _ in 0..own_steps {
                car.update(1);
            }
            let mut everybody = vec![];
            for (place, pair) in pairs.iter().enumerate() {
                let mut other = Vehicle::new(&layout, *pair, 1 + place as u32);
                for _ in 0..(20 * place) {
                    other.update(1);
                }
                everybody.push(other);
            }
            let own_distance = car.get_distance_to_finish();
            let mut peers: Vec<Vehicle> = everybody
                .iter()
                .filter(|other| {
                    !other.is_in_end_lane()
                        && other.position != car.position
                        && other.get_distance_to_finish() <= own_distance
                })
                .cloned()
                .collect();

            let mut against_all = car.clone();
            let mut against_peers = car.clone();
            let one = determine_velocity(&mut against_all, &mut everybody);
            let other = determine_velocity(&mut against_peers, &mut peers);
            assert_eq!(one, other);
            assert_eq!(against_all.colliding, against_peers.colliding);
            let marked_of_all: Vec<u32> = everybody
                .iter()
                .filter(|v| v.colliding)
                .map(|v| v.id)
                .collect();
            let marked_of_peers: Vec<u32> =
                peers.iter().filter(|v| v.colliding).map(|v| v.id).collect();
            assert_eq!(marked_of_all, marked_of_peers);
        }
    }
}

#[test]
fn against_one_peer_the_highest_clear_velocity_wins() {
    let layout = square();
    for x in (0..400).step_by(7) {
        for peer_velocity in 1..=4 {
            let car = vehicle_at(LanePair::NorthToSouth, 1, 233, 150);
            let mut peer = Vehicle::new(&layout, LanePair::WestToEast, 2);
            peer.position = Position::new(x, 334);
            peer.set_velocity(peer_velocity);
            if peer.is_in_end_lane() || peer.get_distance_to_finish() > car.get_distance_to_finish()
            {
                continue;
            }
            let clear = |velocity: u32| {
                let mut probe = car.clone();
                probe.set_velocity(velocity);
                !will_vehicles_collide(&probe, &peer)
            };
            let (expected, blocked) = if clear(3) {
                (3, false)
            } else if clear(2) {
                (2, false)
            } else if clear(1) {
                (1, false)
            } else if clear(4) {
                (4, false)
            } else {
                (1, true)
            };
            let mut decided = car.clone();
            let mut snapshot = vec![peer.clone()];
            assert_eq!(determine_velocity(&mut decided, &mut snapshot), expected);
            assert_eq!(decided.colliding, blocked);
            assert_eq!(snapshot[0].colliding, blocked);
        }
    }
}

#[test]
fn a_vehicle_that_has_just_appeared_gives_way_on_every_route() {
    // the peer crawls 40 ahead in the same lane: within reach at every speed
    for pair in [
        LanePair::NorthToWest,
        LanePair::EastToNorth,
        LanePair::NorthToSouth,
        LanePair::WestToSouth,
    ] {
        let mut car = Vehicle::new(&square(), pair, 1);
        let mut peer = Vehicle::new(&square(), pair, 2);
        for _ in 0..10 {
            peer.update(1);
        }
        peer.update(1);
        peer.set_velocity(1);
        assert!(!car.is_in_end_lane(), "{:?}", pair);
        assert!(peer.get_distance_to_finish() < car.get_distance_to_finish());
        let mut snapshot = vec![peer];
        assert_eq!(determine_velocity(&mut car, &mut snapshot), 1, "{:?}", pair);
        assert!(car.colliding);
        assert!(snapshot[0].colliding);
    }
}

#[test]
fn a_vehicle_on_the_road_along_the_box_is_a_peer_until_it_turns() {
    // from the north to the west the road runs along the west edge of the box
    let ahead = vehicle_at(LanePair::NorthToWest, 2, 200, 100);
    let mut behind = vehicle_at(LanePair::NorthToWest, 1, 200, 47);
    assert!(!ahead.is_in_end_lane());
    // at 2 it would catch up with the one ahead while that one turns away
    let mut snapshot = vec![ahead];
    assert_eq!(determine_velocity(&mut behind, &mut snapshot), 1);
    assert!(!behind.colliding);
    // once the one ahead has turned it is in its exit lane and no peer
    let turned = vehicle_at(LanePair::NorthToWest, 2, 200, 201);
    assert!(turned.is_in_end_lane());
    let mut behind = vehicle_at(LanePair::NorthToWest, 1, 200, 160);
    assert!(will_vehicles_collide(&behind, &turned));
    let mut snapshot = vec![turned];
    assert_eq!(determine_velocity(&mut behind, &mut snapshot), 3);
}
