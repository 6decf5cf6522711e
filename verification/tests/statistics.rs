use smart_road::statistics::Statistics;

#[test]
fn fresh_statistics() {
    let stats = Statistics::new();
    assert_eq!(stats.num_vehicles, 0);
    assert_eq!(stats.max_velocity, 3);
    assert_eq!(stats.min_velocity, 3);
    assert_eq!(stats.max_time, 0);
    assert_eq!(stats.min_time, None);
    assert_eq!(stats.close_calls, 0);
}

#[test]
fn setters_replace_one_field() {
    let mut stats = Statistics::new();
    stats.set_max_velocity(4);
    stats.set_min_velocity(1);
    stats.set_max_time(90);
    stats.set_min_time(10);
    stats.add_to_total_vehicles(5);
    stats.add_close_call(2);
    stats.add_close_call(3);
    assert_eq!(
        stats,
        Statistics {
            num_vehicles: 5,
            max_velocity: 4,
            min_velocity: 1,
            max_time: 90,
            min_time: Some(10),
            close_calls: 5,
        }
    );
    // a setter does not compare with what was there
    stats.set_max_time(1);
    stats.set_min_time(50);
    assert_eq!(stats.max_time, 1);
    assert_eq!(stats.min_time, Some(50));
}

#[test]
fn counters_reach_the_top_of_their_range() {
    let mut stats = Statistics::new();
    stats.add_to_total_vehicles(u32::MAX);
    stats.add_close_call(u32::MAX - 1);
    stats.add_close_call(1);
    assert_eq!(stats.num_vehicles, u32::MAX);
    assert_eq!(stats.close_calls, u32::MAX);
}

#[test]
fn recorded_velocities_stretch_the_extremes() {
    let mut stats = Statistics::new();
    stats.record_velocity(3);
    assert_eq!((stats.min_velocity, stats.max_velocity), (3, 3));
    stats.record_velocity(2);
    assert_eq!((stats.min_velocity, stats.max_velocity), (2, 3));
    stats.record_velocity(4);
    assert_eq!((stats.min_velocity, stats.max_velocity), (2, 4));
    stats.record_velocity(3);
    assert_eq!((stats.min_velocity, stats.max_velocity), (2, 4));
    stats.record_velocity(1);
    assert_eq!((stats.min_velocity, stats.max_velocity), (1, 4));
    assert_eq!(stats.num_vehicles, 0);
}

#[test]
fn recorded_trips_count_and_stretch_the_extremes() {
    let mut stats = Statistics::new();
    stats.record_trip(500);
    assert_eq!(stats.num_vehicles, 1);
    assert_eq!(stats.min_time, Some(500));
    assert_eq!(stats.max_time, 500);
    stats.record_trip(700);
    assert_eq!(stats.num_vehicles, 2);
    assert_eq!(stats.min_time, Some(500));
    assert_eq!(stats.max_time, 700);
    stats.record_trip(0);
    assert_eq!(stats.num_vehicles, 3);
    assert_eq!(stats.min_time, Some(0));
    assert_eq!(stats.max_time, 700);
    stats.record_trip(600);
    assert_eq!(stats.num_vehicles, 4);
    assert_eq!(stats.min_time, Some(0));
    assert_eq!(stats.max_time, 700);
    assert_eq!(stats.close_calls, 0);
    assert_eq!((stats.min_velocity, stats.max_velocity), (3, 3));
}
