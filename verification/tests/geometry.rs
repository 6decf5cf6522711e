use smart_road::geometry::{Direction, LanePair, Layout, LayoutError, Position};

const ALL_PAIRS: [LanePair; 12] = [
    LanePair::NorthToSouth,
    LanePair::NorthToEast,
    LanePair::NorthToWest,
    LanePair::SouthToNorth,
    LanePair::SouthToEast,
    LanePair::SouthToWest,
    LanePair::EastToNorth,
    LanePair::EastToSouth,
    LanePair::EastToWest,
    LanePair::WestToNorth,
    LanePair::WestToSouth,
    LanePair::WestToEast,
];

fn square() -> Layout {
    Layout::new(600, 600).unwrap()
}

#[test]
fn layout_rejects_extents_out_of_range() {
    assert_eq!(Layout::new(17, 600).err(), Some(LayoutError::TooSmall));
    assert_eq!(Layout::new(600, 17).err(), Some(LayoutError::TooSmall));
    assert_eq!(Layout::new(0, 2_000_000).err(), Some(LayoutError::TooSmall));
    assert_eq!(Layout::new(600, 1_048_577).err(), Some(LayoutError::TooLarge));
    assert_eq!(Layout::new(1_048_577, 600).err(), Some(LayoutError::TooLarge));
    assert!(Layout::new(18, 18).is_ok());
    assert!(Layout::new(1_048_576, 1_048_576).is_ok());
}

#[test]
fn layout_reports_its_extents_and_lanes() {
    let layout = Layout::new(600, 900).unwrap();
    assert_eq!(layout.width(), 600);
    assert_eq!(layout.height(), 900);
    assert_eq!(layout.lane_width(), 33);
    assert_eq!(layout.lane_height(), 50);
    assert_eq!(layout.vehicle_length(), 49);
    assert_eq!(layout.vehicle_breadth(), 33);
    assert_eq!(layout.exit_line(Direction::North), 300);
    assert_eq!(layout.exit_line(Direction::South), 600);
    assert_eq!(layout.exit_line(Direction::East), 400);
    assert_eq!(layout.exit_line(Direction::West), 200);
}

#[test]
fn lane_pair_exists_unless_sides_agree() {
    let sides = [
        Direction::North,
        Direction::South,
        Direction::East,
        Direction::West,
    ];
    let mut legal = 0;
    for origin in sides {
        for exit in sides {
            match LanePair::new(origin, exit) {
                Some(pair) => {
                    assert_ne!(origin, exit);
                    assert_eq!(pair.origin(), origin);
                    assert_eq!(pair.exit(), exit);
                    assert_eq!(LanePair::between(origin, exit), pair);
                    legal += 1;
                }
                None => assert_eq!(origin, exit),
            }
        }
    }
    assert_eq!(legal, 12);
    assert_eq!(
        LanePair::new(Direction::South, Direction::East),
        Some(LanePair::SouthToEast)
    );
}

#[test]
fn lane_pair_index_round_trips() {
    for (place, pair) in ALL_PAIRS.iter().enumerate() {
        assert_eq!(pair.index(), place);
        assert_eq!(LanePair::from_index(place), Some(*pair));
    }
    assert_eq!(LanePair::from_index(12), None);
    assert_eq!(LanePair::from_index(usize::MAX), None);
}

#[test]
fn straight_routes_are_the_four_crossings() {
    let straight: Vec<LanePair> = ALL_PAIRS
        .iter()
        .copied()
        .filter(|pair| pair.is_straight())
        .collect();
    assert_eq!(
        straight,
        vec![
            LanePair::NorthToSouth,
            LanePair::SouthToNorth,
            LanePair::EastToWest,
            LanePair::WestToEast
        ]
    );
}

#[test]
fn opposite_and_axis_of_directions() {
    assert_eq!(Direction::North.opposite(), Direction::South);
    assert_eq!(Direction::South.opposite(), Direction::North);
    assert_eq!(Direction::East.opposite(), Direction::West);
    assert_eq!(Direction::West.opposite(), Direction::East);
    assert!(Direction::North.is_vertical());
    assert!(Direction::South.is_vertical());
    assert!(!Direction::East.is_vertical());
    assert!(!Direction::West.is_vertical());
}

#[test]
fn spawn_positions_on_the_square_playfield() {
    let layout = square();
    let expected = [
        (LanePair::NorthToSouth, 233, 0),
        (LanePair::NorthToEast, 266, 0),
        (LanePair::NorthToWest, 200, 0),
        (LanePair::SouthToNorth, 334, 567),
        (LanePair::SouthToEast, 367, 600),
        (LanePair::SouthToWest, 301, 600),
        (LanePair::EastToNorth, 600, 200),
        (LanePair::EastToSouth, 600, 266),
        (LanePair::EastToWest, 551, 233),
        (LanePair::WestToNorth, 0, 301),
        (LanePair::WestToSouth, 0, 367),
        (LanePair::WestToEast, 0, 334),
    ];
    for (pair, x, y) in expected {
        assert_eq!(layout.spawn_position(pair), Position::new(x, y), "{:?}", pair);
    }
}

#[test]
fn lane_offsets_on_the_square_playfield() {
    let layout = square();
    assert_eq!(layout.lane_offset(LanePair::NorthToWest), 0);
    assert_eq!(layout.lane_offset(LanePair::NorthToSouth), 33);
    assert_eq!(layout.lane_offset(LanePair::NorthToEast), 66);
    assert_eq!(layout.lane_offset(LanePair::SouthToEast), 33);
    assert_eq!(layout.lane_offset(LanePair::SouthToNorth), 66);
    assert_eq!(layout.lane_offset(LanePair::SouthToWest), 99);
    assert_eq!(layout.lane_offset(LanePair::EastToNorth), 0);
    assert_eq!(layout.lane_offset(LanePair::EastToWest), 33);
    assert_eq!(layout.lane_offset(LanePair::EastToSouth), 66);
    assert_eq!(layout.lane_offset(LanePair::WestToSouth), 33);
    assert_eq!(layout.lane_offset(LanePair::WestToEast), 66);
    assert_eq!(layout.lane_offset(LanePair::WestToNorth), 99);
}

#[test]
fn turning_thresholds_on_the_square_playfield() {
    let layout = square();
    assert_eq!(layout.turning_threshold(LanePair::NorthToEast), Some(301));
    assert_eq!(layout.turning_threshold(LanePair::NorthToWest), Some(200));
    assert_eq!(layout.turning_threshold(LanePair::SouthToEast), Some(367));
    assert_eq!(layout.turning_threshold(LanePair::SouthToWest), Some(266));
    assert_eq!(layout.turning_threshold(LanePair::EastToNorth), Some(367));
    assert_eq!(layout.turning_threshold(LanePair::EastToSouth), Some(266));
    assert_eq!(layout.turning_threshold(LanePair::WestToNorth), Some(301));
    assert_eq!(layout.turning_threshold(LanePair::WestToSouth), Some(200));
    assert_eq!(layout.turning_threshold(LanePair::NorthToSouth), None);
    assert_eq!(layout.turning_threshold(LanePair::SouthToNorth), None);
    assert_eq!(layout.turning_threshold(LanePair::EastToWest), None);
    assert_eq!(layout.turning_threshold(LanePair::WestToEast), None);
}

#[test]
fn turning_point_is_reached_at_the_threshold() {
    let layout = square();
    let pair = LanePair::NorthToEast;
    assert!(!layout.has_reached_turning_point(pair, Position::new(266, 300)));
    assert!(layout.has_reached_turning_point(pair, Position::new(266, 301)));
    assert!(layout.has_reached_turning_point(pair, Position::new(266, 302)));
    let pair = LanePair::SouthToWest;
    assert!(!layout.has_reached_turning_point(pair, Position::new(301, 267)));
    assert!(layout.has_reached_turning_point(pair, Position::new(301, 266)));
    let pair = LanePair::EastToSouth;
    assert!(!layout.has_reached_turning_point(pair, Position::new(267, 266)));
    assert!(layout.has_reached_turning_point(pair, Position::new(266, 266)));
    let pair = LanePair::WestToSouth;
    assert!(!layout.has_reached_turning_point(pair, Position::new(199, 367)));
    assert!(layout.has_reached_turning_point(pair, Position::new(200, 367)));
}

#[test]
fn straight_routes_have_always_reached_the_turning_point() {
    let layout = square();
    for pair in ALL_PAIRS {
        let at_spawn = layout.has_reached_turning_point(pair, layout.spawn_position(pair));
        assert_eq!(at_spawn, pair.is_straight(), "{:?}", pair);
    }
    assert!(layout.has_reached_turning_point(LanePair::WestToEast, Position::new(-5000, 7)));
}

#[test]
fn heading_switches_at_the_turning_point() {
    let layout = square();
    let pair = LanePair::SouthToEast;
    assert_eq!(layout.heading(pair, Position::new(367, 368)), Direction::North);
    assert_eq!(layout.heading(pair, Position::new(367, 367)), Direction::East);
    assert_eq!(
        layout.heading(LanePair::EastToWest, Position::new(551, 233)),
        Direction::West
    );
}

#[test]
fn end_lane_begins_at_the_edge_of_the_box() {
    let layout = square();
    assert!(layout.is_in_end_lane(LanePair::SouthToNorth, Position::new(334, 200)));
    assert!(!layout.is_in_end_lane(LanePair::SouthToNorth, Position::new(334, 201)));
    assert!(layout.is_in_end_lane(LanePair::NorthToSouth, Position::new(233, 400)));
    assert!(!layout.is_in_end_lane(LanePair::NorthToSouth, Position::new(233, 399)));
    assert!(layout.is_in_end_lane(LanePair::WestToEast, Position::new(400, 334)));
    assert!(!layout.is_in_end_lane(LanePair::WestToEast, Position::new(399, 334)));
    assert!(layout.is_in_end_lane(LanePair::EastToWest, Position::new(200, 233)));
    assert!(!layout.is_in_end_lane(LanePair::EastToWest, Position::new(201, 233)));
    // past the turn the same edges count
    assert!(layout.is_in_end_lane(LanePair::NorthToEast, Position::new(400, 302)));
    assert!(!layout.is_in_end_lane(LanePair::NorthToEast, Position::new(399, 302)));
    assert!(layout.is_in_end_lane(LanePair::WestToNorth, Position::new(302, 200)));
    assert!(!layout.is_in_end_lane(LanePair::WestToNorth, Position::new(302, 201)));
}

#[test]
fn no_vehicle_is_in_its_exit_lane_before_its_turn() {
    let layout = square();
    // the road from the north to the west runs along the west edge of the box
    assert!(!layout.is_in_end_lane(LanePair::NorthToWest, Position::new(200, 0)));
    assert!(!layout.is_in_end_lane(LanePair::NorthToWest, Position::new(200, 199)));
    assert!(layout.is_in_end_lane(LanePair::NorthToWest, Position::new(200, 200)));
    assert!(layout.is_in_end_lane(LanePair::NorthToWest, Position::new(150, 203)));
    // the road from the east to the north runs along the north edge of the box
    assert!(!layout.is_in_end_lane(LanePair::EastToNorth, Position::new(600, 200)));
    assert!(!layout.is_in_end_lane(LanePair::EastToNorth, Position::new(368, 200)));
    assert!(layout.is_in_end_lane(LanePair::EastToNorth, Position::new(367, 200)));
    assert!(layout.is_in_end_lane(LanePair::EastToNorth, Position::new(365, 100)));
    // a position past the exit line that the route has not turned for
    assert!(!layout.is_in_end_lane(LanePair::SouthToEast, Position::new(450, 500)));
    assert!(!layout.is_in_end_lane(LanePair::WestToSouth, Position::new(100, 450)));
}

#[test]
fn no_vehicle_appears_in_its_exit_lane() {
    let layout = square();
    for pair in ALL_PAIRS {
        assert!(
            !layout.is_in_end_lane(pair, layout.spawn_position(pair)),
            "{:?}",
            pair
        );
    }
}

#[test]
fn central_box_includes_its_edges() {
    let layout = square();
    assert!(layout.is_in_intersection(Position::new(200, 200)));
    assert!(layout.is_in_intersection(Position::new(400, 400)));
    assert!(layout.is_in_intersection(Position::new(300, 250)));
    assert!(!layout.is_in_intersection(Position::new(199, 300)));
    assert!(!layout.is_in_intersection(Position::new(401, 300)));
    assert!(!layout.is_in_intersection(Position::new(300, 199)));
    assert!(!layout.is_in_intersection(Position::new(300, 401)));
}

#[test]
fn distance_to_finish_is_manhattan_distance_to_the_exit_point() {
    let layout = square();
    // straight routes: only the axis of travel counts
    assert_eq!(
        layout.distance_to_finish(LanePair::NorthToSouth, Position::new(233, 0)),
        400
    );
    assert_eq!(
        layout.distance_to_finish(LanePair::SouthToNorth, Position::new(334, 567)),
        367
    );
    assert_eq!(
        layout.distance_to_finish(LanePair::EastToWest, Position::new(551, 233)),
        351
    );
    assert_eq!(
        layout.distance_to_finish(LanePair::WestToEast, Position::new(0, 334)),
        400
    );
    // turning routes: the edge of the box on the exit side plus the threshold
    assert_eq!(
        layout.distance_to_finish(LanePair::NorthToEast, Position::new(266, 0)),
        134 + 301
    );
    assert_eq!(
        layout.distance_to_finish(LanePair::NorthToWest, Position::new(200, 0)),
        200
    );
    assert_eq!(
        layout.distance_to_finish(LanePair::SouthToEast, Position::new(367, 600)),
        33 + 233
    );
    assert_eq!(
        layout.distance_to_finish(LanePair::SouthToWest, Position::new(301, 600)),
        101 + 334
    );
    assert_eq!(
        layout.distance_to_finish(LanePair::EastToNorth, Position::new(600, 200)),
        233
    );
    assert_eq!(
        layout.distance_to_finish(LanePair::EastToSouth, Position::new(600, 266)),
        334 + 134
    );
    assert_eq!(
        layout.distance_to_finish(LanePair::WestToNorth, Position::new(0, 301)),
        301 + 101
    );
    assert_eq!(
        layout.distance_to_finish(LanePair::WestToSouth, Position::new(0, 367)),
        200 + 33
    );
    // past the finish the distance grows again
    assert_eq!(
        layout.distance_to_finish(LanePair::NorthToSouth, Position::new(233, 410)),
        10
    );
    assert_eq!(
        layout.distance_to_finish(LanePair::NorthToEast, Position::new(420, 303)),
        22
    );
}

#[test]
fn distance_to_finish_at_the_coordinate_limit() {
    let layout = Layout::new(1_048_576, 1_048_576).unwrap();
    let far = Position::new(-1_000_000_000, 1_000_000_000);
    // exit line 699_050, threshold 699_050 - 58_254
    assert_eq!(
        layout.distance_to_finish(LanePair::SouthToEast, far),
        (1_000_000_000 + 699_050) + (1_000_000_000 - 640_796)
    );
}

#[test]
fn a_vehicle_has_left_once_wholly_outside_on_its_exit_side() {
    let layout = square();
    assert!(!layout.has_left(LanePair::WestToEast, Position::new(600, 334)));
    assert!(layout.has_left(LanePair::WestToEast, Position::new(601, 334)));
    assert!(!layout.has_left(LanePair::NorthToSouth, Position::new(233, 600)));
    assert!(layout.has_left(LanePair::NorthToSouth, Position::new(233, 601)));
    assert!(!layout.has_left(LanePair::EastToWest, Position::new(-49, 233)));
    assert!(layout.has_left(LanePair::EastToWest, Position::new(-50, 233)));
    assert!(!layout.has_left(LanePair::SouthToNorth, Position::new(334, -49)));
    assert!(layout.has_left(LanePair::SouthToNorth, Position::new(334, -50)));
    // being outside on another side does not count
    assert!(!layout.has_left(LanePair::SouthToNorth, Position::new(334, 700)));
}
