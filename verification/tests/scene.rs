use smart_road::geometry::{Direction, LanePair, Layout, Position};
use smart_road::scene::{
    body_rect, centre_rect, lane_rank, lane_rect, opposite_lane_rect, outline_side, road_angle,
    sprite_angle, sprite_rect, Rect,
};
use smart_road::vehicle::Vehicle;

fn square() -> Layout {
    Layout::new(600, 600).unwrap()
}

fn rect(x: i32, y: i32, width: u32, height: u32) -> Rect {
    Rect {
        x,
        y,
        width,
        height,
    }
}

#[test]
fn lanes_are_ranked_within_their_origin() {
    assert_eq!(lane_rank(LanePair::NorthToSouth), 0);
    assert_eq!(lane_rank(LanePair::NorthToEast), 1);
    assert_eq!(lane_rank(LanePair::NorthToWest), 2);
    assert_eq!(lane_rank(LanePair::SouthToNorth), 0);
    assert_eq!(lane_rank(LanePair::EastToSouth), 1);
    assert_eq!(lane_rank(LanePair::WestToEast), 2);
}

#[test]
fn lanes_from_the_north_and_their_continuation() {
    let layout = square();
    assert_eq!(lane_rect(&layout, LanePair::NorthToSouth), rect(200, 0, 33, 200));
    assert_eq!(lane_rect(&layout, LanePair::NorthToEast), rect(233, 0, 33, 200));
    assert_eq!(lane_rect(&layout, LanePair::NorthToWest), rect(266, 0, 33, 200));
    assert_eq!(
        opposite_lane_rect(&layout, LanePair::NorthToEast),
        rect(233, 400, 33, 200)
    );
}

#[test]
fn lanes_from_the_south_and_their_continuation() {
    let layout = square();
    assert_eq!(lane_rect(&layout, LanePair::SouthToNorth), rect(367, 400, 33, 200));
    assert_eq!(lane_rect(&layout, LanePair::SouthToEast), rect(334, 400, 33, 200));
    assert_eq!(lane_rect(&layout, LanePair::SouthToWest), rect(301, 400, 33, 200));
    assert_eq!(
        opposite_lane_rect(&layout, LanePair::SouthToWest),
        rect(301, 0, 33, 200)
    );
}

#[test]
fn lanes_from_the_east_and_their_continuation() {
    let layout = square();
    assert_eq!(lane_rect(&layout, LanePair::EastToNorth), rect(400, 200, 200, 33));
    assert_eq!(lane_rect(&layout, LanePair::EastToSouth), rect(400, 233, 200, 33));
    assert_eq!(lane_rect(&layout, LanePair::EastToWest), rect(400, 266, 200, 33));
    assert_eq!(
        opposite_lane_rect(&layout, LanePair::EastToNorth),
        rect(0, 200, 200, 33)
    );
}

#[test]
fn lanes_from_the_west_and_their_continuation() {
    let layout = square();
    assert_eq!(lane_rect(&layout, LanePair::WestToNorth), rect(0, 367, 200, 33));
    assert_eq!(lane_rect(&layout, LanePair::WestToSouth), rect(0, 334, 200, 33));
    assert_eq!(lane_rect(&layout, LanePair::WestToEast), rect(0, 301, 200, 33));
    assert_eq!(
        opposite_lane_rect(&layout, LanePair::WestToEast),
        rect(400, 301, 200, 33)
    );
}

#[test]
fn lanes_on_an_oblong_playfield() {
    let layout = Layout::new(900, 360).unwrap();
    assert_eq!(lane_rect(&layout, LanePair::NorthToEast), rect(350, 0, 50, 120));
    assert_eq!(lane_rect(&layout, LanePair::WestToSouth), rect(0, 200, 300, 20));
    assert_eq!(centre_rect(&layout), rect(300, 120, 300, 120));
}

#[test]
fn the_central_box_of_the_square_playfield() {
    assert_eq!(centre_rect(&square()), rect(200, 200, 200, 200));
}

#[test]
fn angles_of_roads_and_vehicles() {
    assert_eq!(road_angle(Direction::North), 0);
    assert_eq!(road_angle(Direction::West), 0);
    assert_eq!(road_angle(Direction::South), 180);
    assert_eq!(road_angle(Direction::East), 180);
    assert_eq!(sprite_angle(Direction::North), 90);
    assert_eq!(sprite_angle(Direction::South), 270);
    assert_eq!(sprite_angle(Direction::East), 180);
    assert_eq!(sprite_angle(Direction::West), 0);
}

#[test]
fn the_outline_is_wider_than_the_vehicle_is_long() {
    assert_eq!(outline_side(&square()), 54);
}

#[test]
fn body_and_picture_of_an_upright_vehicle() {
    let mut vehicle = Vehicle::new(&square(), LanePair::SouthToNorth, 1);
    vehicle.position = Position::new(334, 500);
    assert_eq!(body_rect(&vehicle), rect(334, 500, 33, 49));
    assert_eq!(sprite_rect(&vehicle), rect(326, 505, 49, 33));
}

#[test]
fn body_and_picture_of_a_level_vehicle() {
    let mut vehicle = Vehicle::new(&square(), LanePair::WestToEast, 1);
    vehicle.position = Position::new(120, 334);
    assert_eq!(body_rect(&vehicle), rect(120, 334, 49, 33));
    assert_eq!(sprite_rect(&vehicle), rect(120, 334, 49, 33));
}
