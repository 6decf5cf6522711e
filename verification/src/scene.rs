//! Where things are to be drawn.
//!
//! Nothing here draws. These functions turn the layout and the state of a
//! vehicle into the rectangles and angles that a renderer needs, so that the
//! renderer itself holds no geometry.

use crate::geometry::{Direction, LanePair, Layout};
use crate::vehicle::{Vehicle, VehicleState};
use vstd::prelude::*;

verus! {

/// How far the outline around a vehicle extends beyond its longer side.
pub const OUTLINE_MARGIN: u32 = 5;

/// How far the picture of a vehicle that points north or south is shifted
/// down.
pub const UPRIGHT_SHIFT: i32 = 5;

/// A rectangle on the playfield: its top-left corner and its extents.
#[derive(Clone, Copy, Debug, PartialEq, Eq, Structural)]
pub struct Rect {
    pub x: i32,
    pub y: i32,
    pub width: u32,
    pub height: u32,
}

/// The mathematical model of a [`Rect`].
pub struct Frame {
    pub x: int,
    pub y: int,
    pub width: int,
    pub height: int,
}

impl View for Rect {
    type V = Frame;

    open spec fn view(&self) -> Frame {
        Frame {
            x: self.x as int,
            y: self.y as int,
            width: self.width as int,
            height: self.height as int,
        }
    }
}

/// The place of a route among the three of its origin, in the order of the
/// lane buckets.
pub open spec fn spec_lane_rank(pair: LanePair) -> int {
    pair.spec_index() % 3
}

/// The stretch of road through which the lane of a route leads into the
/// central box. The three lanes of an origin lie side by side in the order
/// of their ranks: from the left edge of the road for routes from the north,
/// from its right edge for routes from the south, from the upper edge for
/// routes from the east and from the lower edge for routes from the west.
pub open spec fn spec_lane_rect(layout: Layout, pair: LanePair) -> Frame {
    let rank = spec_lane_rank(pair);
    match pair.spec_origin() {
        Direction::North => Frame {
            x: layout.spec_west_edge() + rank * layout.spec_lane_width(),
            y: 0,
            width: layout.spec_lane_width(),
            height: layout.spec_north_edge(),
        },
        Direction::South => Frame {
            x: layout.spec_east_edge() - (rank + 1) * layout.spec_lane_width(),
            y: layout.spec_south_edge(),
            width: layout.spec_lane_width(),
            height: layout.spec_north_edge(),
        },
        Direction::East => Frame {
            x: layout.spec_east_edge(),
            y: layout.spec_north_edge() + rank * layout.spec_lane_height(),
            width: layout.spec_west_edge(),
            height: layout.spec_lane_height(),
        },
        Direction::West => Frame {
            x: 0,
            y: layout.spec_south_edge() - (rank + 1) * layout.spec_lane_height(),
            width: layout.spec_west_edge(),
            height: layout.spec_lane_height(),
        },
    }
}

/// The continuation of the lane of a route on the far side of the central
/// box.
pub open spec fn spec_opposite_lane_rect(layout: Layout, pair: LanePair) -> Frame {
    let near = spec_lane_rect(layout, pair);
    match pair.spec_origin() {
        Direction::North => Frame { y: layout.spec_south_edge(), ..near },
        Direction::South => Frame { y: 0, ..near },
        Direction::East => Frame { x: 0, ..near },
        Direction::West => Frame { x: layout.spec_east_edge(), ..near },
    }
}

/// The central box.
pub open spec fn spec_centre_rect(layout: Layout) -> Frame {
    Frame {
        x: layout.spec_west_edge(),
        y: layout.spec_north_edge(),
        width: layout.spec_west_edge(),
        height: layout.spec_north_edge(),
    }
}

/// The angle, in degrees, by which the picture of a road is turned for lanes
/// that come from the given side.
pub open spec fn spec_road_angle(origin: Direction) -> int {
    match origin {
        Direction::North | Direction::West => 0,
        Direction::South | Direction::East => 180,
    }
}

/// The angle, in degrees, by which the picture of a vehicle is turned to
/// point in the given direction.
pub open spec fn spec_sprite_angle(facing: Direction) -> int {
    match facing {
        Direction::North => 90,
        Direction::South => 270,
        Direction::East => 180,
        Direction::West => 0,
    }
}

/// The space a vehicle takes up: its position and its present width and
/// height.
pub open spec fn spec_body_rect(v: VehicleState) -> Frame {
    Frame { x: v.position.x, y: v.position.y, width: v.width(), height: v.height() }
}

/// Where the picture of a vehicle goes before it is turned. The picture is
/// always one vehicle length wide and one breadth high; for a vehicle that
/// points north or south it is moved left by half the difference of the two
/// and down by [`UPRIGHT_SHIFT`], so that it covers the body once turned.
pub open spec fn spec_sprite_rect(v: VehicleState) -> Frame {
    let across = (v.layout.spec_vehicle_length() - v.layout.spec_vehicle_breadth()) / 2;
    Frame {
        x: if v.facing.spec_is_vertical() {
            v.position.x - across
        } else {
            v.position.x
        },
        y: if v.facing.spec_is_vertical() {
            v.position.y + UPRIGHT_SHIFT
        } else {
            v.position.y
        },
        width: v.layout.spec_vehicle_length(),
        height: v.layout.spec_vehicle_breadth(),
    }
}

/// The place of a route among the three of its origin.
pub fn lane_rank(pair: LanePair) -> (r: i32)
    ensures
        r == spec_lane_rank(pair),
        0 <= r < 3,
{
    (pair.index() % 3) as i32
}

/// The stretch of road through which the lane of a route leads into the
/// central box.
pub fn lane_rect(layout: &Layout, pair: LanePair) -> (r: Rect)
    requires
        layout.wf(),
    ensures
        r@ == spec_lane_rect(*layout, pair),
{
    let rank: i32 = lane_rank(pair);
    let lane_width: i32 = layout.lane_width();
    let lane_height: i32 = layout.lane_height();
    let along: u32 = layout.exit_line(Direction::North) as u32;
    let across: u32 = layout.exit_line(Direction::West) as u32;
    assert(rank * lane_width <= 3 * lane_width && rank * lane_width >= 0
        && (rank + 1) * lane_width <= 3 * lane_width && (rank + 1) * lane_width >= 0)
        by (nonlinear_arith)
        requires
            0 <= rank < 3,
            lane_width >= 0,
    ;
    assert(rank * lane_height <= 3 * lane_height && rank * lane_height >= 0
        && (rank + 1) * lane_height <= 3 * lane_height && (rank + 1) * lane_height >= 0)
        by (nonlinear_arith)
        requires
            0 <= rank < 3,
            lane_height >= 0,
    ;
    match pair.origin() {
        Direction::North => Rect {
            x: layout.exit_line(Direction::West) + rank * lane_width,
            y: 0,
            width: lane_width as u32,
            height: along,
        },
        Direction::South => Rect {
            x: layout.exit_line(Direction::East) - (rank + 1) * lane_width,
            y: layout.exit_line(Direction::South),
            width: lane_width as u32,
            height: along,
        },
        Direction::East => Rect {
            x: layout.exit_line(Direction::East),
            y: layout.exit_line(Direction::North) + rank * lane_height,
            width: across,
            height: lane_height as u32,
        },
        Direction::West => Rect {
            x: 0,
            y: layout.exit_line(Direction::South) - (rank + 1) * lane_height,
            width: across,
            height: lane_height as u32,
        },
    }
}

/// The continuation of the lane of a route on the far side of the central
/// box.
pub fn opposite_lane_rect(layout: &Layout, pair: LanePair) -> (r: Rect)
    requires
        layout.wf(),
    ensures
        r@ == spec_opposite_lane_rect(*layout, pair),
{
    let near: Rect = lane_rect(layout, pair);
    match pair.origin() {
        Direction::North => Rect {
            x: near.x,
            y: layout.exit_line(Direction::South),
            width: near.width,
            height: near.height,
        },
        Direction::South => Rect { x: near.x, y: 0, width: near.width, height: near.height },
        Direction::East => Rect { x: 0, y: near.y, width: near.width, height: near.height },
        Direction::West => Rect {
            x: layout.exit_line(Direction::East),
            y: near.y,
            width: near.width,
            height: near.height,
        },
    }
}

/// The central box.
pub fn centre_rect(layout: &Layout) -> (r: Rect)
    requires
        layout.wf(),
    ensures
        r@ == spec_centre_rect(*layout),
{
    Rect {
        x: layout.exit_line(Direction::West),
        y: layout.exit_line(Direction::North),
        width: layout.exit_line(Direction::West) as u32,
        height: layout.exit_line(Direction::North) as u32,
    }
}

/// The angle, in degrees, by which the picture of a road is turned for lanes
/// that come from the given side.
pub fn road_angle(origin: Direction) -> (r: u32)
    ensures
        r == spec_road_angle(origin),
{
    match origin {
        Direction::North | Direction::West => 0,
        Direction::South | Direction::East => 180,
    }
}

/// The angle, in degrees, by which the picture of a vehicle is turned to
/// point in the given direction.
pub fn sprite_angle(facing: Direction) -> (r: u32)
    ensures
        r == spec_sprite_angle(facing),
{
    match facing {
        Direction::North => 90,
        Direction::South => 270,
        Direction::East => 180,
        Direction::West => 0,
    }
}

/// The side of the square outline that is drawn around a vehicle.
pub fn outline_side(layout: &Layout) -> (r: u32)
    requires
        layout.wf(),
    ensures
        r == layout.spec_vehicle_length() + OUTLINE_MARGIN,
{
    layout.vehicle_length() as u32 + OUTLINE_MARGIN
}

/// The space a vehicle takes up.
pub fn body_rect(vehicle: &Vehicle) -> (r: Rect)
    requires
        vehicle@.layout.wf(),
    ensures
        r@ == spec_body_rect(vehicle@),
{
    Rect {
        x: vehicle.position.x,
        y: vehicle.position.y,
        width: vehicle.width() as u32,
        height: vehicle.height() as u32,
    }
}

/// Where the picture of a vehicle goes before it is turned.
pub fn sprite_rect(vehicle: &Vehicle) -> (r: Rect)
    requires
        vehicle@.wf(),
    ensures
        r@ == spec_sprite_rect(vehicle@),
{
    let length: i32 = vehicle.layout.vehicle_length();
    let breadth: i32 = vehicle.layout.vehicle_breadth();
    let across: i32 = (length - breadth) / 2;
    if vehicle.facing.is_vertical() {
        Rect {
            x: vehicle.position.x - across,
            y: vehicle.position.y + UPRIGHT_SHIFT,
            width: length as u32,
            height: breadth as u32,
        }
    } else {
        Rect {
            x: vehicle.position.x,
            y: vehicle.position.y,
            width: length as u32,
            height: breadth as u32,
        }
    }
}

} // verus!
