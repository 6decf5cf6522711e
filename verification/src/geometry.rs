//! Path geometry of the four-way crossing.
//!
//! The playfield is a `width` by `height` rectangle with the origin in its
//! top-left corner, `x` growing to the right and `y` growing downwards. Both
//! roads occupy the middle third of the playfield and are six lanes wide;
//! the central box is where they cross.
//!
//! Everything here is a pure function of a [`Layout`] and a [`LanePair`]:
//! where a vehicle of that pair appears, where it turns, which boundary it
//! leaves through and how far it still is from that boundary.

use vstd::prelude::*;

verus! {

/// How many lane widths fit across the playfield on either axis.
pub const LANES_ACROSS: u32 = 18;

/// Smallest playfield extent on which every lane is at least one unit wide.
pub const MIN_EXTENT: u32 = 18;

/// Largest playfield extent; keeps every coordinate far from the `i32` limits.
pub const MAX_EXTENT: u32 = 1_048_576;

/// Largest absolute coordinate at which the geometry functions accept a
/// position.
pub const COORD_LIMIT: i32 = 1_000_000_000;

/// A compass side of the crossing.
#[derive(Clone, Copy, Debug, PartialEq, Eq, Structural)]
pub enum Direction {
    North,
    South,
    East,
    West,
}

impl Direction {
    /// The side across the crossing.
    pub open spec fn spec_opposite(self) -> Direction {
        match self {
            Direction::North => Direction::South,
            Direction::South => Direction::North,
            Direction::East => Direction::West,
            Direction::West => Direction::East,
        }
    }

    /// Whether travel towards this side runs along the `y` axis.
    pub open spec fn spec_is_vertical(self) -> bool {
        self == Direction::North || self == Direction::South
    }

    /// The side across the crossing.
    #[verifier::when_used_as_spec(spec_opposite)]
    pub fn opposite(self) -> (r: Direction)
        ensures
            r == self.spec_opposite(),
    {
        match self {
            Direction::North => Direction::South,
            Direction::South => Direction::North,
            Direction::East => Direction::West,
            Direction::West => Direction::East,
        }
    }

    /// Whether travel towards this side runs along the `y` axis.
    #[verifier::when_used_as_spec(spec_is_vertical)]
    pub fn is_vertical(self) -> (r: bool)
        ensures
            r == self.spec_is_vertical(),
    {
        match self {
            Direction::North => true,
            Direction::South => true,
            Direction::East => false,
            Direction::West => false,
        }
    }
}

/// One of the twelve routes through the crossing: the side a vehicle comes
/// from and the side it leaves towards. A route that leaves through the side
/// it came from does not exist.
#[derive(Clone, Copy, Debug, PartialEq, Eq, Structural)]
pub enum LanePair {
    NorthToSouth,
    NorthToEast,
    NorthToWest,
    SouthToNorth,
    SouthToEast,
    SouthToWest,
    EastToNorth,
    EastToSouth,
    EastToWest,
    WestToNorth,
    WestToSouth,
    WestToEast,
}

impl LanePair {
    /// The side the route comes from.
    pub open spec fn spec_origin(self) -> Direction {
        match self {
            LanePair::NorthToSouth | LanePair::NorthToEast | LanePair::NorthToWest => {
                Direction::North
            },
            LanePair::SouthToNorth | LanePair::SouthToEast | LanePair::SouthToWest => {
                Direction::South
            },
            LanePair::EastToNorth | LanePair::EastToSouth | LanePair::EastToWest => {
                Direction::East
            },
            LanePair::WestToNorth | LanePair::WestToSouth | LanePair::WestToEast => {
                Direction::West
            },
        }
    }

    /// The side the route leaves towards.
    pub open spec fn spec_exit(self) -> Direction {
        match self {
            LanePair::SouthToNorth | LanePair::EastToNorth | LanePair::WestToNorth => {
                Direction::North
            },
            LanePair::NorthToSouth | LanePair::EastToSouth | LanePair::WestToSouth => {
                Direction::South
            },
            LanePair::NorthToEast | LanePair::SouthToEast | LanePair::WestToEast => {
                Direction::East
            },
            LanePair::NorthToWest | LanePair::SouthToWest | LanePair::EastToWest => {
                Direction::West
            },
        }
    }

    /// The route from `origin` to `exit`, if there is one.
    pub open spec fn spec_new(origin: Direction, exit: Direction) -> Option<LanePair> {
        match (origin, exit) {
            (Direction::North, Direction::South) => Some(LanePair::NorthToSouth),
            (Direction::North, Direction::East) => Some(LanePair::NorthToEast),
            (Direction::North, Direction::West) => Some(LanePair::NorthToWest),
            (Direction::South, Direction::North) => Some(LanePair::SouthToNorth),
            (Direction::South, Direction::East) => Some(LanePair::SouthToEast),
            (Direction::South, Direction::West) => Some(LanePair::SouthToWest),
            (Direction::East, Direction::North) => Some(LanePair::EastToNorth),
            (Direction::East, Direction::South) => Some(LanePair::EastToSouth),
            (Direction::East, Direction::West) => Some(LanePair::EastToWest),
            (Direction::West, Direction::North) => Some(LanePair::WestToNorth),
            (Direction::West, Direction::South) => Some(LanePair::WestToSouth),
            (Direction::West, Direction::East) => Some(LanePair::WestToEast),
            _ => None,
        }
    }

    /// Whether the route crosses without turning.
    pub open spec fn spec_is_straight(self) -> bool {
        self.spec_exit() == self.spec_origin().spec_opposite()
    }

    /// Position of the route in the fixed order of the lane buckets.
    pub open spec fn spec_index(self) -> int {
        match self {
            LanePair::NorthToSouth => 0,
            LanePair::NorthToEast => 1,
            LanePair::NorthToWest => 2,
            LanePair::SouthToNorth => 3,
            LanePair::SouthToEast => 4,
            LanePair::SouthToWest => 5,
            LanePair::EastToNorth => 6,
            LanePair::EastToSouth => 7,
            LanePair::EastToWest => 8,
            LanePair::WestToNorth => 9,
            LanePair::WestToSouth => 10,
            LanePair::WestToEast => 11,
        }
    }

    /// The route at a position of the fixed order, if the position is one.
    pub open spec fn spec_from_index(index: int) -> Option<LanePair> {
        if index == 0 {
            Some(LanePair::NorthToSouth)
        } else if index == 1 {
            Some(LanePair::NorthToEast)
        } else if index == 2 {
            Some(LanePair::NorthToWest)
        } else if index == 3 {
            Some(LanePair::SouthToNorth)
        } else if index == 4 {
            Some(LanePair::SouthToEast)
        } else if index == 5 {
            Some(LanePair::SouthToWest)
        } else if index == 6 {
            Some(LanePair::EastToNorth)
        } else if index == 7 {
            Some(LanePair::EastToSouth)
        } else if index == 8 {
            Some(LanePair::EastToWest)
        } else if index == 9 {
            Some(LanePair::WestToNorth)
        } else if index == 10 {
            Some(LanePair::WestToSouth)
        } else if index == 11 {
            Some(LanePair::WestToEast)
        } else {
            None
        }
    }

    /// The route from `origin` to `exit`. There is none exactly when the two
    /// sides are the same.
    pub fn new(origin: Direction, exit: Direction) -> (r: Option<LanePair>)
        ensures
            r == Self::spec_new(origin, exit),
            r.is_none() <==> origin == exit,
            r matches Some(pair) ==> pair.spec_origin() == origin && pair.spec_exit() == exit,
    {
        match (origin, exit) {
            (Direction::North, Direction::South) => Some(LanePair::NorthToSouth),
            (Direction::North, Direction::East) => Some(LanePair::NorthToEast),
            (Direction::North, Direction::West) => Some(LanePair::NorthToWest),
            (Direction::South, Direction::North) => Some(LanePair::SouthToNorth),
            (Direction::South, Direction::East) => Some(LanePair::SouthToEast),
            (Direction::South, Direction::West) => Some(LanePair::SouthToWest),
            (Direction::East, Direction::North) => Some(LanePair::EastToNorth),
            (Direction::East, Direction::South) => Some(LanePair::EastToSouth),
            (Direction::East, Direction::West) => Some(LanePair::EastToWest),
            (Direction::West, Direction::North) => Some(LanePair::WestToNorth),
            (Direction::West, Direction::South) => Some(LanePair::WestToSouth),
            (Direction::West, Direction::East) => Some(LanePair::WestToEast),
            _ => None,
        }
    }

    /// The route between two different sides.
    pub fn between(origin: Direction, exit: Direction) -> (r: LanePair)
        requires
            origin != exit,
        ensures
            Some(r) == Self::spec_new(origin, exit),
            r.spec_origin() == origin,
            r.spec_exit() == exit,
    {
        match Self::new(origin, exit) {
            Some(pair) => pair,
            None => vstd::pervasive::unreached(),
        }
    }

    /// The side the route comes from.
    #[verifier::when_used_as_spec(spec_origin)]
    pub fn origin(self) -> (r: Direction)
        ensures
            r == self.spec_origin(),
    {
        match self {
            LanePair::NorthToSouth | LanePair::NorthToEast | LanePair::NorthToWest => {
                Direction::North
            },
            LanePair::SouthToNorth | LanePair::SouthToEast | LanePair::SouthToWest => {
                Direction::South
            },
            LanePair::EastToNorth | LanePair::EastToSouth | LanePair::EastToWest => {
                Direction::East
            },
            LanePair::WestToNorth | LanePair::WestToSouth | LanePair::WestToEast => {
                Direction::West
            },
        }
    }

    /// The side the route leaves towards.
    #[verifier::when_used_as_spec(spec_exit)]
    pub fn exit(self) -> (r: Direction)
        ensures
            r == self.spec_exit(),
    {
        match self {
            LanePair::SouthToNorth | LanePair::EastToNorth | LanePair::WestToNorth => {
                Direction::North
            },
            LanePair::NorthToSouth | LanePair::EastToSouth | LanePair::WestToSouth => {
                Direction::South
            },
            LanePair::NorthToEast | LanePair::SouthToEast | LanePair::WestToEast => {
                Direction::East
            },
            LanePair::NorthToWest | LanePair::SouthToWest | LanePair::EastToWest => {
                Direction::West
            },
        }
    }

    /// Whether the route crosses without turning.
    #[verifier::when_used_as_spec(spec_is_straight)]
    pub fn is_straight(self) -> (r: bool)
        ensures
            r == self.spec_is_straight(),
    {
        match self {
            LanePair::NorthToSouth => true,
            LanePair::SouthToNorth => true,
            LanePair::EastToWest => true,
            LanePair::WestToEast => true,
            _ => false,
        }
    }

    /// Position of the route in the fixed order of the lane buckets.
    pub fn index(self) -> (r: usize)
        ensures
            r == self.spec_index(),
            r < 12,
            Self::spec_from_index(r as int) == Some(self),
    {
        match self {
            LanePair::NorthToSouth => 0,
            LanePair::NorthToEast => 1,
            LanePair::NorthToWest => 2,
            LanePair::SouthToNorth => 3,
            LanePair::SouthToEast => 4,
            LanePair::SouthToWest => 5,
            LanePair::EastToNorth => 6,
            LanePair::EastToSouth => 7,
            LanePair::EastToWest => 8,
            LanePair::WestToNorth => 9,
            LanePair::WestToSouth => 10,
            LanePair::WestToEast => 11,
        }
    }

    /// The route at a position of the fixed order; none from twelve upwards.
    pub fn from_index(index: usize) -> (r: Option<LanePair>)
        ensures
            r == Self::spec_from_index(index as int),
            r.is_some() <==> index < 12,
            r matches Some(pair) ==> pair.spec_index() == index,
    {
        match index {
            0 => Some(LanePair::NorthToSouth),
            1 => Some(LanePair::NorthToEast),
            2 => Some(LanePair::NorthToWest),
            3 => Some(LanePair::SouthToNorth),
            4 => Some(LanePair::SouthToEast),
            5 => Some(LanePair::SouthToWest),
            6 => Some(LanePair::EastToNorth),
            7 => Some(LanePair::EastToSouth),
            8 => Some(LanePair::EastToWest),
            9 => Some(LanePair::WestToNorth),
            10 => Some(LanePair::WestToSouth),
            11 => Some(LanePair::WestToEast),
            _ => None,
        }
    }
}

/// A point of the plane with unbounded integer coordinates: the model of a
/// [`Position`].
pub struct Point {
    pub x: int,
    pub y: int,
}

impl Point {
    /// The coordinate that changes when travelling towards `heading`.
    pub open spec fn along(self, heading: Direction) -> int {
        if heading.spec_is_vertical() {
            self.y
        } else {
            self.x
        }
    }

    /// The point `amount` units further towards `heading`.
    pub open spec fn shifted(self, heading: Direction, amount: int) -> Point {
        match heading {
            Direction::North => Point { x: self.x, y: self.y - amount },
            Direction::South => Point { x: self.x, y: self.y + amount },
            Direction::East => Point { x: self.x + amount, y: self.y },
            Direction::West => Point { x: self.x - amount, y: self.y },
        }
    }

    /// Whether both coordinates lie within `limit` of zero.
    pub open spec fn within(self, limit: int) -> bool {
        -limit <= self.x <= limit && -limit <= self.y <= limit
    }
}

/// How far the coordinate `to` lies ahead of the coordinate `from` for someone
/// travelling towards `heading`; negative when it lies behind.
pub open spec fn ahead(heading: Direction, from: int, to: int) -> int {
    match heading {
        Direction::South | Direction::East => to - from,
        Direction::North | Direction::West => from - to,
    }
}

/// The absolute value of an integer.
pub open spec fn magnitude(value: int) -> int {
    if value < 0 {
        -value
    } else {
        value
    }
}

/// A position on the playfield, in whole units.
#[derive(Clone, Copy, Debug, PartialEq, Eq, Structural)]
pub struct Position {
    pub x: i32,
    pub y: i32,
}

impl View for Position {
    type V = Point;

    open spec fn view(&self) -> Point {
        Point { x: self.x as int, y: self.y as int }
    }
}

impl Position {
    /// A position from its two coordinates.
    pub fn new(x: i32, y: i32) -> (r: Position)
        ensures
            r.x == x,
            r.y == y,
    {
        Position { x, y }
    }
}

/// Why a playfield was refused.
#[derive(Clone, Copy, Debug, PartialEq, Eq, Structural)]
pub enum LayoutError {
    /// An extent is below [`MIN_EXTENT`]: a lane would have no width.
    TooSmall,
    /// An extent is above [`MAX_EXTENT`].
    TooLarge,
}

/// The dimensions of the playfield, from which every lane, threshold and
/// boundary is derived.
#[derive(Clone, Copy, Debug, PartialEq, Eq, Structural)]
pub struct Layout {
    width: u32,
    height: u32,
}

impl Layout {
    /// Both extents lie between [`MIN_EXTENT`] and [`MAX_EXTENT`].
    pub open spec fn wf(self) -> bool {
        &&& MIN_EXTENT <= self.spec_width() <= MAX_EXTENT
        &&& MIN_EXTENT <= self.spec_height() <= MAX_EXTENT
    }

    /// Horizontal extent of the playfield.
    pub closed spec fn spec_width(self) -> int {
        self.width as int
    }

    /// Vertical extent of the playfield.
    pub closed spec fn spec_height(self) -> int {
        self.height as int
    }

    /// What `new` answers for the two extents.
    pub open spec fn spec_new(width: u32, height: u32) -> Result<Layout, LayoutError> {
        if width < MIN_EXTENT || height < MIN_EXTENT {
            Err(LayoutError::TooSmall)
        } else if width > MAX_EXTENT || height > MAX_EXTENT {
            Err(LayoutError::TooLarge)
        } else {
            Ok(Self::spec_of(width, height))
        }
    }

    /// The layout with the given extents.
    pub closed spec fn spec_of(width: u32, height: u32) -> Layout {
        Layout { width, height }
    }

    /// Width of a lane that runs north-south.
    pub open spec fn spec_lane_width(self) -> int {
        self.spec_width() / (LANES_ACROSS as int)
    }

    /// Height of a lane that runs east-west.
    pub open spec fn spec_lane_height(self) -> int {
        self.spec_height() / (LANES_ACROSS as int)
    }

    /// The longer side of a vehicle: one and a half lane widths.
    pub open spec fn spec_vehicle_length(self) -> int {
        self.spec_lane_width() * 3 / 2
    }

    /// The shorter side of a vehicle: one lane width.
    pub open spec fn spec_vehicle_breadth(self) -> int {
        self.spec_lane_width()
    }

    /// Left edge of the north-south road.
    pub open spec fn spec_west_edge(self) -> int {
        self.spec_width() / 3
    }

    /// Right edge of the north-south road.
    pub open spec fn spec_east_edge(self) -> int {
        self.spec_width() * 2 / 3
    }

    /// Upper edge of the east-west road.
    pub open spec fn spec_north_edge(self) -> int {
        self.spec_height() / 3
    }

    /// Lower edge of the east-west road.
    pub open spec fn spec_south_edge(self) -> int {
        self.spec_height() * 2 / 3
    }

    /// The edge of the central box through which a vehicle enters the lane
    /// that leads out towards `exit`.
    pub open spec fn spec_exit_line(self, exit: Direction) -> int {
        match exit {
            Direction::North => self.spec_north_edge(),
            Direction::South => self.spec_south_edge(),
            Direction::East => self.spec_east_edge(),
            Direction::West => self.spec_west_edge(),
        }
    }

    /// How far the lane of a route lies from the road edge its origin counts
    /// from. Routes from the north count from the left edge of their road to
    /// the right, routes from the south from its right edge to the left,
    /// routes from the east from the upper edge of theirs downwards, routes
    /// from the west from its lower edge upwards.
    pub open spec fn spec_lane_offset(self, pair: LanePair) -> int {
        match pair {
            LanePair::NorthToWest => 0,
            LanePair::NorthToSouth => self.spec_lane_width(),
            LanePair::NorthToEast => 2 * self.spec_lane_width(),
            LanePair::SouthToEast => self.spec_lane_width(),
            LanePair::SouthToNorth => 2 * self.spec_lane_width(),
            LanePair::SouthToWest => 3 * self.spec_lane_width(),
            LanePair::EastToNorth => 0,
            LanePair::EastToWest => self.spec_lane_height(),
            LanePair::EastToSouth => 2 * self.spec_lane_height(),
            LanePair::WestToSouth => self.spec_lane_height(),
            LanePair::WestToEast => 2 * self.spec_lane_height(),
            LanePair::WestToNorth => 3 * self.spec_lane_height(),
        }
    }

    /// Where a vehicle of a route appears. It stands in its lane at the
    /// playfield boundary of its origin; on the two straight routes that
    /// start at the far boundaries it stands wholly inside.
    pub open spec fn spec_spawn(self, pair: LanePair) -> Point {
        match pair.spec_origin() {
            Direction::North => Point {
                x: self.spec_west_edge() + self.spec_lane_offset(pair),
                y: 0,
            },
            Direction::South => Point {
                x: self.spec_east_edge() - self.spec_lane_offset(pair),
                y: if pair.spec_is_straight() {
                    self.spec_height() - self.spec_vehicle_breadth()
                } else {
                    self.spec_height()
                },
            },
            Direction::East => Point {
                x: if pair.spec_is_straight() {
                    self.spec_width() - self.spec_vehicle_length()
                } else {
                    self.spec_width()
                },
                y: self.spec_north_edge() + self.spec_lane_offset(pair),
            },
            Direction::West => Point {
                x: 0,
                y: self.spec_south_edge() - self.spec_lane_offset(pair),
            },
        }
    }

    /// The coordinate, on the axis a route arrives along, at which its
    /// vehicles switch to the axis they leave along. Straight routes have
    /// none.
    pub open spec fn spec_turning_threshold(self, pair: LanePair) -> Option<int> {
        match pair {
            LanePair::NorthToEast => Some(self.spec_south_edge() - 3 * self.spec_lane_height()),
            LanePair::NorthToWest => Some(self.spec_north_edge()),
            LanePair::SouthToEast => Some(self.spec_south_edge() - self.spec_lane_height()),
            LanePair::SouthToWest => Some(self.spec_north_edge() + 2 * self.spec_lane_height()),
            LanePair::EastToNorth => Some(self.spec_east_edge() - self.spec_lane_width()),
            LanePair::EastToSouth => Some(self.spec_west_edge() + 2 * self.spec_lane_width()),
            LanePair::WestToNorth => Some(self.spec_east_edge() - 3 * self.spec_lane_width()),
            LanePair::WestToSouth => Some(self.spec_west_edge()),
            LanePair::NorthToSouth => None,
            LanePair::SouthToNorth => None,
            LanePair::EastToWest => None,
            LanePair::WestToEast => None,
        }
    }

    /// Whether a vehicle of the route standing at `at` travels along the axis
    /// it leaves by. Straight routes do so from the start; the others once
    /// they are at or past their turning threshold.
    pub open spec fn spec_has_reached_turning_point(self, pair: LanePair, at: Point) -> bool {
        match self.spec_turning_threshold(pair) {
            None => true,
            Some(threshold) => ahead(
                pair.spec_origin().spec_opposite(),
                threshold,
                at.along(pair.spec_origin()),
            ) >= 0,
        }
    }

    /// The direction in which a vehicle of the route standing at `at` moves.
    pub open spec fn spec_heading(self, pair: LanePair, at: Point) -> Direction {
        if self.spec_has_reached_turning_point(pair, at) {
            pair.spec_exit()
        } else {
            pair.spec_origin().spec_opposite()
        }
    }

    /// Whether a vehicle of the route standing at `at` is in its exit lane:
    /// it has reached its turning point and is at or past the edge of the
    /// central box on its exit side. A vehicle that is still on the road it
    /// came by is not, wherever that road runs.
    pub open spec fn spec_is_in_end_lane(self, pair: LanePair, at: Point) -> bool {
        &&& self.spec_has_reached_turning_point(pair, at)
        &&& ahead(
            pair.spec_exit(),
            self.spec_exit_line(pair.spec_exit()),
            at.along(pair.spec_exit()),
        ) >= 0
    }

    /// Whether `at` lies in the central box, edges included.
    pub open spec fn spec_is_in_intersection(self, at: Point) -> bool {
        &&& self.spec_west_edge() <= at.x <= self.spec_east_edge()
        &&& self.spec_north_edge() <= at.y <= self.spec_south_edge()
    }

    /// Manhattan distance from `at` to the point where the route enters its
    /// exit lane: the edge of the central box on the exit side, on the axis
    /// the route leaves along, and the turning threshold on the axis it
    /// arrives along. A straight route has only the first part.
    pub open spec fn spec_distance_to_finish(self, pair: LanePair, at: Point) -> int {
        magnitude(self.spec_exit_line(pair.spec_exit()) - at.along(pair.spec_exit())) + (
        match self.spec_turning_threshold(pair) {
            None => 0,
            Some(threshold) => magnitude(threshold - at.along(pair.spec_origin())),
        })
    }

    /// Whether a vehicle of the route standing at `at` lies wholly outside
    /// the playfield, past the boundary on its exit side.
    pub open spec fn spec_has_left(self, pair: LanePair, at: Point) -> bool {
        match pair.spec_exit() {
            Direction::North => at.y + self.spec_vehicle_length() < 0,
            Direction::South => at.y > self.spec_height(),
            Direction::East => at.x > self.spec_width(),
            Direction::West => at.x + self.spec_vehicle_length() < 0,
        }
    }

    /// A layout for a playfield of the given extents. Extents below
    /// [`MIN_EXTENT`] are refused as too small; otherwise extents above
    /// [`MAX_EXTENT`] are refused as too large.
    pub fn new(width: u32, height: u32) -> (r: Result<Layout, LayoutError>)
        ensures
            r == Self::spec_new(width, height),
            r matches Ok(layout) ==> layout.wf() && layout.spec_width() == width
                && layout.spec_height() == height,
            r.is_ok() <==> MIN_EXTENT <= width <= MAX_EXTENT && MIN_EXTENT <= height
                <= MAX_EXTENT,
    {
        if width < MIN_EXTENT || height < MIN_EXTENT {
            Err(LayoutError::TooSmall)
        } else if width > MAX_EXTENT || height > MAX_EXTENT {
            Err(LayoutError::TooLarge)
        } else {
            Ok(Layout { width, height })
        }
    }

    /// Horizontal extent of the playfield.
    pub fn width(&self) -> (r: u32)
        ensures
            r == self.spec_width(),
    {
        self.width
    }

    /// Vertical extent of the playfield.
    pub fn height(&self) -> (r: u32)
        ensures
            r == self.spec_height(),
    {
        self.height
    }

    /// Width of a lane that runs north-south.
    pub fn lane_width(&self) -> (r: i32)
        requires
            self.wf(),
        ensures
            r == self.spec_lane_width(),
    {
        (self.width / LANES_ACROSS) as i32
    }

    /// Height of a lane that runs east-west.
    pub fn lane_height(&self) -> (r: i32)
        requires
            self.wf(),
        ensures
            r == self.spec_lane_height(),
    {
        (self.height / LANES_ACROSS) as i32
    }

    /// The longer side of a vehicle.
    pub fn vehicle_length(&self) -> (r: i32)
        requires
            self.wf(),
        ensures
            r == self.spec_vehicle_length(),
    {
        self.lane_width() * 3 / 2
    }

    /// The shorter side of a vehicle.
    pub fn vehicle_breadth(&self) -> (r: i32)
        requires
            self.wf(),
        ensures
            r == self.spec_vehicle_breadth(),
    {
        self.lane_width()
    }

    /// The edge of the central box on the side of `exit`.
    pub fn exit_line(&self, exit: Direction) -> (r: i32)
        requires
            self.wf(),
        ensures
            r == self.spec_exit_line(exit),
    {
        match exit {
            Direction::North => (self.height / 3) as i32,
            Direction::South => (self.height * 2 / 3) as i32,
            Direction::East => (self.width * 2 / 3) as i32,
            Direction::West => (self.width / 3) as i32,
        }
    }

    /// How far the lane of a route lies from the road edge its origin counts
    /// from.
    pub fn lane_offset(&self, pair: LanePair) -> (r: i32)
        requires
            self.wf(),
        ensures
            r == self.spec_lane_offset(pair),
    {
        match pair {
            LanePair::NorthToWest => 0,
            LanePair::NorthToSouth => self.lane_width(),
            LanePair::NorthToEast => 2 * self.lane_width(),
            LanePair::SouthToEast => self.lane_width(),
            LanePair::SouthToNorth => 2 * self.lane_width(),
            LanePair::SouthToWest => 3 * self.lane_width(),
            LanePair::EastToNorth => 0,
            LanePair::EastToWest => self.lane_height(),
            LanePair::EastToSouth => 2 * self.lane_height(),
            LanePair::WestToSouth => self.lane_height(),
            LanePair::WestToEast => 2 * self.lane_height(),
            LanePair::WestToNorth => 3 * self.lane_height(),
        }
    }

    /// Where a vehicle of a route appears.
    pub fn spawn_position(&self, pair: LanePair) -> (r: Position)
        requires
            self.wf(),
        ensures
            r@ == self.spec_spawn(pair),
    {
        let offset: i32 = self.lane_offset(pair);
        let width: i32 = self.width as i32;
        let height: i32 = self.height as i32;
        match pair.origin() {
            Direction::North => Position {
                x: self.exit_line(Direction::West) + offset,
                y: 0,
            },
            Direction::South => Position {
                x: self.exit_line(Direction::East) - offset,
                y: if pair.is_straight() {
                    height - self.vehicle_breadth()
                } else {
                    height
                },
            },
            Direction::East => Position {
                x: if pair.is_straight() {
                    width - self.vehicle_length()
                } else {
                    width
                },
                y: self.exit_line(Direction::North) + offset,
            },
            Direction::West => Position {
                x: 0,
                y: self.exit_line(Direction::South) - offset,
            },
        }
    }

    /// The coordinate at which vehicles of a route switch axis; none for a
    /// straight route.
    pub fn turning_threshold(&self, pair: LanePair) -> (r: Option<i32>)
        requires
            self.wf(),
        ensures
            r.is_some() == self.spec_turning_threshold(pair).is_some(),
            r matches Some(threshold) ==> self.spec_turning_threshold(pair) == Some(
                threshold as int,
            ),
            r.is_none() <==> pair.spec_is_straight(),
    {
        match pair {
            LanePair::NorthToEast => Some(
                self.exit_line(Direction::South) - 3 * self.lane_height(),
            ),
            LanePair::NorthToWest => Some(self.exit_line(Direction::North)),
            LanePair::SouthToEast => Some(self.exit_line(Direction::South) - self.lane_height()),
            LanePair::SouthToWest => Some(
                self.exit_line(Direction::North) + 2 * self.lane_height(),
            ),
            LanePair::EastToNorth => Some(self.exit_line(Direction::East) - self.lane_width()),
            LanePair::EastToSouth => Some(self.exit_line(Direction::West) + 2 * self.lane_width()),
            LanePair::WestToNorth => Some(
                self.exit_line(Direction::East) - 3 * self.lane_width(),
            ),
            LanePair::WestToSouth => Some(self.exit_line(Direction::West)),
            LanePair::NorthToSouth => None,
            LanePair::SouthToNorth => None,
            LanePair::EastToWest => None,
            LanePair::WestToEast => None,
        }
    }

    /// Whether a vehicle of the route standing at `at` travels along the axis
    /// it leaves by.
    pub fn has_reached_turning_point(&self, pair: LanePair, at: Position) -> (r: bool)
        requires
            self.wf(),
        ensures
            r == self.spec_has_reached_turning_point(pair, at@),
    {
        match self.turning_threshold(pair) {
            None => true,
            Some(threshold) => match pair.origin() {
                Direction::North => at.y >= threshold,
                Direction::South => at.y <= threshold,
                Direction::East => at.x <= threshold,
                Direction::West => at.x >= threshold,
            },
        }
    }

    /// The direction in which a vehicle of the route standing at `at` moves.
    pub fn heading(&self, pair: LanePair, at: Position) -> (r: Direction)
        requires
            self.wf(),
        ensures
            r == self.spec_heading(pair, at@),
    {
        if self.has_reached_turning_point(pair, at) {
            pair.exit()
        } else {
            pair.origin().opposite()
        }
    }

    /// Whether a vehicle of the route standing at `at` is in its exit lane:
    /// it has reached its turning point and is at or past the edge of the
    /// central box on its exit side.
    pub fn is_in_end_lane(&self, pair: LanePair, at: Position) -> (r: bool)
        requires
            self.wf(),
        ensures
            r == self.spec_is_in_end_lane(pair, at@),
    {
        if !self.has_reached_turning_point(pair, at) {
            return false;
        }
        let exit: Direction = pair.exit();
        let line: i32 = self.exit_line(exit);
        match exit {
            Direction::North => at.y <= line,
            Direction::South => at.y >= line,
            Direction::East => at.x >= line,
            Direction::West => at.x <= line,
        }
    }

    /// Whether `at` lies in the central box, edges included.
    pub fn is_in_intersection(&self, at: Position) -> (r: bool)
        requires
            self.wf(),
        ensures
            r == self.spec_is_in_intersection(at@),
    {
        at.x >= self.exit_line(Direction::West) && at.x <= self.exit_line(Direction::East)
            && at.y >= self.exit_line(Direction::North) && at.y <= self.exit_line(
            Direction::South,
        )
    }

    /// Manhattan distance from `at` to the point where the route enters its
    /// exit lane.
    pub fn distance_to_finish(&self, pair: LanePair, at: Position) -> (r: u32)
        requires
            self.wf(),
            at@.within(COORD_LIMIT as int),
        ensures
            r == self.spec_distance_to_finish(pair, at@),
    {
        let exit: Direction = pair.exit();
        let line: i64 = self.exit_line(exit) as i64;
        let on_exit_axis: i64 = if exit.is_vertical() {
            at.y as i64
        } else {
            at.x as i64
        };
        let first: i64 = if line < on_exit_axis {
            on_exit_axis - line
        } else {
            line - on_exit_axis
        };
        let second: i64 = match self.turning_threshold(pair) {
            None => 0,
            Some(threshold) => {
                let on_origin_axis: i64 = if pair.origin().is_vertical() {
                    at.y as i64
                } else {
                    at.x as i64
                };
                if (threshold as i64) < on_origin_axis {
                    on_origin_axis - threshold as i64
                } else {
                    threshold as i64 - on_origin_axis
                }
            },
        };
        (first + second) as u32
    }

    /// Whether a vehicle of the route standing at `at` lies wholly outside
    /// the playfield, past the boundary on its exit side.
    pub fn has_left(&self, pair: LanePair, at: Position) -> (r: bool)
        requires
            self.wf(),
            at@.within(COORD_LIMIT as int),
        ensures
            r == self.spec_has_left(pair, at@),
    {
        match pair.exit() {
            Direction::North => at.y + self.vehicle_length() < 0,
            Direction::South => at.y > self.height as i32,
            Direction::East => at.x > self.width as i32,
            Direction::West => at.x + self.vehicle_length() < 0,
        }
    }
}

} // verus!
