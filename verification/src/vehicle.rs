//! A vehicle: where it is, how fast it goes and what it has been through.
//!
//! A vehicle keeps its route for life. It moves one step of `velocity` units
//! per tick along the axis it arrived on until it reaches the turning point
//! of its route, and along the axis it leaves by from then on.

use crate::geometry::{ahead, Direction, LanePair, Layout, Point, Position, COORD_LIMIT};
use crate::route::lemma_distance_to_finish_non_increasing;
use vstd::prelude::*;

verus! {

/// The slowest a vehicle ever goes.
pub const MINIMUM_VELOCITY: u32 = 1;

/// The speed of a vehicle that has nobody to give way to.
pub const CRUISE_VELOCITY: u32 = 3;

/// The speed of a vehicle that slips through ahead of another.
pub const BURST_VELOCITY: u32 = 4;

/// A vehicle on the playfield.
#[derive(Debug)]
pub struct Vehicle {
    /// Identity, handed out at spawn.
    pub id: u32,
    /// The playfield the vehicle drives on.
    pub layout: Layout,
    /// The route the vehicle follows.
    pub pair: LanePair,
    /// The direction the vehicle points in.
    pub facing: Direction,
    /// Top-left corner of the vehicle.
    pub position: Position,
    /// Units travelled per tick.
    pub velocity: u32,
    /// Time spent on the playfield.
    pub time: u64,
    /// Distance covered, as the sum of velocity times elapsed time.
    pub distance: u64,
    /// Whether the last arbitration that involved the vehicle found a
    /// conflict that no speed resolves.
    pub colliding: bool,
    /// Identities of the vehicles that came too close, each once.
    pub close_calls: Vec<u32>,
}

/// The mathematical model of a [`Vehicle`].
pub struct VehicleState {
    pub id: u32,
    pub layout: Layout,
    pub pair: LanePair,
    pub facing: Direction,
    pub position: Point,
    pub velocity: int,
    pub time: int,
    pub distance: int,
    pub colliding: bool,
    pub close_calls: Seq<u32>,
}

impl View for Vehicle {
    type V = VehicleState;

    open spec fn view(&self) -> VehicleState {
        VehicleState {
            id: self.id,
            layout: self.layout,
            pair: self.pair,
            facing: self.facing,
            position: self.position@,
            velocity: self.velocity as int,
            time: self.time as int,
            distance: self.distance as int,
            colliding: self.colliding,
            close_calls: self.close_calls@,
        }
    }
}

impl VehicleState {
    /// The layout is valid, the velocity lies between the minimum and the
    /// burst velocity, and the position is within the coordinate limit.
    pub open spec fn wf(self) -> bool {
        &&& self.layout.wf()
        &&& MINIMUM_VELOCITY <= self.velocity <= BURST_VELOCITY
        &&& self.position.within(COORD_LIMIT as int)
    }

    /// A vehicle as it appears: at the spawn point of its route, pointing
    /// into the crossing, at cruise velocity, with nothing behind it yet.
    pub open spec fn spawned(layout: Layout, pair: LanePair, id: u32) -> VehicleState {
        VehicleState {
            id,
            layout,
            pair,
            facing: pair.spec_origin().spec_opposite(),
            position: layout.spec_spawn(pair),
            velocity: CRUISE_VELOCITY as int,
            time: 0,
            distance: 0,
            colliding: false,
            close_calls: Seq::empty(),
        }
    }

    /// The same vehicle at another velocity.
    pub open spec fn with_velocity(self, velocity: int) -> VehicleState {
        VehicleState { velocity, ..self }
    }

    /// Where one step takes the vehicle from `at`: `velocity` units along the
    /// axis it arrived on while `at` is short of the turning point, along the
    /// axis it leaves by otherwise.
    pub open spec fn next_position(self, at: Point) -> Point {
        at.shifted(self.layout.spec_heading(self.pair, at), self.velocity)
    }

    /// Where the vehicle stands after `steps` steps from `at`.
    pub open spec fn position_after(self, at: Point, steps: nat) -> Point
        decreases steps,
    {
        if steps == 0 {
            at
        } else {
            self.next_position(self.position_after(at, (steps - 1) as nat))
        }
    }

    /// Whether the vehicle travels along the axis it leaves by.
    pub open spec fn has_reached_turning_point(self) -> bool {
        self.layout.spec_has_reached_turning_point(self.pair, self.position)
    }

    /// Whether the vehicle is in its exit lane: it has reached its turning
    /// point and is at or past the edge of the central box on its exit side.
    pub open spec fn is_in_end_lane(self) -> bool {
        self.layout.spec_is_in_end_lane(self.pair, self.position)
    }

    /// Whether the vehicle stands in the central box.
    pub open spec fn is_in_intersection(self) -> bool {
        self.layout.spec_is_in_intersection(self.position)
    }

    /// Whether the vehicle is still on the playfield or on its way out of it.
    pub open spec fn is_in_entire_intersection(self) -> bool {
        !self.layout.spec_has_left(self.pair, self.position)
    }

    /// Manhattan distance to the point where the vehicle enters its exit
    /// lane.
    pub open spec fn distance_to_finish(self) -> int {
        self.layout.spec_distance_to_finish(self.pair, self.position)
    }

    /// Extent of the vehicle along `x`: its length when it points east or
    /// west, its breadth otherwise.
    pub open spec fn width(self) -> int {
        if self.facing.spec_is_vertical() {
            self.layout.spec_vehicle_breadth()
        } else {
            self.layout.spec_vehicle_length()
        }
    }

    /// Extent of the vehicle along `y`.
    pub open spec fn height(self) -> int {
        if self.facing.spec_is_vertical() {
            self.layout.spec_vehicle_length()
        } else {
            self.layout.spec_vehicle_breadth()
        }
    }

    /// The vehicle one tick of `delta` later: older by `delta`, further by
    /// velocity times `delta`, one step on, and pointing towards its exit if
    /// the step started at or past the turning point.
    pub open spec fn advanced(self, delta: int) -> VehicleState {
        VehicleState {
            time: self.time + delta,
            distance: self.distance + self.velocity * delta,
            facing: if self.has_reached_turning_point() {
                self.pair.spec_exit()
            } else {
                self.facing
            },
            position: self.next_position(self.position),
            ..self
        }
    }

    /// Whether `other` stands in the lane this vehicle arrived in, further
    /// along in the direction of arrival.
    pub open spec fn is_behind(self, other: VehicleState) -> bool {
        let inward = self.pair.spec_origin().spec_opposite();
        &&& if inward.spec_is_vertical() {
            other.position.x == self.position.x
        } else {
            other.position.y == self.position.y
        }
        &&& ahead(inward, self.position.along(inward), other.position.along(inward)) > 0
    }
}

/// The models of a sequence of vehicles.
pub open spec fn states(vehicles: Seq<Vehicle>) -> Seq<VehicleState> {
    vehicles.map_values(|v: Vehicle| v@)
}

impl Clone for Vehicle {
    /// A copy that agrees with the vehicle in every field.
    fn clone(&self) -> (r: Self)
        ensures
            r@ == self@,
    {
        let mut close_calls: Vec<u32> = Vec::new();
        let mut i: usize = 0;
        while i < self.close_calls.len()
            invariant
                i <= self.close_calls.len(),
                close_calls@ == self.close_calls@.take(i as int),
            decreases self.close_calls.len() - i,
        {
            close_calls.push(self.close_calls[i]);
            i += 1;
        }
        assert(self.close_calls@.take(i as int) =~= self.close_calls@);
        Vehicle {
            id: self.id,
            layout: self.layout,
            pair: self.pair,
            facing: self.facing,
            position: self.position,
            velocity: self.velocity,
            time: self.time,
            distance: self.distance,
            colliding: self.colliding,
            close_calls,
        }
    }
}

impl Vehicle {
    /// A vehicle of the given route as it appears on the playfield.
    pub fn new(layout: &Layout, pair: LanePair, id: u32) -> (r: Vehicle)
        requires
            layout.wf(),
        ensures
            r@ == VehicleState::spawned(*layout, pair, id),
            r@.wf(),
    {
        Vehicle {
            id,
            layout: *layout,
            pair,
            facing: pair.origin().opposite(),
            position: layout.spawn_position(pair),
            velocity: CRUISE_VELOCITY,
            time: 0,
            distance: 0,
            colliding: false,
            close_calls: Vec::new(),
        }
    }

    /// The side the vehicle comes from.
    pub fn origin(&self) -> (r: Direction)
        ensures
            r == self@.pair.spec_origin(),
    {
        self.pair.origin()
    }

    /// The side the vehicle leaves towards.
    pub fn direction(&self) -> (r: Direction)
        ensures
            r == self@.pair.spec_exit(),
    {
        self.pair.exit()
    }

    /// Moves the vehicle through one tick of length `delta_time`.
    pub fn update(&mut self, delta_time: u32)
        requires
            old(self)@.wf(),
            old(self)@.time + delta_time <= u64::MAX,
            old(self)@.distance + old(self)@.velocity * delta_time <= u64::MAX,
        ensures
            final(self)@ == old(self)@.advanced(delta_time as int),
            final(self)@.wf() <==> final(self)@.position.within(COORD_LIMIT as int),
            !old(self)@.is_in_end_lane() && old(self)@.velocity <= 2 * old(self)@.finish_ahead()
                ==> final(self)@.distance_to_finish() <= old(self)@.distance_to_finish(),
    {
        proof {
            if !old(self)@.is_in_end_lane() && old(self)@.velocity <= 2 * old(
                self,
            )@.finish_ahead() {
                lemma_distance_to_finish_non_increasing(old(self)@, delta_time as int);
            }
        }
        self.time = self.time + delta_time as u64;
        assert(self.velocity * delta_time <= 4 * delta_time) by (nonlinear_arith)
            requires
                self.velocity <= 4,
                delta_time >= 0,
        ;
        self.distance = self.distance + (self.velocity as u64) * (delta_time as u64);
        self.update_position();
    }

    /// Takes one step and turns the vehicle towards its exit if the step
    /// started at or past the turning point.
    fn update_position(&mut self)
        requires
            old(self)@.wf(),
        ensures
            final(self)@ == (VehicleState {
                facing: if old(self)@.has_reached_turning_point() {
                    old(self)@.pair.spec_exit()
                } else {
                    old(self)@.facing
                },
                position: old(self)@.next_position(old(self)@.position),
                ..old(self)@
            }),
    {
        if self.layout.has_reached_turning_point(self.pair, self.position) {
            self.facing = self.pair.exit();
        }
        let at: Position = self.position;
        self.position = self.get_future_position(&at);
    }

    /// Sets the velocity.
    pub fn set_velocity(&mut self, velocity: u32)
        ensures
            final(self)@ == old(self)@.with_velocity(velocity as int),
    {
        self.velocity = velocity;
    }

    /// Whether the vehicle is in its exit lane: it has reached its turning
    /// point and is at or past the edge of the central box on its exit side.
    pub fn is_in_end_lane(&self) -> (r: bool)
        requires
            self@.layout.wf(),
        ensures
            r == self@.is_in_end_lane(),
    {
        self.layout.is_in_end_lane(self.pair, self.position)
    }

    /// Whether the vehicle stands in the central box.
    pub fn is_in_intersection(&self) -> (r: bool)
        requires
            self@.layout.wf(),
        ensures
            r == self@.is_in_intersection(),
    {
        self.layout.is_in_intersection(self.position)
    }

    /// Whether the vehicle is still on the playfield or on its way out of
    /// it: false once it lies wholly outside, past the boundary on its exit
    /// side.
    pub fn is_in_entire_intersection(&self) -> (r: bool)
        requires
            self@.wf(),
        ensures
            r == self@.is_in_entire_intersection(),
    {
        !self.layout.has_left(self.pair, self.position)
    }

    /// Whether one of `vehicles` stands in the lane this vehicle arrived in,
    /// further along in the direction of arrival.
    pub fn is_car_in_front(&self, vehicles: Vec<Vehicle>) -> (r: bool)
        ensures
            r == exists|i: int| 0 <= i < vehicles.len() && self@.is_behind(#[trigger] vehicles[i]@),
    {
        let mut i: usize = 0;
        while i < vehicles.len()
            invariant
                i <= vehicles.len(),
                forall|j: int| 0 <= j < i ==> !self@.is_behind(#[trigger] vehicles[j]@),
            decreases vehicles.len() - i,
        {
            let other: &Vehicle = &vehicles[i];
            let found: bool = match self.pair.origin() {
                Direction::North => other.position.x == self.position.x && other.position.y
                    > self.position.y,
                Direction::South => other.position.x == self.position.x && other.position.y
                    < self.position.y,
                Direction::East => other.position.y == self.position.y && other.position.x
                    < self.position.x,
                Direction::West => other.position.y == self.position.y && other.position.x
                    > self.position.x,
            };
            if found {
                assert(self@.is_behind(vehicles[i as int]@));
                return true;
            }
            i += 1;
        }
        false
    }

    /// Where one step would take the vehicle from `position`, which need not
    /// be its own. The vehicle itself does not move.
    pub fn get_future_position(&self, position: &Position) -> (r: Position)
        requires
            self@.layout.wf(),
            MINIMUM_VELOCITY <= self@.velocity <= BURST_VELOCITY,
            position@.within(i32::MAX - BURST_VELOCITY),
        ensures
            r@ == self@.next_position(position@),
    {
        let step: i32 = self.velocity as i32;
        match self.layout.heading(self.pair, *position) {
            Direction::North => Position { x: position.x, y: position.y - step },
            Direction::South => Position { x: position.x, y: position.y + step },
            Direction::East => Position { x: position.x + step, y: position.y },
            Direction::West => Position { x: position.x - step, y: position.y },
        }
    }

    /// Whether the vehicle travels along the axis it leaves by.
    pub fn has_reached_turning_point(&self) -> (r: bool)
        requires
            self@.layout.wf(),
        ensures
            r == self@.has_reached_turning_point(),
    {
        self.layout.has_reached_turning_point(self.pair, self.position)
    }

    /// Manhattan distance to the point where the vehicle enters its exit
    /// lane.
    pub fn get_distance_to_finish(&self) -> (r: u32)
        requires
            self@.wf(),
        ensures
            r == self@.distance_to_finish(),
    {
        self.layout.distance_to_finish(self.pair, self.position)
    }

    /// Extent of the vehicle along `x`.
    pub fn width(&self) -> (r: i32)
        requires
            self@.layout.wf(),
        ensures
            r == self@.width(),
    {
        if self.facing.is_vertical() {
            self.layout.vehicle_breadth()
        } else {
            self.layout.vehicle_length()
        }
    }

    /// Extent of the vehicle along `y`.
    pub fn height(&self) -> (r: i32)
        requires
            self@.layout.wf(),
        ensures
            r == self@.height(),
    {
        if self.facing.is_vertical() {
            self.layout.vehicle_length()
        } else {
            self.layout.vehicle_breadth()
        }
    }
}

} // verus!
