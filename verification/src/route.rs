//! What holds of a vehicle that got where it is by driving.
//!
//! A vehicle that starts at the spawn point of its route and only ever moves
//! by steps stays on an L-shaped track: along the axis of arrival up to the
//! turning threshold, which it may overshoot by less than one burst step,
//! and along the axis of departure from there. The distance it has covered
//! along that track is its progress.

use crate::geometry::{ahead, Direction, LanePair, Layout, Point};
use crate::vehicle::{VehicleState, BURST_VELOCITY};
use vstd::prelude::*;

verus! {

impl VehicleState {
    /// The direction in which the vehicle arrives: away from its origin.
    pub open spec fn inward(self) -> Direction {
        self.pair.spec_origin().spec_opposite()
    }

    /// How far the vehicle has come from its spawn point in the direction of
    /// arrival.
    pub open spec fn run_in(self) -> int {
        ahead(
            self.inward(),
            self.layout.spec_spawn(self.pair).along(self.inward()),
            self.position.along(self.inward()),
        )
    }

    /// How far the vehicle has come from its spawn point in the direction of
    /// departure.
    pub open spec fn run_out(self) -> int {
        ahead(
            self.pair.spec_exit(),
            self.layout.spec_spawn(self.pair).along(self.pair.spec_exit()),
            self.position.along(self.pair.spec_exit()),
        )
    }

    /// The length of track between the spawn point and the vehicle.
    pub open spec fn progress(self) -> int {
        if self.pair.spec_is_straight() {
            self.run_in()
        } else {
            self.run_in() + self.run_out()
        }
    }

    /// Whether the vehicle stands on the track of its route. On a straight
    /// route it has kept its lane and not gone backwards. On a turning route
    /// it has, before the turn, kept its lane and not gone backwards; after
    /// the turn it is past the threshold by less than a burst step and has
    /// not gone backwards on the way out.
    pub open spec fn on_route(self) -> bool {
        match self.layout.spec_turning_threshold(self.pair) {
            None => {
                &&& self.run_in() >= 0
                &&& if self.inward().spec_is_vertical() {
                    self.position.x == self.layout.spec_spawn(self.pair).x
                } else {
                    self.position.y == self.layout.spec_spawn(self.pair).y
                }
            },
            Some(threshold) => if self.has_reached_turning_point() {
                &&& 0 <= ahead(self.inward(), threshold, self.position.along(self.inward()))
                    < BURST_VELOCITY
                &&& self.run_out() >= 0
            } else {
                &&& self.run_in() >= 0
                &&& self.run_out() == 0
            },
        }
    }

    /// How far ahead of the vehicle, in its direction of travel, the
    /// coordinate lies that it is heading for: the turning threshold before
    /// the turn, the edge of the central box on the exit side after it.
    /// Negative once the vehicle is past that coordinate.
    pub open spec fn finish_ahead(self) -> int {
        match self.layout.spec_turning_threshold(self.pair) {
            Some(threshold) if !self.has_reached_turning_point() => ahead(
                self.inward(),
                self.position.along(self.inward()),
                threshold,
            ),
            _ => ahead(
                self.pair.spec_exit(),
                self.position.along(self.pair.spec_exit()),
                self.layout.spec_exit_line(self.pair.spec_exit()),
            ),
        }
    }
}

/// A vehicle that has just appeared stands on its track at progress zero,
/// inside the playfield, and short of its turning point unless its route is
/// straight. It is outside its exit lane: always on a turning route, and on
/// a straight route as long as a vehicle is no broader than half the
/// playfield is high.
pub proof fn lemma_spawned_on_route(layout: Layout, pair: LanePair, id: u32)
    requires
        layout.wf(),
    ensures
        VehicleState::spawned(layout, pair, id).wf(),
        VehicleState::spawned(layout, pair, id).on_route(),
        VehicleState::spawned(layout, pair, id).progress() == 0,
        VehicleState::spawned(layout, pair, id).is_in_entire_intersection(),
        !pair.spec_is_straight() || 2 * layout.spec_vehicle_breadth() <= layout.spec_height()
            ==> !VehicleState::spawned(layout, pair, id).is_in_end_lane(),
        VehicleState::spawned(layout, pair, id).has_reached_turning_point()
            == pair.spec_is_straight(),
{
}

/// A step keeps a vehicle on its track and adds its velocity to its
/// progress.
pub proof fn lemma_advanced_on_route(v: VehicleState, delta: int)
    requires
        v.wf(),
        v.on_route(),
    ensures
        v.advanced(delta).on_route(),
        v.advanced(delta).progress() == v.progress() + v.velocity,
{
}

/// A vehicle on its track that has not left the playfield stands between
/// one vehicle length before the playfield and its far boundaries, and its
/// progress is at most the two extents together.
pub proof fn lemma_on_route_in_bounds(v: VehicleState)
    requires
        v.layout.wf(),
        v.on_route(),
        v.is_in_entire_intersection(),
    ensures
        -v.layout.spec_vehicle_length() <= v.position.x <= v.layout.spec_width(),
        -v.layout.spec_vehicle_length() <= v.position.y <= v.layout.spec_height(),
        0 <= v.progress() <= v.layout.spec_width() + v.layout.spec_height(),
{
}

/// On a straight route a vehicle is, after any number of steps, that many
/// times its velocity further towards its exit.
pub proof fn lemma_straight_position_after(v: VehicleState, at: Point, steps: nat)
    requires
        v.pair.spec_is_straight(),
    ensures
        v.position_after(at, steps) == at.shifted(v.pair.spec_exit(), steps * v.velocity),
    decreases steps,
{
    if steps > 0 {
        lemma_straight_position_after(v, at, (steps - 1) as nat);
        assert((steps - 1) * v.velocity + v.velocity == steps * v.velocity) by (nonlinear_arith);
    }
}

/// While the coordinate a vehicle is heading for lies at least half a step
/// ahead of it, a step does not take the vehicle further from its finish.
pub proof fn lemma_distance_to_finish_non_increasing(v: VehicleState, delta: int)
    requires
        v.wf(),
        !v.is_in_end_lane(),
        v.velocity <= 2 * v.finish_ahead(),
    ensures
        v.advanced(delta).distance_to_finish() <= v.distance_to_finish(),
{
}

/// While the coordinate a vehicle is heading for lies at least a full step
/// ahead of it, a step brings the vehicle closer to its finish by exactly
/// its velocity.
pub proof fn lemma_distance_to_finish_decreases(v: VehicleState, delta: int)
    requires
        v.wf(),
        v.velocity <= v.finish_ahead(),
    ensures
        v.advanced(delta).distance_to_finish() == v.distance_to_finish() - v.velocity,
{
}

/// A step takes a vehicle further from its finish exactly when the
/// coordinate it is heading for lies less than half a step ahead of it.
pub proof fn lemma_distance_to_finish_grows_on_overshoot(v: VehicleState, delta: int)
    requires
        v.wf(),
    ensures
        v.advanced(delta).distance_to_finish() > v.distance_to_finish() <==> v.velocity > 2
            * v.finish_ahead(),
{
}

} // verus!
