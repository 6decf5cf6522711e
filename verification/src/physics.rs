//! Prediction of collisions and detection of close calls.
//!
//! Two vehicles are within reach of one another when their positions differ
//! by no more than a reach on both axes at once. The predictor rolls both
//! vehicles forward in lock-step and asks whether they ever come within the
//! footprint plus a safety gap; the close-call check asks whether they are
//! within the bare footprint right now.

use crate::geometry::{magnitude, Layout, Point, Position, COORD_LIMIT};
use crate::vehicle::{states, Vehicle, VehicleState, BURST_VELOCITY};
use vstd::prelude::*;

pub mod laws;

use laws::{lemma_step_is_bounded, lemma_will_collide_symmetric};

verus! {

/// Clearance that the predictor adds to the footprint.
pub const SAFETY_GAP: i32 = 4;

/// Number of steps the predictor looks ahead.
pub const HORIZON: u32 = 1000;

/// The side of the square that two vehicles must keep between their
/// positions: the longer side of the longer of the two.
pub open spec fn footprint(a: VehicleState, b: VehicleState) -> int {
    if a.layout.spec_vehicle_length() >= b.layout.spec_vehicle_length() {
        a.layout.spec_vehicle_length()
    } else {
        b.layout.spec_vehicle_length()
    }
}

/// Whether two points differ by at most `reach` on both axes.
pub open spec fn within_reach(p: Point, q: Point, reach: int) -> bool {
    magnitude(p.x - q.x) <= reach && magnitude(p.y - q.y) <= reach
}

/// Whether the two vehicles are within footprint and safety gap of one
/// another after both have taken `steps` steps at their present velocities.
pub open spec fn collide_after(a: VehicleState, b: VehicleState, steps: nat) -> bool {
    within_reach(
        a.position_after(a.position, steps),
        b.position_after(b.position, steps),
        footprint(a, b) + SAFETY_GAP,
    )
}

/// Whether the two vehicles come within footprint and safety gap of one
/// another at some step from the first to the last of the horizon.
pub open spec fn will_collide(a: VehicleState, b: VehicleState) -> bool {
    exists|steps: nat| 1 <= steps <= HORIZON && #[trigger] collide_after(a, b, steps)
}

/// Whether two vehicles move alike: same playfield, same route, same
/// velocity, same position.
pub open spec fn same_motion(a: VehicleState, b: VehicleState) -> bool {
    &&& a.layout == b.layout
    &&& a.pair == b.pair
    &&& a.velocity == b.velocity
    &&& a.position == b.position
}

/// Twice the offset of a point from the centre of the playfield, squared and
/// summed over both axes: four times the square of its distance from the
/// centre.
pub open spec fn centre_offset(layout: Layout, p: Point) -> int {
    (2 * p.x - layout.spec_width()) * (2 * p.x - layout.spec_width()) + (2 * p.y
        - layout.spec_height()) * (2 * p.y - layout.spec_height())
}

/// Whether the two vehicles are different and within the bare footprint of
/// one another where they stand.
pub open spec fn is_close_call(a: VehicleState, b: VehicleState) -> bool {
    a.id != b.id && within_reach(a.position, b.position, footprint(a, b))
}

/// The close-call partners of `car` once it has looked at the first `upto`
/// of `others`: each of them that is a close call and not yet among the
/// partners joins at the end.
pub open spec fn partners_after(car: VehicleState, others: Seq<VehicleState>, upto: int) -> Seq<
    u32,
>
    decreases upto,
{
    if upto <= 0 {
        car.close_calls
    } else {
        let before = partners_after(car, others, upto - 1);
        let other = others[upto - 1];
        if is_close_call(car, other) && !before.contains(other.id) {
            before.push(other.id)
        } else {
            before
        }
    }
}

/// How many of the partners that `car` gains from the first `upto` of
/// `others` have a greater identity than its own. Summed over all vehicles
/// this counts every pair of identities once, on the side of the smaller.
pub open spec fn fresh_pairs(car: VehicleState, others: Seq<VehicleState>, upto: int) -> int
    decreases upto,
{
    if upto <= 0 {
        0
    } else {
        let before = partners_after(car, others, upto - 1);
        let other = others[upto - 1];
        fresh_pairs(car, others, upto - 1) + if is_close_call(car, other) && !before.contains(
            other.id,
        ) && other.id > car.id {
            1int
        } else {
            0int
        }
    }
}

/// Whether two vehicles agree in everything but the mark of a collision.
pub open spec fn same_but_mark(a: VehicleState, b: VehicleState) -> bool {
    a == (VehicleState { colliding: a.colliding, ..b })
}

/// The predicate that tells the identities greater than `identity` from the
/// rest.
pub open spec fn greater_than(identity: u32) -> spec_fn(u32) -> bool {
    |other: u32| other > identity
}

/// Whether no two of the vehicles share an identity.
pub open spec fn distinct_identities(vehicles: Seq<VehicleState>) -> bool {
    forall|i: int, j: int|
        0 <= i < j < vehicles.len() ==> (#[trigger] vehicles[i]).id != (#[trigger] vehicles[j]).id
}

/// The predicate that tells the vehicles that `car` counts as fresh pairs
/// from the rest: those that are a close call, are not yet among its
/// partners and have a greater identity than its own.
pub open spec fn counts_as_fresh(car: VehicleState) -> spec_fn(VehicleState) -> bool {
    |other: VehicleState|
        is_close_call(car, other) && !car.close_calls.contains(other.id) && other.id > car.id
}

/// Whether the two vehicles, each keeping its present velocity, come within
/// footprint and safety gap of one another during the next [`HORIZON`]
/// steps. Neither vehicle is moved.
pub fn will_vehicles_collide(vehicle_a: &Vehicle, vehicle_b: &Vehicle) -> (r: bool)
    requires
        vehicle_a@.wf(),
        vehicle_b@.wf(),
    ensures
        r == will_collide(vehicle_a@, vehicle_b@),
        r == will_collide(vehicle_b@, vehicle_a@),
{
    proof {
        lemma_will_collide_symmetric(vehicle_a@, vehicle_b@);
    }
    let reach: i32 = footprint_of(vehicle_a, vehicle_b) + SAFETY_GAP;
    let mut position_a: Position = vehicle_a.position;
    let mut position_b: Position = vehicle_b.position;
    let mut steps: u32 = 0;
    while steps < HORIZON
        invariant
            steps <= HORIZON,
            vehicle_a@.wf(),
            vehicle_b@.wf(),
            reach == footprint(vehicle_a@, vehicle_b@) + SAFETY_GAP,
            will_collide(vehicle_a@, vehicle_b@) == will_collide(vehicle_b@, vehicle_a@),
            position_a@ == vehicle_a@.position_after(vehicle_a@.position, steps as nat),
            position_b@ == vehicle_b@.position_after(vehicle_b@.position, steps as nat),
            position_a@.within(COORD_LIMIT + BURST_VELOCITY * steps),
            position_b@.within(COORD_LIMIT + BURST_VELOCITY * steps),
            forall|earlier: nat|
                1 <= earlier <= steps ==> !#[trigger] collide_after(
                    vehicle_a@,
                    vehicle_b@,
                    earlier,
                ),
        decreases HORIZON - steps,
    {
        let future_a: Position = vehicle_a.get_future_position(&position_a);
        let future_b: Position = vehicle_b.get_future_position(&position_b);
        proof {
            lemma_step_is_bounded(vehicle_a@, position_a@);
            lemma_step_is_bounded(vehicle_b@, position_b@);
        }
        steps += 1;
        if positions_within_reach(future_a, future_b, reach) {
            assert(collide_after(vehicle_a@, vehicle_b@, steps as nat));
            return true;
        }
        position_a = future_a;
        position_b = future_b;
    }
    false
}

/// Whether `point_a` is at least as close to the centre of the playfield as
/// `point_b`, by straight-line distance. Distances are compared exactly,
/// through their squares.
pub fn is_closer_to_center(layout: &Layout, point_a: Position, point_b: Position) -> (r: bool)
    requires
        layout.wf(),
    ensures
        r == (centre_offset(*layout, point_a@) <= centre_offset(*layout, point_b@)),
{
    let of_a: i128 = doubled_offset_squared(layout, point_a);
    let of_b: i128 = doubled_offset_squared(layout, point_b);
    of_a <= of_b
}

/// Lets `car` look at each of `other_cars` in turn and record the identity
/// of every one that is a close call and not yet among its partners.
/// Returns how many of the newly recorded partners have a greater identity
/// than `car`, so that a pair of vehicles that record one another is counted
/// once.
pub fn get_close_calls_for_vehicle(car: &mut Vehicle, other_cars: &Vec<Vehicle>) -> (fresh: usize)
    requires
        old(car)@.layout.wf(),
        forall|i: int| 0 <= i < other_cars.len() ==> (#[trigger] other_cars[i])@.layout.wf(),
    ensures
        final(car)@ == (VehicleState {
            close_calls: partners_after(
                old(car)@,
                states(other_cars@),
                other_cars.len() as int,
            ),
            ..old(car)@
        }),
        fresh == fresh_pairs(old(car)@, states(other_cars@), other_cars.len() as int),
        fresh <= other_cars.len(),
{
    let mut fresh: usize = 0;
    let mut i: usize = 0;
    while i < other_cars.len()
        invariant
            i <= other_cars.len(),
            fresh <= i,
            car@.layout.wf(),
            forall|k: int| 0 <= k < other_cars.len() ==> (#[trigger] other_cars[k])@.layout.wf(),
            car@ == (VehicleState {
                close_calls: partners_after(old(car)@, states(other_cars@), i as int),
                ..old(car)@
            }),
            fresh == fresh_pairs(old(car)@, states(other_cars@), i as int),
        decreases other_cars.len() - i,
    {
        let other: &Vehicle = &other_cars[i];
        assert(states(other_cars@)[i as int] == other@);
        let reach: i32 = footprint_of(car, other);
        if car.id != other.id && positions_within_reach(car.position, other.position, reach)
            && !holds_identity(&car.close_calls, other.id) {
            car.close_calls.push(other.id);
            if other.id > car.id {
                fresh += 1;
            }
        }
        i += 1;
    }
    fresh
}

/// The longer side of the longer of the two vehicles.
fn footprint_of(a: &Vehicle, b: &Vehicle) -> (r: i32)
    requires
        a@.layout.wf(),
        b@.layout.wf(),
    ensures
        r == footprint(a@, b@),
        0 <= r <= 100_000,
{
    let of_a: i32 = a.layout.vehicle_length();
    let of_b: i32 = b.layout.vehicle_length();
    if of_a >= of_b {
        of_a
    } else {
        of_b
    }
}

/// Whether two positions differ by at most `reach` on both axes.
fn positions_within_reach(p: Position, q: Position, reach: i32) -> (r: bool)
    ensures
        r == within_reach(p@, q@, reach as int),
{
    let dx: i64 = p.x as i64 - q.x as i64;
    let dy: i64 = p.y as i64 - q.y as i64;
    let span_x: i64 = if dx < 0 {
        -dx
    } else {
        dx
    };
    let span_y: i64 = if dy < 0 {
        -dy
    } else {
        dy
    };
    span_x <= reach as i64 && span_y <= reach as i64
}

/// Four times the square of the distance of a point from the centre of the
/// playfield.
fn doubled_offset_squared(layout: &Layout, p: Position) -> (r: i128)
    requires
        layout.wf(),
    ensures
        r == centre_offset(*layout, p@),
{
    let dx: i128 = 2 * (p.x as i128) - layout.width() as i128;
    let dy: i128 = 2 * (p.y as i128) - layout.height() as i128;
    assert(0 <= dx * dx <= 0x4_0000_0000 * 0x4_0000_0000) by (nonlinear_arith)
        requires
            -0x4_0000_0000 <= dx <= 0x4_0000_0000,
    ;
    assert(0 <= dy * dy <= 0x4_0000_0000 * 0x4_0000_0000) by (nonlinear_arith)
        requires
            -0x4_0000_0000 <= dy <= 0x4_0000_0000,
    ;
    dx * dx + dy * dy
}

/// Whether `identity` is among `partners`.
fn holds_identity(partners: &Vec<u32>, identity: u32) -> (r: bool)
    ensures
        r == partners@.contains(identity),
{
    let mut i: usize = 0;
    while i < partners.len()
        invariant
            i <= partners.len(),
            forall|k: int| 0 <= k < i ==> partners[k] != identity,
        decreases partners.len() - i,
    {
        if partners[i] == identity {
            return true;
        }
        i += 1;
    }
    false
}

} // verus!
