//! What holds of every tick.
//!
//! The laws here are stated over the model of the intersection and proved
//! from the definitions; the functions that run a tick are held to the same
//! model by their contracts.

use super::{
    fresh_total,
    on_course,
    roadworthy,
    stays,
    trips_folded,
    velocities_folded,
    IntersectionState,
    TICK_DELTA,
};
use crate::algorithm::laws::{lemma_blocked_only_without_way_out, lemma_velocity_in_range};
use crate::filtering::{lemma_filter_take_members, lemma_filter_take_none, lemma_filter_take_step};
use crate::geometry::Layout;
use crate::physics::laws::{
    lemma_close_call_symmetric,
    lemma_fresh_pairs_bounded,
    lemma_partners_are_old_and_close,
};
use crate::physics::{distinct_identities, is_close_call, partners_after};
use crate::route::{
    lemma_advanced_on_route,
    lemma_distance_to_finish_non_increasing,
    lemma_on_route_in_bounds,
};
use crate::statistics::Statistics;
use crate::vehicle::{VehicleState, BURST_VELOCITY, MINIMUM_VELOCITY};
use vstd::prelude::*;

verus! {

impl IntersectionState {
    /// What a tick makes of a roadworthy vehicle is on course; only the
    /// playfield it may have left. Its age and its covered distance fit
    /// their types.
    pub proof fn lemma_driven_sound(self, i: int)
        requires
            self.wf(),
            0 <= i < self.vehicles.len(),
        ensures
            on_course(self.driven(i), self.layout),
            on_course(self.moved(i), self.layout),
            self.driven(i).time <= u64::MAX,
            self.driven(i).distance <= u64::MAX,
            MINIMUM_VELOCITY <= self.verdict(i).velocity <= BURST_VELOCITY,
    {
        let v = self.vehicles[i];
        assert(roadworthy(v, self.layout));
        lemma_velocity_in_range(v, self.vehicles);
        let chosen = VehicleState {
            velocity: self.verdict(i).velocity,
            colliding: self.verdict(i).blocked_by.is_some(),
            close_calls: partners_after(v, self.vehicles, self.vehicles.len() as int),
            ..v
        };
        lemma_partners_are_old_and_close(v, self.vehicles, self.vehicles.len() as int);
        lemma_step_keeps_course(v, chosen, self.layout);
        lemma_mark_keeps_course(self.driven(i), self.moved(i), self.layout);
    }

    /// In a well-formed intersection every live vehicle has a velocity from
    /// minimum to burst: at its spawn, after every tick, and in between.
    pub proof fn lemma_live_velocities_in_range(self)
        requires
            self.wf(),
        ensures
            forall|i: int|
                0 <= i < self.vehicles.len() ==> MINIMUM_VELOCITY <= (
                #[trigger] self.vehicles[i]).velocity <= BURST_VELOCITY,
    {
        assert forall|i: int| 0 <= i < self.vehicles.len() implies MINIMUM_VELOCITY <= (
        #[trigger] self.vehicles[i]).velocity <= BURST_VELOCITY by {
            assert(roadworthy(self.vehicles[i], self.layout));
        }
    }

    /// Whatever a tick decides, every vehicle comes out of it with a
    /// velocity from minimum to burst.
    pub proof fn lemma_tick_velocity_in_range(self, i: int)
        requires
            0 <= i < self.vehicles.len(),
        ensures
            MINIMUM_VELOCITY <= self.moved(i).velocity <= BURST_VELOCITY,
    {
        lemma_velocity_in_range(self.vehicles[i], self.vehicles);
    }

    /// A vehicle comes out of a tick marked as colliding only if the tick
    /// found a vehicle `yielding` and a peer `blocking` it, one of which it
    /// is: the yielding vehicle gives way to the peer, is predicted to
    /// collide with it at minimum velocity and at burst velocity alike, and
    /// leaves the tick at minimum velocity.
    pub proof fn lemma_tick_mark_has_cause(self, i: int)
        requires
            0 <= i < self.vehicles.len(),
            self.moved(i).colliding,
        ensures
            exists|yielding: int, blocking: int|
                {
                    &&& 0 <= yielding < self.vehicles.len()
                    &&& 0 <= blocking < self.vehicles.len()
                    &&& yielding == i || blocking == i
                    &&& #[trigger] self.deadlocked(yielding, blocking)
                },
    {
        if self.verdict(i).blocked_by.is_some() {
            let blocking = self.verdict(i).blocked_by.unwrap();
            lemma_blocked_only_without_way_out(self.vehicles[i], self.vehicles);
            assert(self.deadlocked(i, blocking));
        } else {
            assert(self.blocks(i));
            let yielding = choose|j: int|
                0 <= j < self.vehicles.len() && (#[trigger] self.verdict(j)).blocked_by == Some(i);
            lemma_blocked_only_without_way_out(self.vehicles[yielding], self.vehicles);
            assert(self.deadlocked(yielding, i));
        }
    }

    /// A tick does not take a vehicle outside its exit lane further from its
    /// finish, as long as the coordinate the vehicle is heading for lies at
    /// least half of the step it is given ahead of it.
    pub proof fn lemma_tick_distance_non_increasing(self, i: int)
        requires
            self.wf(),
            0 <= i < self.vehicles.len(),
            !self.vehicles[i].is_in_end_lane(),
            self.verdict(i).velocity <= 2 * self.vehicles[i].finish_ahead(),
        ensures
            self.moved(i).distance_to_finish() <= self.vehicles[i].distance_to_finish(),
    {
        let v = self.vehicles[i];
        assert(roadworthy(v, self.layout));
        lemma_velocity_in_range(v, self.vehicles);
        let chosen = VehicleState {
            velocity: self.verdict(i).velocity,
            colliding: self.verdict(i).blocked_by.is_some(),
            close_calls: partners_after(v, self.vehicles, self.vehicles.len() as int),
            ..v
        };
        lemma_distance_to_finish_non_increasing(chosen, TICK_DELTA as int);
    }

    /// Among vehicles of different identities, a tick leaves one vehicle
    /// among the partners of another exactly when it was so before or is a
    /// close call of the other now. The identities themselves do not change.
    pub proof fn lemma_tick_partners(self, i: int, j: int)
        requires
            distinct_identities(self.vehicles),
            0 <= i < self.vehicles.len(),
            0 <= j < self.vehicles.len(),
        ensures
            self.moved(i).id == self.vehicles[i].id,
            self.moved(i).close_calls.contains(self.moved(j).id)
                <==> self.vehicles[i].close_calls.contains(self.vehicles[j].id) || is_close_call(
                self.vehicles[i],
                self.vehicles[j],
            ),
    {
        lemma_partners_are_old_and_close(
            self.vehicles[i],
            self.vehicles,
            self.vehicles.len() as int,
        );
        let after = partners_after(self.vehicles[i], self.vehicles, self.vehicles.len() as int);
        assert(self.moved(i).close_calls == after);
        assert(self.moved(j).id == self.vehicles[j].id);
        let identity = self.vehicles[j].id;
        if after.contains(identity) && !self.vehicles[i].close_calls.contains(identity) {
            let k = choose|k: int|
                0 <= k < self.vehicles.len() && is_close_call(
                    self.vehicles[i],
                    #[trigger] self.vehicles[k],
                ) && self.vehicles[k].id == identity;
            if k < j {
                assert(self.vehicles[k].id != self.vehicles[j].id);
            } else if j < k {
                assert(self.vehicles[j].id != self.vehicles[k].id);
            }
        }
        if is_close_call(self.vehicles[i], self.vehicles[j]) {
            assert(after.contains(identity));
        }
    }

    /// While the identities of the vehicles are different and their close
    /// calls are recorded on both sides, a tick keeps both so.
    pub proof fn lemma_tick_keeps_partners_mutual(self)
        requires
            distinct_identities(self.vehicles),
            self.partners_mutual(),
        ensures
            distinct_identities(self.ticked().vehicles),
            self.ticked().partners_mutual(),
    {
        let moved = self.all_moved();
        let kept = self.ticked().vehicles;
        let n = self.vehicles.len() as int;
        assert(moved.take(n) =~= moved);
        lemma_filter_take_members(moved, stays(), n);
        lemma_filter_keeps_distinct(moved, n);
        assert forall|i: int, j: int|
            0 <= i < n && 0 <= j < n && i != j implies (#[trigger] moved[i]).id != (
        #[trigger] moved[j]).id by {
            self.lemma_tick_partners(i, j);
            self.lemma_tick_partners(j, i);
            if i < j {
                assert(self.vehicles[i].id != self.vehicles[j].id);
            } else {
                assert(self.vehicles[j].id != self.vehicles[i].id);
            }
        }
        assert forall|a: int, b: int| 0 <= a < kept.len() && 0 <= b < kept.len() implies (
        #[trigger] kept[a]).close_calls.contains((#[trigger] kept[b]).id)
            == kept[b].close_calls.contains(kept[a].id) by {
            let i = choose|i: int| 0 <= i < n && moved[i] == kept[a];
            let j = choose|j: int| 0 <= j < n && moved[j] == kept[b];
            self.lemma_tick_partners(i, j);
            self.lemma_tick_partners(j, i);
            lemma_close_call_symmetric(self.vehicles[i], self.vehicles[j]);
            assert(self.vehicles[i].close_calls.contains(self.vehicles[j].id)
                == self.vehicles[j].close_calls.contains(self.vehicles[i].id));
        }
    }

    /// A live vehicle is never older than the time it takes to cover the
    /// width and the height of the playfield at minimum velocity.
    pub proof fn lemma_live_vehicle_age_bounded(self, i: int)
        requires
            self.wf(),
            0 <= i < self.vehicles.len(),
        ensures
            self.vehicles[i].time <= TICK_DELTA * (self.layout.spec_width()
                + self.layout.spec_height()),
    {
        let v = self.vehicles[i];
        assert(roadworthy(v, self.layout));
        lemma_on_route_in_bounds(v);
    }

    /// A tick only ever raises the counters and the maxima and lowers the
    /// minima, and it counts one trip for every vehicle it removes.
    pub proof fn lemma_tick_statistics_monotone(self)
        requires
            self.wf(),
            self.has_room(),
        ensures
            self.ticked().stats.num_vehicles == self.stats.num_vehicles + self.vehicles.len()
                - self.ticked().vehicles.len(),
            self.ticked().stats.close_calls >= self.stats.close_calls,
            self.ticked().stats.max_velocity >= self.stats.max_velocity,
            self.ticked().stats.min_velocity <= self.stats.min_velocity,
            self.ticked().stats.max_time >= self.stats.max_time,
            self.stats.min_time matches Some(before) ==> self.ticked().stats.min_time matches Some(
                after,
            ) && after <= before,
    {
        let n = self.vehicles.len() as int;
        let moved = self.all_moved();
        let noted = velocities_folded(self.stats, moved, n);
        let counted = Statistics {
            close_calls: (self.stats.close_calls + fresh_total(self.vehicles, n)) as u32,
            ..noted
        };
        lemma_velocities_folded_monotone(self.stats, moved, n);
        lemma_fresh_total_monotone(self.vehicles, 0, n);
        lemma_trips_folded_monotone(counted, moved, n);
        assert(moved.take(n) =~= moved);
    }
}

/// The count of fresh pairs only grows with the number of vehicles that have
/// looked.
pub(super) proof fn lemma_fresh_total_monotone(vehicles: Seq<VehicleState>, i: int, j: int)
    requires
        i <= j,
    ensures
        0 <= fresh_total(vehicles, i) <= fresh_total(vehicles, j),
    decreases j,
{
    if j <= 0 {
    } else if i == j {
        lemma_fresh_total_monotone(vehicles, i - 1, j - 1);
        lemma_fresh_pairs_bounded(vehicles[j - 1], vehicles, vehicles.len() as int);
    } else {
        lemma_fresh_total_monotone(vehicles, i, j - 1);
        lemma_fresh_pairs_bounded(vehicles[j - 1], vehicles, vehicles.len() as int);
    }
}

/// The vehicles that stay keep the order they had, so they keep the
/// difference of their identities.
proof fn lemma_filter_keeps_distinct(moved: Seq<VehicleState>, upto: int)
    requires
        0 <= upto <= moved.len(),
        forall|i: int, j: int|
            0 <= i < moved.len() && 0 <= j < moved.len() && i != j ==> (#[trigger] moved[i]).id != (
            #[trigger] moved[j]).id,
    ensures
        distinct_identities(moved.take(upto).filter(stays())),
    decreases upto,
{
    if upto == 0 {
        lemma_filter_take_none(moved, stays());
    } else {
        lemma_filter_keeps_distinct(moved, upto - 1);
        lemma_filter_take_step(moved, stays(), upto - 1);
        lemma_filter_take_members(moved, stays(), upto - 1);
        let shorter = moved.take(upto - 1).filter(stays());
        let longer = moved.take(upto).filter(stays());
        assert forall|a: int, b: int| 0 <= a < b < longer.len() implies (#[trigger] longer[a]).id
            != (#[trigger] longer[b]).id by {
            if b < shorter.len() {
                assert(shorter[a].id != shorter[b].id);
            } else {
                let k = choose|k: int| 0 <= k < upto - 1 && moved[k] == shorter[a];
                assert(moved[k].id != moved[upto - 1].id);
            }
        }
    }
}

/// Noting velocities leaves trips and close calls alone, and only stretches
/// the range of velocities.
proof fn lemma_velocities_folded_monotone(stats: Statistics, moved: Seq<VehicleState>, upto: int)
    ensures
        velocities_folded(stats, moved, upto) == (Statistics {
            max_velocity: velocities_folded(stats, moved, upto).max_velocity,
            min_velocity: velocities_folded(stats, moved, upto).min_velocity,
            ..stats
        }),
        velocities_folded(stats, moved, upto).max_velocity >= stats.max_velocity,
        velocities_folded(stats, moved, upto).min_velocity <= stats.min_velocity,
    decreases upto,
{
    if upto > 0 {
        lemma_velocities_folded_monotone(stats, moved, upto - 1);
    }
}

/// Noting trips leaves velocities and close calls alone, counts one trip
/// for every vehicle that has left, and only stretches the range of trip
/// times.
proof fn lemma_trips_folded_monotone(stats: Statistics, moved: Seq<VehicleState>, upto: int)
    requires
        0 <= upto <= moved.len(),
        stats.num_vehicles + upto <= u32::MAX,
    ensures
        trips_folded(stats, moved, upto) == (Statistics {
            num_vehicles: trips_folded(stats, moved, upto).num_vehicles,
            max_time: trips_folded(stats, moved, upto).max_time,
            min_time: trips_folded(stats, moved, upto).min_time,
            ..stats
        }),
        trips_folded(stats, moved, upto).num_vehicles == stats.num_vehicles + upto - moved.take(
            upto,
        ).filter(stays()).len(),
        trips_folded(stats, moved, upto).max_time >= stats.max_time,
        stats.min_time matches Some(before) ==> trips_folded(stats, moved, upto).min_time
            matches Some(after) && after <= before,
    decreases upto,
{
    if upto > 0 {
        lemma_trips_folded_monotone(stats, moved, upto - 1);
        lemma_filter_take_step(moved, stays(), upto - 1);
        moved.take(upto - 1).lemma_filter_len(stays());
    } else {
        lemma_filter_take_none(moved, stays());
    }
}

/// A roadworthy vehicle that is given a velocity in range and moves one
/// tick is on course afterwards, and its age and its covered distance fit
/// their types.
pub proof fn lemma_step_keeps_course(v: VehicleState, chosen: VehicleState, layout: Layout)
    requires
        roadworthy(v, layout),
        MINIMUM_VELOCITY <= chosen.velocity <= BURST_VELOCITY,
        chosen.close_calls.no_duplicates(),
        chosen == (VehicleState {
            velocity: chosen.velocity,
            colliding: chosen.colliding,
            close_calls: chosen.close_calls,
            ..v
        }),
    ensures
        on_course(chosen.advanced(TICK_DELTA as int), layout),
        chosen.advanced(TICK_DELTA as int).time <= u64::MAX,
        chosen.advanced(TICK_DELTA as int).distance <= u64::MAX,
{
    lemma_on_route_in_bounds(v);
    lemma_advanced_on_route(chosen, TICK_DELTA as int);
    let after = chosen.advanced(TICK_DELTA as int);
    assert(chosen.progress() == v.progress());
    assert(after.progress() == v.progress() + chosen.velocity);
    assert(after.distance == v.distance + chosen.velocity * TICK_DELTA);
    assert(after.time == v.time + TICK_DELTA);
    assert(after.layout == layout);
    assert(after.position.x == v.position.x || after.position.y == v.position.y);
    assert(after.wf());
}

/// Whether a vehicle is on course does not depend on its mark.
pub proof fn lemma_mark_keeps_course(v: VehicleState, marked: VehicleState, layout: Layout)
    requires
        on_course(v, layout),
        marked == (VehicleState { colliding: marked.colliding, ..v }),
    ensures
        on_course(marked, layout),
{
}

/// A vehicle counts fewer fresh pairs than there are vehicles, so all of
/// them together count at most the square of their number.
pub(super) proof fn lemma_fresh_total_bounded(vehicles: Seq<VehicleState>, upto: int)
    requires
        0 <= upto <= vehicles.len(),
    ensures
        0 <= fresh_total(vehicles, upto) <= upto * vehicles.len(),
    decreases upto,
{
    if upto > 0 {
        lemma_fresh_total_bounded(vehicles, upto - 1);
        lemma_fresh_pairs_bounded(vehicles[upto - 1], vehicles, vehicles.len() as int);
        assert((upto - 1) * vehicles.len() + vehicles.len() == upto * vehicles.len())
            by (nonlinear_arith);
    } else {
        assert(0 * vehicles.len() == 0) by (nonlinear_arith);
    }
}

/// Noting velocities leaves the number of trips alone.
pub(super) proof fn lemma_trips_keep_velocities(stats: Statistics, moved: Seq<VehicleState>, upto: int)
    ensures
        velocities_folded(stats, moved, upto).num_vehicles == stats.num_vehicles,
        velocities_folded(stats, moved, upto).close_calls == stats.close_calls,
    decreases upto,
{
    if upto > 0 {
        lemma_trips_keep_velocities(stats, moved, upto - 1);
    }
}

} // verus!
