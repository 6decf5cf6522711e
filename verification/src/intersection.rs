//! The orchestrator: the live vehicles, the lane buckets and the statistics,
//! advanced one tick at a time.
//!
//! Every decision of a tick is taken against one snapshot of the vehicles as
//! they were when the tick began. No vehicle sees where another has moved to
//! during the same tick: what is decided for one vehicle does not depend on
//! which vehicles were dealt with before it.

use crate::algorithm::laws::lemma_arbitrate_same_motion;
use crate::algorithm::{arbitrate, determine_velocity, is_priority_peer, Verdict};
use crate::chance::random_below;
use crate::filtering::{lemma_filter_grows, lemma_filter_take_none, lemma_filter_take_step};
use crate::geometry::{LanePair, Layout};
use crate::physics::laws::lemma_partners_ignore_marks;
use crate::physics::{
    fresh_pairs,
    get_close_calls_for_vehicle,
    partners_after,
    same_but_mark,
    will_collide,
};
use crate::route::lemma_spawned_on_route;
use crate::spawning::{
    pair_for_choices,
    pair_for_key,
    spec_exit_for_choice,
    spec_pair_for_choices,
    ArrowKey,
};
use crate::statistics::Statistics;
use crate::vehicle::{states, Vehicle, VehicleState, BURST_VELOCITY, MINIMUM_VELOCITY};
use vstd::prelude::*;

pub mod laws;

use laws::{lemma_fresh_total_bounded, lemma_fresh_total_monotone, lemma_trips_keep_velocities};

verus! {

/// No vehicle is admitted while this many stand in the central box.
pub const ADMISSION_LIMIT: usize = 4;

/// Length of a tick in microseconds: a sixtieth of a second.
pub const TICK_DELTA: u32 = 16_667;

/// A bucket that collects, for one route, the vehicles that appeared on it.
#[derive(Debug)]
pub struct Lane {
    /// The route of the bucket.
    pub pair: LanePair,
    /// The vehicles that appeared on the route, as they were when they
    /// appeared, oldest first.
    pub vehicles: Vec<Vehicle>,
}

/// The mathematical model of a [`Lane`].
pub struct LaneState {
    pub pair: LanePair,
    pub vehicles: Seq<VehicleState>,
}

impl View for Lane {
    type V = LaneState;

    open spec fn view(&self) -> LaneState {
        LaneState { pair: self.pair, vehicles: states(self.vehicles@) }
    }
}

impl Lane {
    /// An empty bucket for a route.
    pub fn new(pair: LanePair) -> (r: Lane)
        ensures
            r@ == (LaneState { pair, vehicles: Seq::empty() }),
    {
        let r = Lane { pair, vehicles: Vec::new() };
        assert(r@.vehicles =~= Seq::empty());
        r
    }

    /// Puts a vehicle into the bucket, behind those already there.
    pub fn add_vehicle(&mut self, vehicle: Vehicle)
        ensures
            final(self)@ == (LaneState {
                vehicles: old(self)@.vehicles.push(vehicle@),
                ..old(self)@
            }),
    {
        self.vehicles.push(vehicle);
        assert(self@.vehicles =~= old(self)@.vehicles.push(vehicle@));
    }
}

/// What a vehicle of an intersection on `layout` keeps through every tick:
/// it is well-formed, drives on that playfield, stands on the track of its
/// route, its age and its covered distance are what ticks of [`TICK_DELTA`]
/// along that track add up to, and it has recorded no close-call partner
/// twice.
pub open spec fn on_course(v: VehicleState, layout: Layout) -> bool {
    &&& v.layout == layout
    &&& v.wf()
    &&& v.on_route()
    &&& v.distance == TICK_DELTA * v.progress()
    &&& 0 <= v.time <= v.distance
    &&& v.close_calls.no_duplicates()
}

/// What holds of every live vehicle of an intersection on `layout`: it is on
/// course and has not left the playfield.
pub open spec fn roadworthy(v: VehicleState, layout: Layout) -> bool {
    on_course(v, layout) && v.is_in_entire_intersection()
}

/// The predicate that tells the vehicles that stay from those that a tick
/// removes.
pub open spec fn stays() -> spec_fn(VehicleState) -> bool {
    |v: VehicleState| v.is_in_entire_intersection()
}

/// The predicate that tells the vehicles in the central box from the rest.
pub open spec fn in_box() -> spec_fn(VehicleState) -> bool {
    |v: VehicleState| v.is_in_intersection()
}

/// The predicate that tells the vehicles in their exit lane from the rest.
pub open spec fn finished() -> spec_fn(VehicleState) -> bool {
    |v: VehicleState| v.is_in_end_lane()
}

/// The statistics after the velocities of the first `upto` of `moved` were
/// noted.
pub open spec fn velocities_folded(stats: Statistics, moved: Seq<VehicleState>, upto: int)
    -> Statistics
    decreases upto,
{
    if upto <= 0 {
        stats
    } else {
        velocities_folded(stats, moved, upto - 1).with_velocity(moved[upto - 1].velocity as u32)
    }
}

/// The statistics after the trips of those among the first `upto` of `moved`
/// that have left the playfield were noted, in order.
pub open spec fn trips_folded(stats: Statistics, moved: Seq<VehicleState>, upto: int) -> Statistics
    decreases upto,
{
    if upto <= 0 {
        stats
    } else if moved[upto - 1].is_in_entire_intersection() {
        trips_folded(stats, moved, upto - 1)
    } else {
        trips_folded(stats, moved, upto - 1).with_trip(moved[upto - 1].time as u64)
    }
}

/// The number of pairs of vehicles that become close-call partners when the
/// first `upto` of `vehicles` each look at all of them.
pub open spec fn fresh_total(vehicles: Seq<VehicleState>, upto: int) -> int
    decreases upto,
{
    if upto <= 0 {
        0
    } else {
        fresh_total(vehicles, upto - 1) + fresh_pairs(
            vehicles[upto - 1],
            vehicles,
            vehicles.len() as int,
        )
    }
}

/// The mathematical model of an [`Intersection`].
pub struct IntersectionState {
    pub layout: Layout,
    pub lanes: Seq<LaneState>,
    pub vehicles: Seq<VehicleState>,
    pub stats: Statistics,
}

impl IntersectionState {
    /// The layout is valid; there are twelve buckets, in the fixed order of
    /// the routes, each holding vehicles as they appeared on its route; and
    /// every live vehicle is roadworthy.
    pub open spec fn wf(self) -> bool {
        &&& self.layout.wf()
        &&& self.lanes.len() == 12
        &&& forall|k: int| 0 <= k < 12 ==> (#[trigger] self.lanes[k]).pair.spec_index() == k
        &&& forall|k: int, j: int|
            0 <= k < 12 && 0 <= j < self.lanes[k].vehicles.len() ==> #[trigger] self.lanes[k].vehicles[j]
                == VehicleState::spawned(
                self.layout,
                self.lanes[k].pair,
                self.lanes[k].vehicles[j].id,
            )
        &&& forall|i: int|
            0 <= i < self.vehicles.len() ==> roadworthy(#[trigger] self.vehicles[i], self.layout)
    }

    /// An intersection on `layout` in which nothing has happened yet.
    pub open spec fn empty(layout: Layout) -> IntersectionState {
        IntersectionState {
            layout,
            lanes: Seq::new(
                12,
                |k: int|
                    LaneState {
                        pair: LanePair::spec_from_index(k).unwrap(),
                        vehicles: Seq::empty(),
                    },
            ),
            vehicles: Seq::empty(),
            stats: Statistics::spec_new(),
        }
    }

    /// How many live vehicles stand in the central box.
    pub open spec fn in_box_count(self) -> nat {
        self.vehicles.filter(in_box()).len()
    }

    /// Whether a new vehicle is admitted: fewer than [`ADMISSION_LIMIT`]
    /// vehicles stand in the central box.
    pub open spec fn admits(self) -> bool {
        self.in_box_count() < ADMISSION_LIMIT
    }

    /// The intersection after a request for a vehicle with identity `id` on
    /// the route `pair`. If the vehicle is admitted it joins the live
    /// vehicles and the bucket of its route; if not, nothing changes.
    pub open spec fn with_spawn(self, pair: LanePair, id: u32) -> IntersectionState {
        if self.admits() {
            let vehicle = VehicleState::spawned(self.layout, pair, id);
            let bucket = self.lanes[pair.spec_index()];
            IntersectionState {
                lanes: self.lanes.update(
                    pair.spec_index(),
                    LaneState { vehicles: bucket.vehicles.push(vehicle), ..bucket },
                ),
                vehicles: self.vehicles.push(vehicle),
                ..self
            }
        } else {
            self
        }
    }

    /// What arbitration decides for the vehicle at place `i` against all
    /// the vehicles as they are.
    pub open spec fn verdict(self, i: int) -> Verdict {
        arbitrate(self.vehicles[i], self.vehicles)
    }

    /// Whether one of the first `upto` vehicles finds no way past the
    /// vehicle at place `i`.
    pub open spec fn blocks_before(self, i: int, upto: int) -> bool {
        exists|j: int| 0 <= j < upto && (#[trigger] self.verdict(j)).blocked_by == Some(i)
    }

    /// Whether some vehicle finds no way past the vehicle at place `i`.
    pub open spec fn blocks(self, i: int) -> bool {
        self.blocks_before(i, self.vehicles.len() as int)
    }

    /// The vehicle at place `i` after its own part of a tick: it has noted
    /// its close calls, taken the velocity of its verdict, marked itself if
    /// the verdict names a blocking peer, and moved one step.
    pub open spec fn driven(self, i: int) -> VehicleState {
        let v = self.vehicles[i];
        (VehicleState {
            velocity: self.verdict(i).velocity,
            colliding: self.verdict(i).blocked_by.is_some(),
            close_calls: partners_after(v, self.vehicles, self.vehicles.len() as int),
            ..v
        }).advanced(TICK_DELTA as int)
    }

    /// The vehicle at place `i` after a tick: driven, and marked as
    /// colliding also if it blocks another vehicle.
    pub open spec fn moved(self, i: int) -> VehicleState {
        VehicleState {
            colliding: self.driven(i).colliding || self.blocks(i),
            ..self.driven(i)
        }
    }

    /// All vehicles after a tick, before those that have left are removed.
    pub open spec fn all_moved(self) -> Seq<VehicleState> {
        Seq::new(self.vehicles.len(), |i: int| self.moved(i))
    }

    /// All vehicles after their own part of a tick.
    pub open spec fn all_driven(self) -> Seq<VehicleState> {
        Seq::new(self.vehicles.len(), |i: int| self.driven(i))
    }

    /// Whether the vehicle at place `yielding` finds no way past the one at
    /// place `blocking`: it gives way to it, is predicted to collide with it
    /// at minimum velocity and at burst velocity alike, and leaves the tick
    /// at minimum velocity.
    pub open spec fn deadlocked(self, yielding: int, blocking: int) -> bool {
        &&& self.verdict(yielding).blocked_by == Some(blocking)
        &&& is_priority_peer(self.vehicles[yielding], self.vehicles[blocking])
        &&& will_collide(
            self.vehicles[yielding].with_velocity(MINIMUM_VELOCITY as int),
            self.vehicles[blocking],
        )
        &&& will_collide(
            self.vehicles[yielding].with_velocity(BURST_VELOCITY as int),
            self.vehicles[blocking],
        )
        &&& self.moved(yielding).velocity == MINIMUM_VELOCITY
    }

    /// Whether close calls are recorded on both sides: a vehicle is among the
    /// partners of another exactly when the other is among its own.
    pub open spec fn partners_mutual(self) -> bool {
        forall|i: int, j: int|
            0 <= i < self.vehicles.len() && 0 <= j < self.vehicles.len() ==> (
            #[trigger] self.vehicles[i]).close_calls.contains((#[trigger] self.vehicles[j]).id)
                == self.vehicles[j].close_calls.contains(self.vehicles[i].id)
    }

    /// Whether the counters can take what a tick may add: a trip for every
    /// live vehicle and the close calls of the tick.
    pub open spec fn has_room(self) -> bool {
        &&& self.stats.num_vehicles + self.vehicles.len() <= u32::MAX
        &&& self.stats.close_calls + fresh_total(self.vehicles, self.vehicles.len() as int)
            <= u32::MAX
    }

    /// A condition under which the counters have room that can be checked
    /// without running the tick: there are at most 65535 live vehicles, and
    /// the counters can take a trip for each of them and a close call for
    /// each two of them.
    pub open spec fn surely_has_room(self) -> bool {
        &&& self.vehicles.len() <= 0xffff
        &&& self.stats.num_vehicles + self.vehicles.len() <= u32::MAX
        &&& self.stats.close_calls + self.vehicles.len() * self.vehicles.len() <= u32::MAX
    }

    /// The intersection one tick later. Every vehicle is moved; those that
    /// have left the playfield are removed and the others keep their order.
    /// The statistics take in the velocity of every vehicle, the close calls
    /// of the tick and the trip time of every vehicle removed.
    pub open spec fn ticked(self) -> IntersectionState {
        let n = self.vehicles.len() as int;
        let noted = velocities_folded(self.stats, self.all_moved(), n);
        let counted = Statistics {
            close_calls: (self.stats.close_calls + fresh_total(self.vehicles, n)) as u32,
            ..noted
        };
        IntersectionState {
            vehicles: self.all_moved().filter(stays()),
            stats: trips_folded(counted, self.all_moved(), n),
            ..self
        }
    }
}

/// The models of a sequence of lane buckets.
pub open spec fn lane_states(lanes: Seq<Lane>) -> Seq<LaneState> {
    lanes.map_values(|lane: Lane| lane@)
}

/// The live vehicles of a crossing, the buckets of its routes and its
/// statistics.
#[derive(Debug)]
pub struct Intersection {
    layout: Layout,
    lanes: Vec<Lane>,
    vehicles: Vec<Vehicle>,
    stats: Statistics,
}

impl View for Intersection {
    type V = IntersectionState;

    closed spec fn view(&self) -> IntersectionState {
        IntersectionState {
            layout: self.layout,
            lanes: lane_states(self.lanes@),
            vehicles: states(self.vehicles@),
            stats: self.stats,
        }
    }
}

impl Intersection {
    /// An intersection on `layout` with no vehicles, twelve empty buckets and
    /// fresh statistics.
    pub fn new(layout: Layout) -> (r: Intersection)
        requires
            layout.wf(),
        ensures
            r@ == IntersectionState::empty(layout),
            r@.wf(),
    {
        let mut lanes: Vec<Lane> = Vec::new();
        lanes.push(Lane::new(LanePair::NorthToSouth));
        lanes.push(Lane::new(LanePair::NorthToEast));
        lanes.push(Lane::new(LanePair::NorthToWest));
        lanes.push(Lane::new(LanePair::SouthToNorth));
        lanes.push(Lane::new(LanePair::SouthToEast));
        lanes.push(Lane::new(LanePair::SouthToWest));
        lanes.push(Lane::new(LanePair::EastToNorth));
        lanes.push(Lane::new(LanePair::EastToSouth));
        lanes.push(Lane::new(LanePair::EastToWest));
        lanes.push(Lane::new(LanePair::WestToNorth));
        lanes.push(Lane::new(LanePair::WestToSouth));
        lanes.push(Lane::new(LanePair::WestToEast));
        let r = Intersection { layout, lanes, vehicles: Vec::new(), stats: Statistics::new() };
        assert(r@.lanes =~= IntersectionState::empty(layout).lanes);
        assert(r@.vehicles =~= IntersectionState::empty(layout).vehicles);
        r
    }

    /// The playfield of the intersection.
    pub fn layout(&self) -> (r: Layout)
        ensures
            r == self@.layout,
    {
        self.layout
    }

    /// The live vehicles, in the order in which they appeared.
    pub fn vehicles(&self) -> (r: &Vec<Vehicle>)
        ensures
            states(r@) == self@.vehicles,
    {
        &self.vehicles
    }

    /// The twelve buckets, in the fixed order of the routes.
    pub fn lanes(&self) -> (r: &Vec<Lane>)
        ensures
            lane_states(r@) == self@.lanes,
    {
        &self.lanes
    }

    /// The statistics so far.
    pub fn stats(&self) -> (r: Statistics)
        ensures
            r == self@.stats,
    {
        self.stats
    }

    /// How many live vehicles stand in the central box.
    pub fn count_in_box(&self) -> (r: usize)
        requires
            self@.wf(),
        ensures
            r == self@.in_box_count(),
    {
        let mut count: usize = 0;
        let mut i: usize = 0;
        proof {
            lemma_filter_take_none(self@.vehicles, in_box());
        }
        while i < self.vehicles.len()
            invariant
                i <= self.vehicles.len(),
                self@.wf(),
                count <= i,
                count == self@.vehicles.take(i as int).filter(in_box()).len(),
            decreases self.vehicles.len() - i,
        {
            proof {
                lemma_filter_take_step(self@.vehicles, in_box(), i as int);
                assert(roadworthy(self@.vehicles[i as int], self@.layout));
            }
            if self.vehicles[i].is_in_intersection() {
                count += 1;
            }
            i += 1;
        }
        assert(self@.vehicles.take(i as int) =~= self@.vehicles);
        count
    }

    /// Asks for a vehicle with identity `id` on the route `pair`. The
    /// vehicle is admitted, and joins the live vehicles and the bucket of
    /// its route, unless [`ADMISSION_LIMIT`] or more vehicles stand in the
    /// central box; then nothing changes. Returns whether it was admitted.
    pub fn add_vehicle(&mut self, pair: LanePair, id: u32) -> (admitted: bool)
        requires
            old(self)@.wf(),
        ensures
            final(self)@ == old(self)@.with_spawn(pair, id),
            admitted == old(self)@.admits(),
            final(self)@.wf(),
            !admitted ==> final(self)@ == old(self)@,
            admitted ==> final(self)@.vehicles.len() == old(self)@.vehicles.len() + 1,
            old(self)@.in_box_count() >= ADMISSION_LIMIT ==> final(self)@.vehicles.len() == old(
                self,
            )@.vehicles.len(),
    {
        if self.count_in_box() >= ADMISSION_LIMIT {
            return false;
        }
        let vehicle: Vehicle = Vehicle::new(&self.layout, pair, id);
        let copy: Vehicle = vehicle.clone();
        let index: usize = pair.index();
        proof {
            lemma_spawned_on_route(self.layout, pair, id);
        }
        self.vehicles.push(vehicle);
        self.lanes[index].add_vehicle(copy);
        proof {
            let wanted = old(self)@.with_spawn(pair, id);
            assert(self@.vehicles =~= wanted.vehicles);
            assert(self@.lanes =~= wanted.lanes);
        }
        true
    }

    /// Asks for a vehicle from the side that `key` stands for, towards one
    /// of the three other sides, picked by chance.
    pub fn add_directed_vehicle(&mut self, key: ArrowKey, id: u32)
        requires
            old(self)@.wf(),
        ensures
            final(self)@.wf(),
            exists|choice: int|
                0 <= choice < 3 && final(self)@ == old(self)@.with_spawn(
                    #[trigger] LanePair::spec_new(
                        key.spec_origin(),
                        spec_exit_for_choice(key.spec_origin(), choice),
                    ).unwrap(),
                    id,
                ),
            !old(self)@.admits() ==> final(self)@ == old(self)@,
            old(self)@.in_box_count() >= ADMISSION_LIMIT ==> final(self)@.vehicles.len() == old(
                self,
            )@.vehicles.len(),
    {
        let choice: usize = random_below(3);
        let pair: LanePair = pair_for_key(key, choice);
        self.add_vehicle(pair, id);
        assert(pair == LanePair::spec_new(
            key.spec_origin(),
            spec_exit_for_choice(key.spec_origin(), choice as int),
        ).unwrap());
    }

    /// Asks for a vehicle on a route picked by chance: first the side it
    /// leaves towards, among all four, then the side it comes from, among
    /// the other three.
    pub fn add_random_vehicle(&mut self, id: u32)
        requires
            old(self)@.wf(),
        ensures
            final(self)@.wf(),
            exists|first: int, second: int|
                0 <= first < 4 && 0 <= second < 3 && final(self)@ == old(self)@.with_spawn(
                    #[trigger] spec_pair_for_choices(first, second),
                    id,
                ),
            !old(self)@.admits() ==> final(self)@ == old(self)@,
            old(self)@.in_box_count() >= ADMISSION_LIMIT ==> final(self)@.vehicles.len() == old(
                self,
            )@.vehicles.len(),
    {
        let first: usize = random_below(4);
        let second: usize = random_below(3);
        let pair: LanePair = pair_for_choices(first, second);
        self.add_vehicle(pair, id);
        assert(pair == spec_pair_for_choices(first as int, second as int));
    }

    /// Counts every live vehicle that is in its exit lane as a completed
    /// trip, without removing it.
    pub fn add_remaining_finished_vehicles(&mut self)
        requires
            old(self)@.wf(),
            old(self)@.stats.num_vehicles + old(self)@.vehicles.filter(finished()).len()
                <= u32::MAX,
        ensures
            final(self)@ == (IntersectionState {
                stats: Statistics {
                    num_vehicles: (old(self)@.stats.num_vehicles + old(self)@.vehicles.filter(
                        finished(),
                    ).len()) as u32,
                    ..old(self)@.stats
                },
                ..old(self)@
            }),
            final(self)@.wf(),
    {
        let mut count: u32 = 0;
        let mut i: usize = 0;
        proof {
            lemma_filter_take_none(self@.vehicles, finished());
            self@.vehicles.lemma_filter_len(finished());
        }
        while i < self.vehicles.len()
            invariant
                i <= self.vehicles.len(),
                self@.wf(),
                self@.vehicles.filter(finished()).len() <= u32::MAX,
                count == self@.vehicles.take(i as int).filter(finished()).len(),
            decreases self.vehicles.len() - i,
        {
            proof {
                lemma_filter_take_step(self@.vehicles, finished(), i as int);
                assert(roadworthy(self@.vehicles[i as int], self@.layout));
                lemma_filter_grows(self@.vehicles, finished(), i as int + 1);
            }
            if self.vehicles[i].is_in_end_lane() {
                count += 1;
            }
            i += 1;
        }
        assert(self@.vehicles.take(i as int) =~= self@.vehicles);
        self.stats.add_to_total_vehicles(count);
    }

    /// Sets the longest and the shortest trip time to the greatest and the
    /// least age among the live vehicles, of which there must be one.
    pub fn find_min_max_times(&mut self)
        requires
            old(self)@.vehicles.len() > 0,
        ensures
            final(self)@.layout == old(self)@.layout,
            final(self)@.lanes == old(self)@.lanes,
            final(self)@.vehicles == old(self)@.vehicles,
            final(self)@.stats == (Statistics {
                max_time: final(self)@.stats.max_time,
                min_time: final(self)@.stats.min_time,
                ..old(self)@.stats
            }),
            exists|i: int|
                0 <= i < old(self)@.vehicles.len() && (#[trigger] old(self)@.vehicles[i]).time
                    == final(self)@.stats.max_time,
            forall|i: int|
                0 <= i < old(self)@.vehicles.len() ==> (#[trigger] old(self)@.vehicles[i]).time
                    <= final(self)@.stats.max_time,
            final(self)@.stats.min_time matches Some(least) && {
                &&& exists|i: int|
                    0 <= i < old(self)@.vehicles.len() && (#[trigger] old(self)@.vehicles[i]).time
                        == least
                &&& forall|i: int|
                    0 <= i < old(self)@.vehicles.len() ==> (#[trigger] old(self)@.vehicles[i]).time
                        >= least
            },
    {
        let mut most: u64 = self.vehicles[0].time;
        let mut least: u64 = self.vehicles[0].time;
        let ghost mut most_at: int = 0;
        let ghost mut least_at: int = 0;
        let mut i: usize = 1;
        while i < self.vehicles.len()
            invariant
                1 <= i <= self.vehicles.len(),
                0 <= most_at < i,
                0 <= least_at < i,
                self.vehicles[most_at]@.time == most,
                self.vehicles[least_at]@.time == least,
                forall|k: int| 0 <= k < i ==> least <= (#[trigger] self.vehicles[k])@.time <= most,
            decreases self.vehicles.len() - i,
        {
            let time: u64 = self.vehicles[i].time;
            if time > most {
                most = time;
                proof {
                    most_at = i as int;
                }
            }
            if time < least {
                least = time;
                proof {
                    least_at = i as int;
                }
            }
            i += 1;
        }
        self.stats.set_max_time(most);
        self.stats.set_min_time(least);
        proof {
            assert(old(self)@.vehicles[most_at].time == most);
            assert(old(self)@.vehicles[least_at].time == least);
            assert forall|k: int| 0 <= k < old(self)@.vehicles.len() implies least <= (
            #[trigger] old(self)@.vehicles[k]).time <= most by {
                assert(old(self)@.vehicles[k] == self.vehicles[k]@);
            }
        }
    }

    /// Whether the counters can surely take what the next tick may add.
    /// A tick adds at most one trip for every live vehicle and at most one
    /// close call for every two of them.
    pub fn can_update(&self) -> (r: bool)
        ensures
            r == self@.surely_has_room(),
            r ==> self@.has_room(),
    {
        if self.vehicles.len() > 0xffff {
            return false;
        }
        let n: u64 = self.vehicles.len() as u64;
        assert(n * n <= 0xffff * 0xffff) by (nonlinear_arith)
            requires
                0 <= n <= 0xffff,
        ;
        proof {
            lemma_fresh_total_bounded(self@.vehicles, self@.vehicles.len() as int);
        }
        self.stats.num_vehicles as u64 + n <= u32::MAX as u64 && self.stats.close_calls as u64 + n
            * n <= u32::MAX as u64
    }

    /// Advances the simulation by one tick if the counters surely have room
    /// for it, and leaves everything as it is if not. Returns whether the
    /// tick was taken. Either way every live vehicle has a velocity from
    /// minimum to burst afterwards.
    pub fn try_update(&mut self) -> (taken: bool)
        requires
            old(self)@.wf(),
        ensures
            taken == old(self)@.surely_has_room(),
            final(self)@ == (if taken {
                old(self)@.ticked()
            } else {
                old(self)@
            }),
            final(self)@.wf(),
            forall|i: int|
                0 <= i < final(self)@.vehicles.len() ==> MINIMUM_VELOCITY <= (
                #[trigger] final(self)@.vehicles[i]).velocity <= BURST_VELOCITY,
    {
        if self.can_update() {
            self.update();
            true
        } else {
            proof {
                self@.lemma_live_velocities_in_range();
            }
            false
        }
    }

    /// Advances the simulation by one tick. Every vehicle notes its close
    /// calls, is given the velocity of its verdict and moves one step, all
    /// against the vehicles as they were when the tick began; a vehicle is
    /// marked as colliding if it finds no way past another or another finds
    /// no way past it. Then the vehicles that have left the playfield are
    /// removed, each counting as one completed trip.
    pub fn update(&mut self)
        requires
            old(self)@.wf(),
            old(self)@.has_room(),
        ensures
            final(self)@ == old(self)@.ticked(),
            final(self)@.wf(),
            forall|i: int|
                0 <= i < final(self)@.vehicles.len() ==> MINIMUM_VELOCITY <= (
                #[trigger] final(self)@.vehicles[i]).velocity <= BURST_VELOCITY,
    {
        let ghost before = self@;
        let mut snapshot: Vec<Vehicle> = self.snapshot();
        let fresh: u32 = self.drive_all(&mut snapshot);
        assert(self@.vehicles.len() == self.vehicles.len());
        self.merge_marks(&snapshot);
        proof {
            assert(self@.vehicles =~= before.all_moved());
            assert forall|k: int| 0 <= k < self@.vehicles.len() implies on_course(
                #[trigger] self@.vehicles[k],
                self@.layout,
            ) by {
                before.lemma_driven_sound(k);
            }
            lemma_trips_keep_velocities(
                before.stats,
                before.all_moved(),
                before.vehicles.len() as int,
            );
            assert(self.stats == self@.stats);
            assert(self.stats.close_calls == before.stats.close_calls);
            assert(self.stats.num_vehicles == before.stats.num_vehicles);
        }
        self.stats.add_close_call(fresh);
        self.prune();
        proof {
            assert forall|i: int| 0 <= i < self@.vehicles.len() implies MINIMUM_VELOCITY <= (
            #[trigger] self@.vehicles[i]).velocity <= BURST_VELOCITY by {
                assert(roadworthy(self@.vehicles[i], self@.layout));
            }
        }
    }

    /// A copy of the live vehicles with every mark of a collision cleared.
    fn snapshot(&self) -> (r: Vec<Vehicle>)
        ensures
            r.len() == self.vehicles.len(),
            forall|k: int|
                0 <= k < r.len() ==> (#[trigger] r[k])@ == (VehicleState {
                    colliding: false,
                    ..self.vehicles[k]@
                }),
    {
        let mut snapshot: Vec<Vehicle> = Vec::new();
        let mut i: usize = 0;
        while i < self.vehicles.len()
            invariant
                i <= self.vehicles.len(),
                snapshot.len() == i,
                forall|k: int|
                    0 <= k < i ==> (#[trigger] snapshot[k])@ == (VehicleState {
                        colliding: false,
                        ..self.vehicles[k]@
                    }),
            decreases self.vehicles.len() - i,
        {
            let mut copy: Vehicle = self.vehicles[i].clone();
            copy.colliding = false;
            snapshot.push(copy);
            i += 1;
        }
        snapshot
    }

    /// Lets every vehicle do its own part of a tick against the snapshot:
    /// note its close calls, take the velocity of its verdict and move one
    /// step. The snapshot collects the marks of the vehicles that block
    /// another. Returns the number of fresh pairs of close-call partners.
    fn drive_all(&mut self, snapshot: &mut Vec<Vehicle>) -> (fresh: u32)
        requires
            old(self)@.wf(),
            old(self)@.has_room(),
            old(snapshot).len() == old(self).vehicles.len(),
            forall|k: int|
                0 <= k < old(snapshot).len() ==> (#[trigger] old(snapshot)[k])@ == (VehicleState {
                    colliding: false,
                    ..old(self).vehicles[k]@
                }),
        ensures
            final(self)@ == (IntersectionState {
                vehicles: old(self)@.all_driven(),
                stats: velocities_folded(
                    old(self)@.stats,
                    old(self)@.all_moved(),
                    old(self)@.vehicles.len() as int,
                ),
                ..old(self)@
            }),
            fresh == fresh_total(old(self)@.vehicles, old(self)@.vehicles.len() as int),
            final(snapshot).len() == old(snapshot).len(),
            forall|k: int|
                0 <= k < final(snapshot).len() ==> (#[trigger] final(snapshot)[k])@.colliding
                    == old(self)@.blocks(k),
    {
        let ghost before = self@;
        let n: usize = self.vehicles.len();
        let mut fresh: u32 = 0;
        let mut i: usize = 0;
        while i < n
            invariant
                i <= n,
                n == before.vehicles.len(),
                self.vehicles.len() == n,
                snapshot.len() == n,
                before.wf(),
                before.has_room(),
                self.layout == before.layout,
                lane_states(self.lanes@) == before.lanes,
                forall|k: int| 0 <= k < i ==> (#[trigger] self.vehicles[k])@ == before.driven(k),
                forall|k: int|
                    i <= k < n ==> (#[trigger] self.vehicles[k])@ == before.vehicles[k],
                forall|k: int|
                    0 <= k < n ==> same_but_mark((#[trigger] snapshot[k])@, before.vehicles[k])
                        && snapshot[k]@.colliding == before.blocks_before(k, i as int),
                self.stats == velocities_folded(before.stats, before.all_moved(), i as int),
                fresh == fresh_total(before.vehicles, i as int),
            decreases n - i,
        {
            let ghost others = states(snapshot@);
            proof {
                assert(roadworthy(before.vehicles[i as int], before.layout));
                assert forall|k: int| 0 <= k < n implies same_but_mark(
                    #[trigger] others[k],
                    before.vehicles[k],
                ) && others[k].wf() by {
                    assert(same_but_mark(snapshot[k]@, before.vehicles[k]));
                    assert(roadworthy(before.vehicles[k], before.layout));
                }
                lemma_partners_ignore_marks(
                    before.vehicles[i as int],
                    others,
                    before.vehicles,
                    n as int,
                );
                lemma_fresh_total_monotone(before.vehicles, i as int + 1, n as int);
                lemma_fresh_total_monotone(before.vehicles, i as int, i as int + 1);
                before.lemma_driven_sound(i as int);
            }
            let added: usize = get_close_calls_for_vehicle(&mut self.vehicles[i], snapshot);
            proof {
                lemma_arbitrate_same_motion(
                    self.vehicles[i as int]@,
                    before.vehicles[i as int],
                    others,
                    before.vehicles,
                );
            }
            let velocity: u32 = determine_velocity(&mut self.vehicles[i], snapshot);
            self.stats.record_velocity(velocity);
            self.vehicles[i].update(TICK_DELTA);
            fresh = fresh + added as u32;
            i += 1;
        }
        proof {
            assert(self@.vehicles =~= before.all_driven());
        }
        fresh
    }

    /// Marks every live vehicle that the snapshot has marked.
    fn merge_marks(&mut self, snapshot: &Vec<Vehicle>)
        requires
            snapshot.len() == old(self).vehicles.len(),
        ensures
            final(self)@.layout == old(self)@.layout,
            final(self)@.lanes == old(self)@.lanes,
            final(self)@.stats == old(self)@.stats,
            final(self)@.vehicles.len() == old(self)@.vehicles.len(),
            forall|k: int|
                0 <= k < old(self)@.vehicles.len() ==> #[trigger] final(self)@.vehicles[k] == (
                VehicleState {
                    colliding: old(self)@.vehicles[k].colliding || snapshot[k]@.colliding,
                    ..old(self)@.vehicles[k]
                }),
    {
        let n: usize = self.vehicles.len();
        let mut i: usize = 0;
        while i < n
            invariant
                i <= n,
                self.vehicles.len() == n,
                snapshot.len() == n,
                old(self).vehicles.len() == n,
                self.layout == old(self).layout,
                self.lanes == old(self).lanes,
                self.stats == old(self).stats,
                forall|k: int|
                    0 <= k < i ==> (#[trigger] self.vehicles[k])@ == (VehicleState {
                        colliding: old(self).vehicles[k]@.colliding || snapshot[k]@.colliding,
                        ..old(self).vehicles[k]@
                    }),
                forall|k: int| i <= k < n ==> (#[trigger] self.vehicles[k]) == old(self).vehicles[k],
            decreases n - i,
        {
            if snapshot[i].colliding {
                self.vehicles[i].colliding = true;
            }
            i += 1;
        }
    }

    /// Removes the vehicles that have left the playfield and notes the trip
    /// of each.
    fn prune(&mut self)
        requires
            old(self)@.layout.wf(),
            forall|k: int|
                0 <= k < old(self)@.vehicles.len() ==> on_course(
                    #[trigger] old(self)@.vehicles[k],
                    old(self)@.layout,
                ),
            old(self)@.stats.num_vehicles + old(self)@.vehicles.len() <= u32::MAX,
        ensures
            final(self)@ == (IntersectionState {
                vehicles: old(self)@.vehicles.filter(stays()),
                stats: trips_folded(
                    old(self)@.stats,
                    old(self)@.vehicles,
                    old(self)@.vehicles.len() as int,
                ),
                ..old(self)@
            }),
            forall|j: int|
                0 <= j < final(self)@.vehicles.len() ==> roadworthy(
                    #[trigger] final(self)@.vehicles[j],
                    final(self)@.layout,
                ),
    {
        let ghost before = self@;
        let n: usize = self.vehicles.len();
        let mut kept: Vec<Vehicle> = Vec::new();
        let mut i: usize = 0;
        proof {
            lemma_filter_take_none(before.vehicles, stays());
            assert(states(kept@) =~= Seq::empty());
        }
        while i < n
            invariant
                i <= n,
                n == self.vehicles.len(),
                before.layout.wf(),
                self.layout == before.layout,
                lane_states(self.lanes@) == before.lanes,
                states(self.vehicles@) == before.vehicles,
                forall|k: int|
                    0 <= k < n ==> on_course(#[trigger] before.vehicles[k], before.layout),
                before.stats.num_vehicles + n <= u32::MAX,
                self.stats.num_vehicles <= before.stats.num_vehicles + i,
                self.stats == trips_folded(before.stats, before.vehicles, i as int),
                states(kept@) == before.vehicles.take(i as int).filter(stays()),
                forall|j: int|
                    0 <= j < kept.len() ==> roadworthy((#[trigger] kept[j])@, before.layout),
            decreases n - i,
        {
            proof {
                lemma_filter_take_step(before.vehicles, stays(), i as int);
                assert(on_course(before.vehicles[i as int], before.layout));
                assert(before.vehicles[i as int] == self.vehicles[i as int]@);
            }
            if self.vehicles[i].is_in_entire_intersection() {
                let ghost earlier = states(kept@);
                kept.push(self.vehicles[i].clone());
                assert(states(kept@) =~= earlier.push(before.vehicles[i as int]));
            } else {
                self.stats.record_trip(self.vehicles[i].time);
            }
            i += 1;
        }
        assert(before.vehicles.take(n as int) =~= before.vehicles);
        self.vehicles = kept;
    }
}

} // verus!
