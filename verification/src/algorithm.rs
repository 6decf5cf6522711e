//! Arbitration of right-of-way: the speed a vehicle chooses for one tick.
//!
//! A vehicle gives way only to vehicles that are at least as close to
//! finishing as itself. Starting from cruise velocity it slows down, one
//! unit at a time, until the predictor sees no collision with the peer at
//! hand. If even the minimum velocity does not help, it tries once to slip
//! through at burst velocity; if that fails too, it crawls on at minimum
//! velocity and both vehicles are marked as colliding.

use crate::physics::laws::lemma_will_collide_same_motion;
use crate::physics::{will_collide, will_vehicles_collide};
use crate::vehicle::{
    states,
    Vehicle,
    VehicleState,
    BURST_VELOCITY,
    CRUISE_VELOCITY,
    MINIMUM_VELOCITY,
};
use vstd::prelude::*;

pub mod laws;

use laws::{lemma_arbitrate_from_sound, lemma_no_peers_means_cruise};

verus! {

/// What arbitration decides for one vehicle.
pub struct Verdict {
    /// The velocity for the tick.
    pub velocity: int,
    /// The place, among the vehicles arbitrated against, of the peer with
    /// which a collision is predicted at minimum and at burst velocity.
    pub blocked_by: Option<int>,
}

/// Whether `v` gives way to `peer`: the peer has not reached its exit lane,
/// does not stand exactly where `v` stands, and is no further from finishing
/// than `v`.
pub open spec fn is_priority_peer(v: VehicleState, peer: VehicleState) -> bool {
    &&& !peer.is_in_end_lane()
    &&& peer.position != v.position
    &&& peer.distance_to_finish() <= v.distance_to_finish()
}

/// The predicate that tells the vehicles that `v` gives way to from the
/// rest.
pub open spec fn has_priority_over(v: VehicleState) -> spec_fn(VehicleState) -> bool {
    |peer: VehicleState| is_priority_peer(v, peer)
}

/// Whether `v`, travelling at `velocity`, is predicted to collide with
/// `peer` while giving way to it.
pub open spec fn conflicts(v: VehicleState, peer: VehicleState, velocity: int) -> bool {
    is_priority_peer(v, peer) && will_collide(v.with_velocity(velocity), peer)
}

/// The verdict for `v` when it enters the negotiation with `others[from]`
/// at the velocity `candidate`, having settled with all earlier ones.
pub open spec fn arbitrate_from(
    v: VehicleState,
    others: Seq<VehicleState>,
    from: int,
    candidate: int,
) -> Verdict
    decreases others.len() - from, candidate,
{
    if from < 0 || from >= others.len() {
        Verdict { velocity: candidate, blocked_by: None }
    } else if !conflicts(v, others[from], candidate) {
        arbitrate_from(v, others, from + 1, candidate)
    } else if candidate > MINIMUM_VELOCITY {
        arbitrate_from(v, others, from, candidate - 1)
    } else if !conflicts(v, others[from], BURST_VELOCITY as int) {
        Verdict { velocity: BURST_VELOCITY as int, blocked_by: None }
    } else {
        Verdict { velocity: MINIMUM_VELOCITY as int, blocked_by: Some(from) }
    }
}

/// The verdict for `v` against `others`. A vehicle in its exit lane cruises;
/// any other negotiates with each of `others` in turn, starting at cruise
/// velocity.
pub open spec fn arbitrate(v: VehicleState, others: Seq<VehicleState>) -> Verdict {
    if v.is_in_end_lane() {
        Verdict { velocity: CRUISE_VELOCITY as int, blocked_by: None }
    } else {
        arbitrate_from(v, others, 0, CRUISE_VELOCITY as int)
    }
}

/// Whether a verdict reached against `others` and one reached against
/// `peers` come to the same: the same velocity, and either no blocking peer
/// in both or the same vehicle as blocking peer in both.
pub open spec fn same_outcome(
    against_others: Verdict,
    others: Seq<VehicleState>,
    against_peers: Verdict,
    peers: Seq<VehicleState>,
) -> bool {
    &&& against_others.velocity == against_peers.velocity
    &&& match (against_others.blocked_by, against_peers.blocked_by) {
        (None, None) => true,
        (Some(i), Some(j)) => 0 <= i < others.len() && 0 <= j < peers.len() && others[i]
            == peers[j],
        _ => false,
    }
}

/// Chooses the velocity of `car` for this tick against the snapshot
/// `all_cars` and sets it. The vehicle is marked as colliding exactly when
/// the verdict names a blocking peer, and that peer is marked in the
/// snapshot; nothing else changes.
pub fn determine_velocity(car: &mut Vehicle, all_cars: &mut Vec<Vehicle>) -> (velocity: u32)
    requires
        old(car)@.wf(),
        forall|i: int| 0 <= i < old(all_cars).len() ==> (#[trigger] old(all_cars)[i])@.wf(),
    ensures
        velocity == arbitrate(old(car)@, states(old(all_cars)@)).velocity,
        MINIMUM_VELOCITY <= velocity <= BURST_VELOCITY,
        final(car)@ == (VehicleState {
            velocity: velocity as int,
            colliding: arbitrate(old(car)@, states(old(all_cars)@)).blocked_by.is_some(),
            ..old(car)@
        }),
        final(all_cars).len() == old(all_cars).len(),
        forall|i: int|
            0 <= i < old(all_cars).len() ==> (#[trigger] final(all_cars)[i])@ == (
            if arbitrate(old(car)@, states(old(all_cars)@)).blocked_by == Some(i) {
                VehicleState { colliding: true, ..old(all_cars)[i]@ }
            } else {
                old(all_cars)[i]@
            }),
        (forall|i: int|
            0 <= i < old(all_cars).len() ==> !is_priority_peer(
                old(car)@,
                (#[trigger] old(all_cars)[i])@,
            )) ==> velocity == CRUISE_VELOCITY && !final(car)@.colliding,
        final(car)@.colliding ==> velocity == MINIMUM_VELOCITY && exists|i: int|
            0 <= i < old(all_cars).len() && is_priority_peer(
                old(car)@,
                (#[trigger] old(all_cars)[i])@,
            ) && will_collide(old(car)@.with_velocity(MINIMUM_VELOCITY as int), old(all_cars)[i]@)
                && will_collide(old(car)@.with_velocity(BURST_VELOCITY as int), old(all_cars)[i]@),
{
    let ghost v = old(car)@;
    let ghost others = states(old(all_cars)@);
    proof {
        lemma_arbitrate_from_sound(v, others, 0, CRUISE_VELOCITY as int);
        if forall|i: int|
            0 <= i < old(all_cars).len() ==> !is_priority_peer(v, (#[trigger] old(all_cars)[i])@) {
            assert forall|i: int| 0 <= i < others.len() implies !is_priority_peer(
                v,
                #[trigger] others[i],
            ) by {
                assert(others[i] == old(all_cars)[i]@);
            }
            lemma_no_peers_means_cruise(v, others);
        }
        if arbitrate(v, others).blocked_by.is_some() {
            let peer = arbitrate(v, others).blocked_by.unwrap();
            assert(others[peer] == old(all_cars)[peer]@);
        }
    }
    car.colliding = false;
    if car.is_in_end_lane() {
        car.set_velocity(CRUISE_VELOCITY);
        return CRUISE_VELOCITY;
    }
    let own_distance: u32 = car.get_distance_to_finish();
    let mut candidate: u32 = CRUISE_VELOCITY;
    car.set_velocity(candidate);
    let mut i: usize = 0;
    while i < all_cars.len()
        invariant
            i <= all_cars.len(),
            MINIMUM_VELOCITY <= candidate <= CRUISE_VELOCITY,
            v.wf(),
            v == old(car)@,
            others == states(old(all_cars)@),
            all_cars@ == old(all_cars)@,
            forall|k: int| 0 <= k < all_cars.len() ==> (#[trigger] all_cars[k])@.wf(),
            own_distance == v.distance_to_finish(),
            car@ == (VehicleState { velocity: candidate as int, colliding: false, ..v }),
            arbitrate_from(v, others, i as int, candidate as int) == arbitrate(v, others),
        decreases all_cars.len() - i, candidate,
    {
        assert(others[i as int] == all_cars[i as int]@);
        proof {
            lemma_will_collide_same_motion(
                car@,
                v.with_velocity(candidate as int),
                others[i as int],
                others[i as int],
            );
        }
        if !gives_way_to(car, &all_cars[i], own_distance) || !will_vehicles_collide(
            car,
            &all_cars[i],
        ) {
            i += 1;
        } else if candidate > MINIMUM_VELOCITY {
            candidate -= 1;
            car.set_velocity(candidate);
        } else {
            car.set_velocity(BURST_VELOCITY);
            proof {
                lemma_will_collide_same_motion(
                    car@,
                    v.with_velocity(BURST_VELOCITY as int),
                    others[i as int],
                    others[i as int],
                );
            }
            if !will_vehicles_collide(car, &all_cars[i]) {
                return BURST_VELOCITY;
            }
            car.set_velocity(MINIMUM_VELOCITY);
            car.colliding = true;
            all_cars[i].colliding = true;
            return MINIMUM_VELOCITY;
        }
    }
    candidate
}

/// Whether `car` gives way to `peer`, given the distance of `car` to its
/// own finish.
fn gives_way_to(car: &Vehicle, peer: &Vehicle, own_distance: u32) -> (r: bool)
    requires
        car@.wf(),
        peer@.wf(),
        own_distance == car@.distance_to_finish(),
    ensures
        r == is_priority_peer(car@, peer@),
{
    !peer.is_in_end_lane() && peer.position != car.position && peer.get_distance_to_finish()
        <= own_distance
}

} // verus!
