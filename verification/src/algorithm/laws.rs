//! What holds of every verdict.

use super::{
    arbitrate,
    arbitrate_from,
    conflicts,
    has_priority_over,
    is_priority_peer,
    same_outcome,
    Verdict,
};
use crate::physics::laws::lemma_will_collide_same_motion;
use crate::physics::{same_motion, will_collide};
use crate::vehicle::{VehicleState, BURST_VELOCITY, CRUISE_VELOCITY, MINIMUM_VELOCITY};
use vstd::prelude::*;

verus! {

/// The negotiation never leaves the range from minimum to burst velocity, and
/// it names a blocking peer only when that peer has priority and a collision
/// with it is predicted both at minimum and at burst velocity; the vehicle
/// then gets the minimum velocity.
pub proof fn lemma_arbitrate_from_sound(
    v: VehicleState,
    others: Seq<VehicleState>,
    from: int,
    candidate: int,
)
    requires
        MINIMUM_VELOCITY <= candidate <= BURST_VELOCITY,
    ensures
        MINIMUM_VELOCITY <= arbitrate_from(v, others, from, candidate).velocity <= BURST_VELOCITY,
        arbitrate_from(v, others, from, candidate).blocked_by matches Some(peer) ==> {
            &&& 0 <= from <= peer < others.len()
            &&& arbitrate_from(v, others, from, candidate).velocity == MINIMUM_VELOCITY
            &&& is_priority_peer(v, others[peer])
            &&& will_collide(v.with_velocity(MINIMUM_VELOCITY as int), others[peer])
            &&& will_collide(v.with_velocity(BURST_VELOCITY as int), others[peer])
        },
    decreases others.len() - from, candidate,
{
    if from < 0 || from >= others.len() {
    } else if !conflicts(v, others[from], candidate) {
        lemma_arbitrate_from_sound(v, others, from + 1, candidate);
    } else if candidate > MINIMUM_VELOCITY {
        lemma_arbitrate_from_sound(v, others, from, candidate - 1);
    }
}

/// Every verdict gives a velocity from minimum to burst.
pub proof fn lemma_velocity_in_range(v: VehicleState, others: Seq<VehicleState>)
    ensures
        MINIMUM_VELOCITY <= arbitrate(v, others).velocity <= BURST_VELOCITY,
{
    lemma_arbitrate_from_sound(v, others, 0, CRUISE_VELOCITY as int);
}

/// A vehicle is marked as colliding only when it is outside its exit lane
/// and some peer with priority is predicted to collide with it both at
/// minimum and at burst velocity; it then travels at minimum velocity.
pub proof fn lemma_blocked_only_without_way_out(v: VehicleState, others: Seq<VehicleState>)
    ensures
        arbitrate(v, others).blocked_by matches Some(peer) ==> {
            &&& 0 <= peer < others.len()
            &&& !v.is_in_end_lane()
            &&& arbitrate(v, others).velocity == MINIMUM_VELOCITY
            &&& is_priority_peer(v, others[peer])
            &&& will_collide(v.with_velocity(MINIMUM_VELOCITY as int), others[peer])
            &&& will_collide(v.with_velocity(BURST_VELOCITY as int), others[peer])
        },
{
    lemma_arbitrate_from_sound(v, others, 0, CRUISE_VELOCITY as int);
}

/// Two vehicles outside their exit lanes that stand in different places and
/// are equally far from finishing both give way to one another.
pub proof fn lemma_tie_makes_both_give_way(a: VehicleState, b: VehicleState)
    requires
        !a.is_in_end_lane(),
        !b.is_in_end_lane(),
        a.position != b.position,
        a.distance_to_finish() == b.distance_to_finish(),
    ensures
        is_priority_peer(a, b),
        is_priority_peer(b, a),
{
}

/// A negotiation that is entered at a velocity from minimum to cruise ends
/// at burst velocity only on account of a peer with priority with which a
/// collision is predicted at minimum velocity and none at burst velocity.
pub proof fn lemma_arbitrate_from_burst(
    v: VehicleState,
    others: Seq<VehicleState>,
    from: int,
    candidate: int,
)
    requires
        MINIMUM_VELOCITY <= candidate <= CRUISE_VELOCITY,
        arbitrate_from(v, others, from, candidate).velocity == BURST_VELOCITY,
    ensures
        exists|peer: int|
            {
                &&& 0 <= peer < others.len()
                &&& is_priority_peer(v, #[trigger] others[peer])
                &&& will_collide(v.with_velocity(MINIMUM_VELOCITY as int), others[peer])
                &&& !will_collide(v.with_velocity(BURST_VELOCITY as int), others[peer])
            },
    decreases others.len() - from, candidate,
{
    if from < 0 || from >= others.len() {
    } else if !conflicts(v, others[from], candidate) {
        lemma_arbitrate_from_burst(v, others, from + 1, candidate);
    } else if candidate > MINIMUM_VELOCITY {
        lemma_arbitrate_from_burst(v, others, from, candidate - 1);
    } else {
        assert(is_priority_peer(v, others[from]));
    }
}

/// A vehicle gets burst velocity only when slowing down to minimum
/// velocity would not avoid a peer with priority and speeding up to burst
/// velocity does, as the predictor sees the peer when the verdict is given.
pub proof fn lemma_burst_only_when_it_clears(v: VehicleState, others: Seq<VehicleState>)
    requires
        arbitrate(v, others).velocity == BURST_VELOCITY,
    ensures
        !v.is_in_end_lane(),
        arbitrate(v, others).blocked_by.is_none(),
        exists|peer: int|
            {
                &&& 0 <= peer < others.len()
                &&& is_priority_peer(v, #[trigger] others[peer])
                &&& will_collide(v.with_velocity(MINIMUM_VELOCITY as int), others[peer])
                &&& !will_collide(v.with_velocity(BURST_VELOCITY as int), others[peer])
            },
{
    lemma_arbitrate_from_burst(v, others, 0, CRUISE_VELOCITY as int);
    lemma_arbitrate_from_sound(v, others, 0, CRUISE_VELOCITY as int);
}

/// From a place onwards, a vehicle that gives way to none of the remaining
/// ones keeps the velocity it came with.
pub proof fn lemma_arbitrate_from_without_peers(
    v: VehicleState,
    others: Seq<VehicleState>,
    from: int,
    candidate: int,
)
    requires
        forall|i: int| from <= i < others.len() ==> !is_priority_peer(v, #[trigger] others[i]),
    ensures
        arbitrate_from(v, others, from, candidate) == (Verdict {
            velocity: candidate,
            blocked_by: None,
        }),
    decreases others.len() - from,
{
    if 0 <= from < others.len() {
        lemma_arbitrate_from_without_peers(v, others, from + 1, candidate);
    }
}

/// A vehicle that gives way to nobody cruises and is not marked as
/// colliding.
pub proof fn lemma_no_peers_means_cruise(v: VehicleState, others: Seq<VehicleState>)
    requires
        forall|i: int| 0 <= i < others.len() ==> !is_priority_peer(v, #[trigger] others[i]),
    ensures
        arbitrate(v, others) == (Verdict { velocity: CRUISE_VELOCITY as int, blocked_by: None }),
{
    lemma_arbitrate_from_without_peers(v, others, 0, CRUISE_VELOCITY as int);
}

/// Against a single vehicle with priority, a vehicle outside its exit lane
/// gets the highest velocity from cruise down to minimum at which no
/// collision is predicted; failing that, burst velocity if that avoids the
/// collision; failing that too, minimum velocity and the mark.
pub proof fn lemma_arbitrate_against_one(v: VehicleState, peer: VehicleState)
    requires
        !v.is_in_end_lane(),
        is_priority_peer(v, peer),
    ensures
        ({
            let verdict = arbitrate(v, seq![peer]);
            let clear = |velocity: int| !will_collide(v.with_velocity(velocity), peer);
            if clear(CRUISE_VELOCITY as int) {
                verdict == (Verdict { velocity: CRUISE_VELOCITY as int, blocked_by: None })
            } else if clear(CRUISE_VELOCITY - 1) {
                verdict == (Verdict { velocity: CRUISE_VELOCITY - 1, blocked_by: None })
            } else if clear(MINIMUM_VELOCITY as int) {
                verdict == (Verdict { velocity: MINIMUM_VELOCITY as int, blocked_by: None })
            } else if clear(BURST_VELOCITY as int) {
                verdict == (Verdict { velocity: BURST_VELOCITY as int, blocked_by: None })
            } else {
                verdict == (Verdict { velocity: MINIMUM_VELOCITY as int, blocked_by: Some(0) })
            }
        }),
{
    let others = seq![peer];
    assert(others[0] == peer);
    reveal_with_fuel(arbitrate_from, 5);
}

/// The negotiation depends on how the vehicles move and on nothing else
/// about them.
pub proof fn lemma_arbitrate_from_same_motion(
    v: VehicleState,
    v2: VehicleState,
    others: Seq<VehicleState>,
    others2: Seq<VehicleState>,
    from: int,
    candidate: int,
)
    requires
        same_motion(v, v2),
        others.len() == others2.len(),
        forall|i: int| 0 <= i < others.len() ==> same_motion(#[trigger] others[i], others2[i]),
    ensures
        arbitrate_from(v, others, from, candidate) == arbitrate_from(v2, others2, from, candidate),
    decreases others.len() - from, candidate,
{
    if 0 <= from < others.len() {
        assert(same_motion(others[from], others2[from]));
        lemma_will_collide_same_motion(
            v.with_velocity(candidate),
            v2.with_velocity(candidate),
            others[from],
            others2[from],
        );
        lemma_will_collide_same_motion(
            v.with_velocity(BURST_VELOCITY as int),
            v2.with_velocity(BURST_VELOCITY as int),
            others[from],
            others2[from],
        );
        if !conflicts(v, others[from], candidate) {
            lemma_arbitrate_from_same_motion(v, v2, others, others2, from + 1, candidate);
        } else if candidate > MINIMUM_VELOCITY {
            lemma_arbitrate_from_same_motion(v, v2, others, others2, from, candidate - 1);
        }
    }
}

/// The verdict depends on how the vehicles move and on nothing else about
/// them: not on their identities, their age or their marks.
pub proof fn lemma_arbitrate_same_motion(
    v: VehicleState,
    v2: VehicleState,
    others: Seq<VehicleState>,
    others2: Seq<VehicleState>,
)
    requires
        same_motion(v, v2),
        others.len() == others2.len(),
        forall|i: int| 0 <= i < others.len() ==> same_motion(#[trigger] others[i], others2[i]),
    ensures
        arbitrate(v, others) == arbitrate(v2, others2),
{
    lemma_arbitrate_from_same_motion(v, v2, others, others2, 0, CRUISE_VELOCITY as int);
}

/// A vehicle in front of those negotiated with, and already settled with,
/// changes nothing but the place of the blocking peer.
proof fn lemma_arbitrate_from_shifted(
    v: VehicleState,
    first: VehicleState,
    rest: Seq<VehicleState>,
    from: int,
    candidate: int,
)
    requires
        0 <= from <= rest.len(),
    ensures
        same_outcome(
            arbitrate_from(v, seq![first] + rest, from + 1, candidate),
            seq![first] + rest,
            arbitrate_from(v, rest, from, candidate),
            rest,
        ),
    decreases rest.len() - from, candidate,
{
    let longer = seq![first] + rest;
    if from < rest.len() {
        assert(longer[from + 1] == rest[from]);
        if !conflicts(v, rest[from], candidate) {
            lemma_arbitrate_from_shifted(v, first, rest, from + 1, candidate);
        } else if candidate > MINIMUM_VELOCITY {
            lemma_arbitrate_from_shifted(v, first, rest, from, candidate - 1);
        }
    }
}

/// From any place onwards, the negotiation with all remaining vehicles comes
/// to the same as the negotiation with those of them that have priority.
proof fn lemma_arbitrate_from_is_over_peers(
    v: VehicleState,
    others: Seq<VehicleState>,
    from: int,
    candidate: int,
)
    requires
        0 <= from <= others.len(),
    ensures
        same_outcome(
            arbitrate_from(v, others, from, candidate),
            others,
            arbitrate_from(v, others.skip(from).filter(has_priority_over(v)), 0, candidate),
            others.skip(from).filter(has_priority_over(v)),
        ),
    decreases others.len() - from, candidate,
{
    let remaining = others.skip(from);
    let peers = remaining.filter(has_priority_over(v));
    if from == others.len() {
        reveal(Seq::filter);
        assert(remaining =~= Seq::empty());
    } else {
        let first = others[from];
        let later = others.skip(from + 1);
        let later_peers = later.filter(has_priority_over(v));
        assert(remaining =~= seq![first] + later);
        later.lemma_filter_prepend(first, has_priority_over(v));
        if !is_priority_peer(v, first) {
            assert(peers =~= later_peers);
            lemma_arbitrate_from_is_over_peers(v, others, from + 1, candidate);
        } else {
            assert(peers =~= seq![first] + later_peers);
            assert(peers[0] == first);
            if !conflicts(v, first, candidate) {
                lemma_arbitrate_from_is_over_peers(v, others, from + 1, candidate);
                lemma_arbitrate_from_shifted(v, first, later_peers, 0, candidate);
            } else if candidate > MINIMUM_VELOCITY {
                lemma_arbitrate_from_is_over_peers(v, others, from, candidate - 1);
            }
        }
    }
}

/// The verdict against all vehicles is the verdict against those of them
/// that the vehicle gives way to, taken in the same order: vehicles without
/// priority never change the velocity and never block.
pub proof fn lemma_arbitrate_is_over_peers(v: VehicleState, others: Seq<VehicleState>)
    ensures
        same_outcome(
            arbitrate(v, others),
            others,
            arbitrate(v, others.filter(has_priority_over(v))),
            others.filter(has_priority_over(v)),
        ),
{
    assert(others.skip(0) =~= others);
    lemma_arbitrate_from_is_over_peers(v, others, 0, CRUISE_VELOCITY as int);
}

} // verus!
