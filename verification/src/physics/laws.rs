//! What holds of prediction and of close calls.

use super::{
    collide_after,
    counts_as_fresh,
    distinct_identities,
    fresh_pairs,
    greater_than,
    is_close_call,
    partners_after,
    same_but_mark,
    same_motion,
    will_collide,
    HORIZON,
};
use crate::filtering::{lemma_filter_take_none, lemma_filter_take_step};
use crate::geometry::{magnitude, Point};
use crate::vehicle::VehicleState;
use vstd::prelude::*;

verus! {

/// A step moves a point by the velocity along one axis and leaves the other
/// coordinate alone.
pub proof fn lemma_step_is_bounded(v: VehicleState, at: Point)
    requires
        v.velocity >= 0,
    ensures
        magnitude(v.next_position(at).x - at.x) + magnitude(v.next_position(at).y - at.y)
            == v.velocity,
{
}

/// Where a vehicle gets to depends on its playfield, route and velocity
/// alone.
pub proof fn lemma_position_after_same_motion(
    a: VehicleState,
    b: VehicleState,
    at: Point,
    steps: nat,
)
    requires
        a.layout == b.layout,
        a.pair == b.pair,
        a.velocity == b.velocity,
    ensures
        a.position_after(at, steps) == b.position_after(at, steps),
    decreases steps,
{
    if steps > 0 {
        lemma_position_after_same_motion(a, b, at, (steps - 1) as nat);
    }
}

/// Prediction depends on how the two vehicles move and on nothing else
/// about them.
pub proof fn lemma_will_collide_same_motion(
    a: VehicleState,
    a2: VehicleState,
    b: VehicleState,
    b2: VehicleState,
)
    requires
        same_motion(a, a2),
        same_motion(b, b2),
    ensures
        will_collide(a, b) == will_collide(a2, b2),
{
    assert forall|steps: nat| collide_after(a, b, steps) == collide_after(a2, b2, steps) by {
        lemma_position_after_same_motion(a, a2, a.position, steps);
        lemma_position_after_same_motion(b, b2, b.position, steps);
    }
    if will_collide(a, b) {
        let steps = choose|steps: nat| 1 <= steps <= HORIZON && collide_after(a, b, steps);
        assert(collide_after(a2, b2, steps));
    }
    if will_collide(a2, b2) {
        let steps = choose|steps: nat| 1 <= steps <= HORIZON && collide_after(a2, b2, steps);
        assert(collide_after(a, b, steps));
    }
}

/// Prediction does not depend on the order in which the two vehicles are
/// given.
pub proof fn lemma_will_collide_symmetric(a: VehicleState, b: VehicleState)
    ensures
        will_collide(a, b) == will_collide(b, a),
{
    assert forall|steps: nat| collide_after(a, b, steps) == collide_after(b, a, steps) by {}
    if will_collide(a, b) {
        let steps = choose|steps: nat| 1 <= steps <= HORIZON && collide_after(a, b, steps);
        assert(collide_after(b, a, steps));
    }
    if will_collide(b, a) {
        let steps = choose|steps: nat| 1 <= steps <= HORIZON && collide_after(b, a, steps);
        assert(collide_after(a, b, steps));
    }
}

/// Whether one vehicle is a close call of another does not depend on which
/// of the two is asked.
pub proof fn lemma_close_call_symmetric(a: VehicleState, b: VehicleState)
    ensures
        is_close_call(a, b) == is_close_call(b, a),
{
}

/// The partners a vehicle records, and how many of them count, do not
/// depend on which of the vehicles it looks at are marked as colliding.
pub proof fn lemma_partners_ignore_marks(
    car: VehicleState,
    others: Seq<VehicleState>,
    others2: Seq<VehicleState>,
    upto: int,
)
    requires
        others.len() == others2.len(),
        upto <= others.len(),
        forall|i: int| 0 <= i < others.len() ==> same_but_mark(#[trigger] others[i], others2[i]),
    ensures
        partners_after(car, others, upto) == partners_after(car, others2, upto),
        fresh_pairs(car, others, upto) == fresh_pairs(car, others2, upto),
    decreases upto,
{
    if upto > 0 {
        lemma_partners_ignore_marks(car, others, others2, upto - 1);
        assert(same_but_mark(others[upto - 1], others2[upto - 1]));
    }
}

/// Looking at vehicles keeps the partners a vehicle had, in place, and adds
/// behind them exactly the identities of the close calls among the vehicles
/// looked at; if nobody was recorded twice before, nobody is afterwards.
pub proof fn lemma_partners_are_old_and_close(
    car: VehicleState,
    others: Seq<VehicleState>,
    upto: int,
)
    requires
        upto <= others.len(),
    ensures
        car.close_calls.is_prefix_of(partners_after(car, others, upto)),
        car.close_calls.no_duplicates() ==> partners_after(car, others, upto).no_duplicates(),
        forall|identity: u32|
            #[trigger] partners_after(car, others, upto).contains(identity)
                <==> car.close_calls.contains(identity) || exists|k: int|
                0 <= k < upto && is_close_call(car, #[trigger] others[k]) && others[k].id
                    == identity,
    decreases upto,
{
    if upto > 0 {
        lemma_partners_are_old_and_close(car, others, upto - 1);
        let before = partners_after(car, others, upto - 1);
        let after = partners_after(car, others, upto);
        let other = others[upto - 1];
        assert forall|identity: u32| #[trigger]
            after.contains(identity) <==> car.close_calls.contains(identity) || exists|k: int|
                0 <= k < upto && is_close_call(car, #[trigger] others[k]) && others[k].id
                    == identity by {
            if is_close_call(car, other) && !before.contains(other.id) {
                assert(after == before.push(other.id));
                assert(after[before.len() as int] == other.id);
                if after.contains(identity) {
                    let at = choose|at: int| 0 <= at < after.len() && after[at] == identity;
                    if at < before.len() {
                        assert(before[at] == identity);
                        assert(before.contains(identity));
                    } else {
                        assert(identity == other.id);
                        assert(is_close_call(car, others[upto - 1]));
                    }
                }
                if before.contains(identity) {
                    let at = choose|at: int| 0 <= at < before.len() && before[at] == identity;
                    assert(after[at] == identity);
                }
            } else {
                assert(after == before);
                if is_close_call(car, other) && other.id == identity {
                    assert(before.contains(identity));
                }
            }
            if exists|k: int|
                0 <= k < upto && is_close_call(car, #[trigger] others[k]) && others[k].id
                    == identity {
                let k = choose|k: int|
                    0 <= k < upto && is_close_call(car, #[trigger] others[k]) && others[k].id
                        == identity;
                if k < upto - 1 {
                    assert(before.contains(identity));
                }
            }
        }
        if car.close_calls.no_duplicates() && is_close_call(car, other) && !before.contains(
            other.id,
        ) {
            assert forall|i: int, j: int|
                0 <= i < after.len() && 0 <= j < after.len() && i != j implies after[i]
                != after[j] by {
                if i < before.len() && j < before.len() {
                } else if i < before.len() {
                    assert(before[i] == after[i]);
                    assert(before.contains(after[i]));
                } else {
                    assert(before[j] == after[j]);
                    assert(before.contains(after[j]));
                }
            }
        }
    }
}

/// The fresh pairs a vehicle counts are the partners it gains that have a
/// greater identity than its own.
pub proof fn lemma_fresh_pairs_are_new_partners(
    car: VehicleState,
    others: Seq<VehicleState>,
    upto: int,
)
    requires
        upto <= others.len(),
    ensures
        fresh_pairs(car, others, upto) == partners_after(car, others, upto).skip(
            car.close_calls.len() as int,
        ).filter(greater_than(car.id)).len(),
    decreases upto,
{
    reveal(Seq::filter);
    let had = car.close_calls.len() as int;
    if upto > 0 {
        lemma_fresh_pairs_are_new_partners(car, others, upto - 1);
        lemma_partners_are_old_and_close(car, others, upto - 1);
        let before = partners_after(car, others, upto - 1);
        let after = partners_after(car, others, upto);
        let other = others[upto - 1];
        if is_close_call(car, other) && !before.contains(other.id) {
            assert(after.skip(had).drop_last() =~= before.skip(had));
            assert(after.skip(had).last() == other.id);
        }
    } else {
        assert(car.close_calls.skip(had) =~= Seq::empty());
    }
}

/// Among vehicles of different identities, the fresh pairs a vehicle counts
/// are the vehicles with a greater identity that are a close call and were
/// not among its partners before. A pair of vehicles is thus counted by the
/// one of smaller identity and never by the other.
pub proof fn lemma_fresh_pairs_count(car: VehicleState, others: Seq<VehicleState>, upto: int)
    requires
        distinct_identities(others),
        0 <= upto <= others.len(),
    ensures
        fresh_pairs(car, others, upto) == others.take(upto).filter(counts_as_fresh(car)).len(),
    decreases upto,
{
    if upto == 0 {
        lemma_filter_take_none(others, counts_as_fresh(car));
    } else {
        lemma_fresh_pairs_count(car, others, upto - 1);
        lemma_filter_take_step(others, counts_as_fresh(car), upto - 1);
        lemma_partners_are_old_and_close(car, others, upto - 1);
        let before = partners_after(car, others, upto - 1);
        let other = others[upto - 1];
        if before.contains(other.id) && !car.close_calls.contains(other.id) {
            let k = choose|k: int|
                0 <= k < upto - 1 && is_close_call(car, #[trigger] others[k]) && others[k].id
                    == other.id;
            assert(others[k].id != others[upto - 1].id);
        }
        if car.close_calls.contains(other.id) {
            assert(before.contains(other.id));
        }
    }
}

/// A vehicle never counts more fresh pairs than it has looked at vehicles.
pub proof fn lemma_fresh_pairs_bounded(car: VehicleState, others: Seq<VehicleState>, upto: int)
    ensures
        0 <= fresh_pairs(car, others, upto),
        fresh_pairs(car, others, upto) <= if upto <= 0 {
            0
        } else {
            upto
        },
    decreases upto,
{
    if upto > 0 {
        lemma_fresh_pairs_bounded(car, others, upto - 1);
    }
}

} // verus!
