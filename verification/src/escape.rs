//! Escape-time counting: how many steps an orbit stays inside a region,
//! capped at a fixed budget.
//!
//! The orbit's values and the two operations on them belong to the caller,
//! so the arithmetic may be of any kind. The loop that applies them, its cap
//! and its order of evaluation are fixed here.

use vstd::prelude::*;

verus! {

/// The most steps an orbit is followed for.
pub const MAX_ITERATIONS: u8 = 255;

/// Whether `orbit` records `count` steps from `start`: each value but the
/// last was found inside the region and stepped to the next one.
pub open spec fn is_orbit<Z, W: Fn(&Z) -> bool, S: Fn(Z) -> Z>(
    start: Z,
    within: W,
    step: S,
    orbit: Seq<Z>,
    count: nat,
) -> bool {
    &&& orbit.len() == count + 1
    &&& orbit[0] == start
    &&& forall|i: int|
        0 <= i < count ==> call_ensures(within, (&#[trigger] orbit[i],), true) && call_ensures(
            step,
            (orbit[i],),
            orbit[i + 1],
        )
}

/// Whether `orbit` is an orbit of `count` steps from `start` that ends
/// either at the cap or on a value found outside the region.
pub open spec fn is_escape_orbit<Z, W: Fn(&Z) -> bool, S: Fn(Z) -> Z>(
    start: Z,
    within: W,
    step: S,
    orbit: Seq<Z>,
    count: nat,
) -> bool {
    &&& is_orbit(start, within, step, orbit, count)
    &&& count <= MAX_ITERATIONS
    &&& count < MAX_ITERATIONS ==> call_ensures(within, (&orbit[count as int],), false)
}

/// Whether `count` is an escape count of `start`: the length of some orbit
/// that ends at the cap or outside the region.
pub open spec fn is_escape_count<Z, W: Fn(&Z) -> bool, S: Fn(Z) -> Z>(
    start: Z,
    within: W,
    step: S,
    count: nat,
) -> bool {
    exists|orbit: Seq<Z>| #[trigger] is_escape_orbit(start, within, step, orbit, count)
}

/// The escape count of `z` by definition: the number of steps before the
/// orbit under `next` first leaves the region `inside`, or `budget` if it
/// does not leave within that many steps.
pub open spec fn escape_steps<Z>(
    z: Z,
    inside: spec_fn(Z) -> bool,
    next: spec_fn(Z) -> Z,
    budget: nat,
) -> nat
    decreases budget,
{
    if budget == 0 || !inside(z) {
        0
    } else {
        1 + escape_steps(next(z), inside, next, (budget - 1) as nat)
    }
}

/// Follows the orbit of `start` under `step` while it stays `within` the
/// region, for at most `MAX_ITERATIONS` steps, and returns the number of
/// steps taken. `within` is not asked about the value reached by the last
/// permitted step.
pub fn escape_count<Z, W: Fn(&Z) -> bool, S: Fn(Z) -> Z>(
    start: Z,
    within: W,
    step: S,
) -> (count: u8)
    requires
        forall|z: Z| call_requires(within, (&z,)),
        forall|z: Z| call_requires(step, (z,)),
    ensures
        count <= MAX_ITERATIONS,
        is_escape_count(start, within, step, count as nat),
{
    let ghost mut orbit: Seq<Z> = seq![start];
    let mut z = start;
    let mut count: u8 = 0;
    loop
        invariant
            forall|z: Z| call_requires(within, (&z,)),
            forall|z: Z| call_requires(step, (z,)),
            count <= MAX_ITERATIONS,
            is_orbit(start, within, step, orbit, count as nat),
            orbit[count as int] == z,
        ensures
            is_escape_count(start, within, step, count as nat),
        decreases MAX_ITERATIONS - count,
    {
        if count >= MAX_ITERATIONS {
            assert(is_escape_orbit(start, within, step, orbit, count as nat));
            break ;
        }
        let inside = within(&z);
        if !inside {
            assert(is_escape_orbit(start, within, step, orbit, count as nat));
            break ;
        }
        let ghost before = z;
        z = step(z);
        proof {
            let longer = orbit.push(z);
            assert forall|i: int| 0 <= i < count + 1 implies call_ensures(
                within,
                (&#[trigger] longer[i],),
                true,
            ) && call_ensures(step, (longer[i],), longer[i + 1]) by {
                if i < count {
                    assert(longer[i] == orbit[i]);
                    assert(longer[i + 1] == orbit[i + 1]);
                } else {
                    assert(longer[i] == before);
                }
            }
            orbit = longer;
        }
        count += 1;
    }
    count
}

/// An escape count never exceeds the budget it was counted with.
pub proof fn lemma_escape_steps_bounded<Z>(
    z: Z,
    inside: spec_fn(Z) -> bool,
    next: spec_fn(Z) -> Z,
    budget: nat,
)
    ensures
        escape_steps(z, inside, next, budget) <= budget,
    decreases budget,
{
    if budget != 0 && inside(z) {
        lemma_escape_steps_bounded(next(z), inside, next, (budget - 1) as nat);
    }
}

/// From position `k` of an orbit that stays inside for `count` steps, the
/// definition counts the steps that are left.
proof fn lemma_orbit_tail<Z>(
    orbit: Seq<Z>,
    inside: spec_fn(Z) -> bool,
    next: spec_fn(Z) -> Z,
    k: nat,
    count: nat,
    budget: nat,
)
    requires
        k <= count,
        orbit.len() == count + 1,
        forall|i: int|
            0 <= i < count ==> inside(#[trigger] orbit[i]) && orbit[i + 1] == next(orbit[i]),
        count - k <= budget,
        count - k < budget ==> !inside(orbit[count as int]),
    ensures
        escape_steps(orbit[k as int], inside, next, budget) == count - k,
    decreases count - k,
{
    if k < count {
        assert(inside(orbit[k as int]) && orbit[k as int + 1] == next(orbit[k as int]));
        lemma_orbit_tail(orbit, inside, next, k + 1, count, (budget - 1) as nat);
    }
}

/// Where the two operations are functions, `within` deciding `inside` and
/// `step` computing `next`, the count that `escape_count` returns is the
/// escape count by definition.
pub proof fn lemma_escape_count_determined<Z, W: Fn(&Z) -> bool, S: Fn(Z) -> Z>(
    start: Z,
    within: W,
    step: S,
    inside: spec_fn(Z) -> bool,
    next: spec_fn(Z) -> Z,
    count: nat,
)
    requires
        is_escape_count(start, within, step, count),
        forall|z: Z, b: bool| #[trigger] call_ensures(within, (&z,), b) ==> b == inside(z),
        forall|z: Z, t: Z| #[trigger] call_ensures(step, (z,), t) ==> t == next(z),
    ensures
        count == escape_steps(start, inside, next, MAX_ITERATIONS as nat),
{
    let orbit = choose|orbit: Seq<Z>| #[trigger]
        is_escape_orbit(start, within, step, orbit, count);
    assert forall|i: int| 0 <= i < count implies inside(#[trigger] orbit[i]) && orbit[i + 1]
        == next(orbit[i]) by {
        assert(call_ensures(within, (&orbit[i],), true));
        assert(call_ensures(step, (orbit[i],), orbit[i + 1]));
    }
    lemma_orbit_tail(orbit, inside, next, 0, count, MAX_ITERATIONS as nat);
}

} // verus!
