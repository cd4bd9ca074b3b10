use vstd::prelude::*;

verus! {

/// What the orbit of one point did within the iteration cap.
#[derive(Clone, Copy, Debug, PartialEq, Eq, Structural)]
pub enum EscapeResult {
    /// The orbit stayed in the disc for as many steps as the cap allows.
    Bounded,
    /// The orbit left the disc; the index says at which step, and is below
    /// the cap.
    Escaped(usize),
}

impl EscapeResult {
    /// The result that a count of `iterations` steps stands for under `cap`:
    /// a count that reached the cap is `Bounded`, a smaller one is the escape
    /// index.
    pub open spec fn spec_from_count(iterations: usize, cap: usize) -> EscapeResult {
        if iterations >= cap {
            EscapeResult::Bounded
        } else {
            EscapeResult::Escaped(iterations)
        }
    }

    /// Reads a count of steps under `cap`. With a cap of zero every count is
    /// `Bounded`.
    pub fn from_count(iterations: usize, cap: usize) -> (r: EscapeResult)
        ensures
            r == Self::spec_from_count(iterations, cap),
            r.spec_capped(cap) == r,
    {
        if iterations >= cap {
            EscapeResult::Bounded
        } else {
            EscapeResult::Escaped(iterations)
        }
    }

    /// The result as it counts under `cap`: an escape index that is not below
    /// the cap is no escape under that cap.
    pub open spec fn spec_capped(self, cap: usize) -> EscapeResult {
        match self {
            EscapeResult::Bounded => EscapeResult::Bounded,
            EscapeResult::Escaped(k) => Self::spec_from_count(k, cap),
        }
    }

    /// Brings a result under `cap`.
    pub fn capped(self, cap: usize) -> (r: EscapeResult)
        ensures
            r == self.spec_capped(cap),
    {
        match self {
            EscapeResult::Bounded => EscapeResult::Bounded,
            EscapeResult::Escaped(k) => Self::from_count(k, cap),
        }
    }
}

/// `orbit` is a run of the recurrence from `start`: it begins there, and each
/// later state is one that `step` may give for the state before it.
pub open spec fn is_orbit<Z, S: Fn(Z) -> Z>(orbit: Seq<Z>, start: Z, step: S) -> bool {
    &&& orbit.len() > 0 ==> orbit[0] == start
    &&& forall|n: int|
        0 < n < orbit.len() ==> call_ensures(step, (orbit[n - 1],), #[trigger] orbit[n])
}

/// Every state of `orbit` may be judged to lie within the disc.
pub open spec fn stays_inside<Z, O: Fn(Z) -> bool>(orbit: Seq<Z>, outside: O) -> bool {
    forall|n: int| 0 <= n < orbit.len() ==> call_ensures(outside, (#[trigger] orbit[n],), false)
}

/// `orbit` shows that `result` is right for `start` under `cap`. For an
/// escape at step `k` it is the run z_0 .. z_k, whose last state is outside
/// the disc and is the first to be so. For a bounded point it is the run
/// z_0 .. z_(cap-1), all within the disc.
pub open spec fn escape_witness<Z, S: Fn(Z) -> Z, O: Fn(Z) -> bool>(
    orbit: Seq<Z>,
    result: EscapeResult,
    start: Z,
    cap: usize,
    step: S,
    outside: O,
) -> bool {
    &&& is_orbit(orbit, start, step)
    &&& match result {
        EscapeResult::Escaped(k) => {
            &&& k < cap
            &&& orbit.len() == k + 1
            &&& stays_inside(orbit.drop_last(), outside)
            &&& call_ensures(outside, (orbit.last(),), true)
        },
        EscapeResult::Bounded => {
            &&& orbit.len() == cap
            &&& stays_inside(orbit, outside)
        },
    }
}

/// `result` is the escape time of `start` under `cap`: `Escaped(k)` for the
/// smallest `k` below the cap at which the orbit z_0 = start, z_(n+1) =
/// step(z_n) is outside the disc, `Bounded` if there is no such `k`.
pub open spec fn is_escape_time<Z, S: Fn(Z) -> Z, O: Fn(Z) -> bool>(
    result: EscapeResult,
    start: Z,
    cap: usize,
    step: S,
    outside: O,
) -> bool {
    exists|orbit: Seq<Z>| escape_witness(orbit, result, start, cap, step, outside)
}

/// Runs the recurrence from `start` until a state is judged outside the disc
/// or `cap` states have been judged, whichever comes first. Each state is
/// judged before the step from it is taken, so under a cap of zero nothing is
/// judged and no step is taken. The number type, the step and the judgement
/// are the caller's; the walk ends after at most `cap` steps whatever they
/// answer.
pub fn escape_time<Z: Copy, S: Fn(Z) -> Z, O: Fn(Z) -> bool>(
    start: Z,
    cap: usize,
    step: S,
    outside: O,
) -> (r: EscapeResult)
    requires
        forall|z: Z| cap > 0 ==> call_requires(outside, (z,)),
        forall|z: Z| cap > 0 ==> call_requires(step, (z,)),
    ensures
        is_escape_time(r, start, cap, step, outside),
        r.spec_capped(cap) == r,
        cap == 0 ==> r == EscapeResult::Bounded,
{
    let mut z = start;
    let mut steps: usize = 0;
    let ghost mut before: Seq<Z> = Seq::empty();
    while steps < cap
        invariant
            steps <= cap,
            before.len() == steps,
            is_orbit(before.push(z), start, step),
            stays_inside(before, outside),
            forall|z: Z| cap > 0 ==> call_requires(outside, (z,)),
            forall|z: Z| cap > 0 ==> call_requires(step, (z,)),
        decreases cap - steps,
    {
        let ghost orbit = before.push(z);
        if outside(z) {
            assert(escape_witness(
                orbit,
                EscapeResult::Escaped(steps),
                start,
                cap,
                step,
                outside,
            ));
            return EscapeResult::Escaped(steps);
        }
        let next = step(z);
        proof {
            assert forall|n: int| 0 < n < orbit.push(next).len() implies call_ensures(
                step,
                (orbit.push(next)[n - 1],),
                #[trigger] orbit.push(next)[n],
            ) by {}
            before = orbit;
        }
        z = next;
        steps += 1;
    }
    proof {
        assert forall|n: int| 0 < n < before.len() implies call_ensures(
            step,
            (before[n - 1],),
            #[trigger] before[n],
        ) by {
            assert(before.push(z)[n] == before[n]);
        }
        assert(escape_witness(before, EscapeResult::Bounded, start, cap, step, outside));
    }
    EscapeResult::Bounded
}

/// The step gives one state for each state.
pub open spec fn step_is_a_function<Z, S: Fn(Z) -> Z>(step: S) -> bool {
    forall|z: Z, a: Z, b: Z|
        #[trigger] call_ensures(step, (z,), a) && #[trigger] call_ensures(step, (z,), b) ==> a
            == b
}

/// The judgement gives one answer for each state.
pub open spec fn judgement_is_a_function<Z, O: Fn(Z) -> bool>(outside: O) -> bool {
    forall|z: Z|
        !(#[trigger] call_ensures(outside, (z,), true) && #[trigger] call_ensures(
            outside,
            (z,),
            false,
        ))
}

/// Two runs of one recurrence from one start agree as far as both go.
pub proof fn orbits_agree<Z, S: Fn(Z) -> Z>(
    first: Seq<Z>,
    second: Seq<Z>,
    start: Z,
    step: S,
    n: int,
)
    requires
        step_is_a_function(step),
        is_orbit(first, start, step),
        is_orbit(second, start, step),
        0 <= n < first.len(),
        n < second.len(),
    ensures
        first[n] == second[n],
    decreases n,
{
    if n > 0 {
        orbits_agree(first, second, start, step, n - 1);
    }
}

/// The escape index does not depend on the cap: if a point escapes at step
/// `k` under one cap, then under every cap above `k` its escape time is
/// again `Escaped(k)`, and nothing else.
pub proof fn escape_is_independent_of_cap<Z, S: Fn(Z) -> Z, O: Fn(Z) -> bool>(
    start: Z,
    step: S,
    outside: O,
    k: usize,
    cap: usize,
    other: usize,
    result: EscapeResult,
)
    requires
        step_is_a_function(step),
        judgement_is_a_function(outside),
        is_escape_time(EscapeResult::Escaped(k), start, cap, step, outside),
        other > k,
        is_escape_time(result, start, other, step, outside),
    ensures
        result == EscapeResult::Escaped(k),
{
    let first = choose|orbit: Seq<Z>|
        escape_witness(orbit, EscapeResult::Escaped(k), start, cap, step, outside);
    let second = choose|orbit: Seq<Z>|
        escape_witness(orbit, result, start, other, step, outside);
    match result {
        EscapeResult::Escaped(j) => {
            if j < k {
                orbits_agree(first, second, start, step, j as int);
                assert(first.drop_last()[j as int] == first[j as int]);
            } else if j > k {
                orbits_agree(first, second, start, step, k as int);
                assert(second.drop_last()[k as int] == second[k as int]);
            }
        },
        EscapeResult::Bounded => {
            orbits_agree(first, second, start, step, k as int);
        },
    }
}

/// The escape time is a function of the point and the cap: with a step and
/// a judgement that each give one answer, no two results are both right.
pub proof fn escape_time_is_deterministic<Z, S: Fn(Z) -> Z, O: Fn(Z) -> bool>(
    start: Z,
    cap: usize,
    step: S,
    outside: O,
    first: EscapeResult,
    second: EscapeResult,
)
    requires
        step_is_a_function(step),
        judgement_is_a_function(outside),
        is_escape_time(first, start, cap, step, outside),
        is_escape_time(second, start, cap, step, outside),
    ensures
        first == second,
{
    match first {
        EscapeResult::Escaped(k) => {
            let orbit = choose|orbit: Seq<Z>|
                escape_witness(orbit, first, start, cap, step, outside);
            escape_is_independent_of_cap(start, step, outside, k, cap, cap, second);
        },
        EscapeResult::Bounded => {
            match second {
                EscapeResult::Escaped(k) => {
                    let orbit = choose|orbit: Seq<Z>|
                        escape_witness(orbit, second, start, cap, step, outside);
                    escape_is_independent_of_cap(start, step, outside, k, cap, cap, first);
                },
                EscapeResult::Bounded => {},
            }
        },
    }
}

} // verus!
