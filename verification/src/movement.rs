//! Outbound trajectory synthesis and path reconstruction.
//!
//! The routines here fix which value is combined with which, and in what
//! order; the arithmetic itself is supplied by the caller, so the same code
//! serves any numeric carrier.

use vstd::prelude::*;

verus! {

/// Kinematic state of the agent at one tick. `V` carries the velocity, a
/// vector in the plane; `H` the heading, an angle inside one full turn.
#[derive(Debug)]
pub struct PhysicalState<V, H> {
    pub velocity: V,
    pub heading: H,
}

impl<V: Copy, H: Copy> Clone for PhysicalState<V, H> {
    fn clone(&self) -> (copy: Self)
        ensures
            copy == *self,
    {
        *self
    }
}

impl<V: Copy, H: Copy> Copy for PhysicalState<V, H> {

}

/// Number of steps between two speed key frames.
pub const KEYFRAME_INTERVAL: usize = 50;

/// Number of key values a speed profile of `steps` steps consumes: none for a
/// constant profile; otherwise one before the first step and one more at every
/// step that starts an interval.
pub open spec fn acceleration_keys(steps: int, vary_speed: bool) -> int {
    if !vary_speed {
        0
    } else if steps <= 0 {
        1
    } else {
        2 + (steps - 1) / (KEYFRAME_INTERVAL as int)
    }
}

/// Number of steps below `steps` that start an interval.
pub open spec fn interval_starts(steps: int) -> int
    decreases steps,
{
    if steps <= 0 {
        0
    } else {
        interval_starts(steps - 1) + if (steps - 1) % (KEYFRAME_INTERVAL as int) == 0 {
            1int
        } else {
            0int
        }
    }
}

/// A varying profile draws once up front and once per interval start.
pub proof fn lemma_acceleration_keys_counts_interval_starts(steps: int)
    requires
        steps >= 0,
    ensures
        acceleration_keys(steps, true) == 1 + interval_starts(steps),
    decreases steps,
{
    if steps > 0 {
        lemma_acceleration_keys_counts_interval_starts(steps - 1);
    }
}

/// Every step of a varying profile finds both of its key values among the
/// keys drawn.
pub proof fn lemma_acceleration_keys_cover(steps: int, i: int)
    requires
        0 <= i < steps,
    ensures
        0 <= i / (KEYFRAME_INTERVAL as int),
        i / (KEYFRAME_INTERVAL as int) + 1 < acceleration_keys(steps, true),
        0 <= i % (KEYFRAME_INTERVAL as int) < KEYFRAME_INTERVAL,
{
}

/// Number of key values that `generate_accelerations` reads.
pub fn acceleration_key_count(steps: usize, vary_speed: bool) -> (n: usize)
    ensures
        n == acceleration_keys(steps as int, vary_speed),
{
    if !vary_speed {
        0
    } else if steps == 0 {
        1
    } else {
        2 + (steps - 1) / KEYFRAME_INTERVAL
    }
}

/// The acceleration applied at each outbound step.
///
/// A constant profile repeats `acceleration`. A varying profile interpolates
/// between consecutive key values, one interval apart: step `i` lies `i % 50`
/// fiftieths of the way from key `i / 50` to key `i / 50 + 1`. `lerp(a, b, k)`
/// is asked for the value `k` fiftieths of the way from `a` to `b`. Keys
/// beyond the `acceleration_keys` first ones are not read.
pub fn generate_accelerations<T: Copy, L: Fn(T, T, usize) -> T>(
    steps: usize,
    acceleration: T,
    vary_speed: bool,
    keys: &Vec<T>,
    lerp: L,
) -> (out: Vec<T>)
    requires
        keys@.len() >= acceleration_keys(steps as int, vary_speed),
        forall|a: T, b: T, k: usize| k < KEYFRAME_INTERVAL ==> lerp.requires((a, b, k)),
    ensures
        out@.len() == steps,
        !vary_speed ==> forall|i: int| 0 <= i < steps ==> out@[i] == acceleration,
        vary_speed ==> forall|i: int|
            0 <= i < steps ==> lerp.ensures(
                (
                    keys@[i / (KEYFRAME_INTERVAL as int)],
                    keys@[i / (KEYFRAME_INTERVAL as int) + 1],
                    (i % (KEYFRAME_INTERVAL as int)) as usize,
                ),
                #[trigger] out@[i],
            ),
{
    let mut out: Vec<T> = Vec::new();
    let mut i: usize = 0;
    while i < steps
        invariant
            i <= steps,
            out@.len() == i,
            keys@.len() >= acceleration_keys(steps as int, vary_speed),
            forall|a: T, b: T, k: usize| k < KEYFRAME_INTERVAL ==> lerp.requires((a, b, k)),
            !vary_speed ==> forall|j: int| 0 <= j < i ==> out@[j] == acceleration,
            vary_speed ==> forall|j: int|
                0 <= j < i ==> lerp.ensures(
                    (
                        keys@[j / (KEYFRAME_INTERVAL as int)],
                        keys@[j / (KEYFRAME_INTERVAL as int) + 1],
                        (j % (KEYFRAME_INTERVAL as int)) as usize,
                    ),
                    #[trigger] out@[j],
                ),
        decreases steps - i,
    {
        if vary_speed {
            let segment: usize = i / KEYFRAME_INTERVAL;
            let offset: usize = i % KEYFRAME_INTERVAL;
            proof {
                lemma_acceleration_keys_cover(steps as int, i as int);
            }
            let value = lerp(keys[segment], keys[segment + 1], offset);
            out.push(value);
        } else {
            out.push(acceleration);
        }
        i = i + 1;
    }
    out
}

/// `states` is the trajectory from `start`: state `i` is an outcome of the
/// kinematic step on the state before it (on `start` for the first), under
/// rotation `i` and acceleration `i`.
pub open spec fn is_outbound<P, T, K: Fn(P, T, T) -> P>(
    start: P,
    rotations: Seq<T>,
    accelerations: Seq<T>,
    next: K,
    states: Seq<P>,
) -> bool {
    &&& states.len() == rotations.len()
    &&& forall|i: int|
        0 <= i < states.len() ==> next.ensures(
            (
                if i == 0 {
                    start
                } else {
                    states[i - 1]
                },
                rotations[i],
                accelerations[i],
            ),
            #[trigger] states[i],
        )
}

/// Whatever holds of every outcome of the kinematic step, such as a heading
/// inside one full turn, holds of every state of an outbound trajectory.
pub proof fn lemma_outbound_states_are_step_outcomes<P, T, K: Fn(P, T, T) -> P>(
    start: P,
    rotations: Seq<T>,
    accelerations: Seq<T>,
    next: K,
    states: Seq<P>,
    property: spec_fn(P) -> bool,
)
    requires
        is_outbound(start, rotations, accelerations, next, states),
        forall|p: P, r: T, a: T, out: P| next.ensures((p, r, a), out) ==> property(out),
    ensures
        forall|i: int| 0 <= i < states.len() ==> property(#[trigger] states[i]),
{
}

/// The outbound trajectory: the states reached from `start` by applying the
/// kinematic step once per entry of `rotations`, with the acceleration of the
/// same index. The start itself is not part of the trajectory.
pub fn generate_outbound<P: Copy, T: Copy, K: Fn(P, T, T) -> P>(
    start: P,
    rotations: &Vec<T>,
    accelerations: &Vec<T>,
    next: K,
) -> (states: Vec<P>)
    requires
        rotations@.len() == accelerations@.len(),
        forall|p: P, r: T, a: T| next.requires((p, r, a)),
    ensures
        is_outbound(start, rotations@, accelerations@, next, states@),
{
    let mut states: Vec<P> = Vec::new();
    let mut state: P = start;
    let mut i: usize = 0;
    while i < rotations.len()
        invariant
            i <= rotations@.len(),
            rotations@.len() == accelerations@.len(),
            states@.len() == i,
            state == (if i == 0 {
                start
            } else {
                states@[i - 1]
            }),
            forall|p: P, r: T, a: T| next.requires((p, r, a)),
            forall|j: int|
                0 <= j < i ==> next.ensures(
                    (
                        if j == 0 {
                            start
                        } else {
                            states@[j - 1]
                        },
                        rotations@[j],
                        accelerations@[j],
                    ),
                    #[trigger] states@[j],
                ),
        decreases rotations@.len() - i,
    {
        state = next(state, rotations[i], accelerations[i]);
        states.push(state);
        i = i + 1;
    }
    states
}

/// The positions visited along a trajectory: the running sum of the states'
/// velocities, starting at `origin`. Position `i + 1` is `plus` of position
/// `i` and the velocity of state `i`.
pub fn reconstruct_path<V: Copy, H, F: Fn(V, V) -> V>(
    states: &Vec<PhysicalState<V, H>>,
    origin: V,
    plus: F,
) -> (path: Vec<V>)
    requires
        forall|p: V, v: V| plus.requires((p, v)),
    ensures
        path@.len() == states@.len() + 1,
        path@[0] == origin,
        forall|i: int|
            0 <= i < states@.len() ==> plus.ensures(
                (path@[i], (#[trigger] states@[i]).velocity),
                path@[i + 1],
            ),
{
    let mut path: Vec<V> = Vec::new();
    let mut position: V = origin;
    path.push(position);
    let mut i: usize = 0;
    while i < states.len()
        invariant
            i <= states@.len(),
            path@.len() == i + 1,
            path@[0] == origin,
            position == path@[i as int],
            forall|p: V, v: V| plus.requires((p, v)),
            forall|j: int|
                0 <= j < i ==> plus.ensures(
                    (path@[j], (#[trigger] states@[j]).velocity),
                    path@[j + 1],
                ),
        decreases states@.len() - i,
    {
        position = plus(position, states[i].velocity);
        path.push(position);
        i = i + 1;
    }
    path
}

} // verus!
