//! Working-memory variants: a leaky accumulator held in the memory layer, and
//! plastic synaptic weights that are integrated once per tick.

use crate::layout::{diagonal, entry_index, lemma_entry_index, lemma_offset_is_entry};
use vstd::prelude::*;

verus! {

/// Whether a plastic weight is forced back into its range after every step.
#[derive(Clone, Copy, Debug, PartialEq, Eq, Structural)]
pub enum ClampPolicy {
    /// Every stepped weight is clamped.
    Clamped,
    /// Stepped weights are kept as they come; stability is left to the law.
    Unclamped,
}

/// What one tick does to a single synapse. An absent synapse keeps its
/// weight. A present one, of connectivity `c`, is integrated by one step: the
/// law gives the rate of change for the old weight and the presynaptic rate,
/// `integrate` adds that change, scaled by `c`, to the old weight, and the
/// result is passed through `clamp` where the policy says so.
pub open spec fn synapse_stepped<T, D: Fn(T, T) -> T, E: Fn(T, T, T) -> T, C: Fn(T) -> T>(
    policy: ClampPolicy,
    law: D,
    integrate: E,
    clamp: C,
    connectivity: Option<T>,
    rate: T,
    before: T,
    after: T,
) -> bool {
    match connectivity {
        Some(c) => exists|change: T, raw: T|
            {
                &&& law.ensures((before, rate), change)
                &&& #[trigger] integrate.ensures((before, c, change), raw)
                &&& match policy {
                    ClampPolicy::Clamped => clamp.ensures((raw,), after),
                    ClampPolicy::Unclamped => after == raw,
                }
            },
        None => after == before,
    }
}

/// The initial weight of a single synapse: an absent synapse rests at `rest`;
/// a present one, of connectivity `c`, takes a weight that `scale` yields for
/// the requested initial weight and `c`.
pub open spec fn synapse_seeded<T, G: Fn(T, T) -> T>(
    scale: G,
    connectivity: Option<T>,
    initial: T,
    rest: T,
    weight: T,
) -> bool {
    match connectivity {
        Some(c) => scale.ensures((initial, c), weight),
        None => weight == rest,
    }
}

/// Plastic weights from a population of `from` units onto one of `to` units.
///
/// `connectivity` says which synapses exist and how strongly they are wired;
/// it never changes. `weights` holds the current strength of every synapse,
/// in column-major order.
pub struct DynamicWeights<T> {
    /// Size of the postsynaptic population: the number of rows.
    pub to: usize,
    /// Size of the presynaptic population: the number of columns.
    pub from: usize,
    /// The connectivity mask: `None` where no synapse exists.
    pub connectivity: Vec<Option<T>>,
    /// Current synaptic strengths.
    pub weights: Vec<T>,
    /// The weight of an absent synapse.
    pub rest: T,
    /// Whether stepped weights are clamped.
    pub policy: ClampPolicy,
}

/// What one tick does to plastic weights: shape, mask, rest value and policy
/// stay, and the synapse from presynaptic unit `col` onto postsynaptic unit
/// `row` is stepped with the rate `input[col]`.
pub open spec fn ticked<T, D: Fn(T, T) -> T, E: Fn(T, T, T) -> T, C: Fn(T) -> T>(
    before: DynamicWeights<T>,
    after: DynamicWeights<T>,
    input: Seq<T>,
    law: D,
    integrate: E,
    clamp: C,
) -> bool {
    &&& after.to == before.to
    &&& after.from == before.from
    &&& after.rest == before.rest
    &&& after.policy == before.policy
    &&& after.connectivity@ == before.connectivity@
    &&& after.weights@.len() == before.weights@.len()
    &&& forall|row: int, col: int|
        0 <= row < before.to && 0 <= col < before.from ==> synapse_stepped(
            before.policy,
            law,
            integrate,
            clamp,
            before.connectivity@[#[trigger] entry_index(row, col, before.to as int)],
            input[col],
            before.weights@[entry_index(row, col, before.to as int)],
            after.weights@[entry_index(row, col, before.to as int)],
        )
}

impl<T: Copy> DynamicWeights<T> {
    /// Every synapse that exists has a weight inside `range`.
    pub open spec fn weights_within(&self, range: spec_fn(T) -> bool) -> bool {
        forall|k: int|
            0 <= k < self.weights@.len() && self.connectivity@[k] is Some ==> range(
                #[trigger] self.weights@[k],
            )
    }

    /// Mask and weights have the declared shape, and every absent synapse is
    /// at rest.
    pub open spec fn wf(&self) -> bool {
        &&& self.connectivity@.len() == self.to * self.from
        &&& self.weights@.len() == self.to * self.from
        &&& forall|k: int|
            0 <= k < self.weights@.len() && self.connectivity@[k] is None
                ==> #[trigger] self.weights@[k] == self.rest
    }

    /// Weights for the given mask. A present synapse starts at `scale` of its
    /// entry of `initial` and its connectivity; an absent one at `rest`.
    pub fn new<G: Fn(T, T) -> T>(
        to: usize,
        from: usize,
        connectivity: Vec<Option<T>>,
        initial: &Vec<T>,
        rest: T,
        policy: ClampPolicy,
        scale: G,
    ) -> (made: Self)
        requires
            connectivity@.len() == to * from,
            initial@.len() == to * from,
            forall|w: T, c: T| scale.requires((w, c)),
        ensures
            made.wf(),
            made.to == to,
            made.from == from,
            made.rest == rest,
            made.policy == policy,
            made.connectivity@ == connectivity@,
            forall|k: int|
                0 <= k < to * from ==> synapse_seeded(
                    scale,
                    connectivity@[k],
                    initial@[k],
                    rest,
                    #[trigger] made.weights@[k],
                ),
    {
        let mut weights: Vec<T> = Vec::new();
        let mut k: usize = 0;
        while k < initial.len()
            invariant
                k <= initial@.len(),
                connectivity@.len() == initial@.len(),
                weights@.len() == k,
                forall|w: T, c: T| scale.requires((w, c)),
                forall|m: int|
                    0 <= m < k ==> synapse_seeded(
                        scale,
                        connectivity@[m],
                        initial@[m],
                        rest,
                        #[trigger] weights@[m],
                    ),
            decreases initial@.len() - k,
        {
            let weight: T = match connectivity[k] {
                Some(c) => scale(initial[k], c),
                None => rest,
            };
            weights.push(weight);
            k = k + 1;
        }
        DynamicWeights { to, from, connectivity, weights, rest, policy }
    }

    /// Integrate every synapse by one tick. The synapse from presynaptic unit
    /// `col` onto postsynaptic unit `row` sees the rate `input[col]`:
    /// `law(weight, rate)` is its rate of change, `integrate(weight,
    /// connectivity, change)` the stepped weight, which is clamped where the
    /// policy says so. Absent synapses are left alone.
    pub fn update<D: Fn(T, T) -> T, E: Fn(T, T, T) -> T, C: Fn(T) -> T>(
        &mut self,
        input: &Vec<T>,
        law: D,
        integrate: E,
        clamp: C,
    )
        requires
            old(self).wf(),
            input@.len() == old(self).from,
            forall|w: T, r: T| law.requires((w, r)),
            forall|w: T, c: T, d: T| integrate.requires((w, c, d)),
            forall|w: T| clamp.requires((w,)),
        ensures
            final(self).wf(),
            ticked(*old(self), *final(self), input@, law, integrate, clamp),
    {
        let ghost before = self.weights@;
        let count: usize = self.weights.len();
        let mut k: usize = 0;
        while k < count
            invariant
                k <= count,
                count == self.to * self.from,
                self.to == old(self).to,
                self.from == old(self).from,
                self.rest == old(self).rest,
                self.policy == old(self).policy,
                self.connectivity@ == old(self).connectivity@,
                self.connectivity@.len() == count,
                self.weights@.len() == count,
                before == old(self).weights@,
                before.len() == count,
                old(self).wf(),
                input@.len() == self.from,
                forall|w: T, r: T| law.requires((w, r)),
                forall|w: T, c: T, d: T| integrate.requires((w, c, d)),
                forall|w: T| clamp.requires((w,)),
                forall|m: int| k <= m < count ==> #[trigger] self.weights@[m] == before[m],
                forall|m: int|
                    0 <= m < k ==> synapse_stepped(
                        self.policy,
                        law,
                        integrate,
                        clamp,
                        self.connectivity@[m],
                        input@[m / (self.to as int)],
                        before[m],
                        #[trigger] self.weights@[m],
                    ),
            decreases count - k,
        {
            proof {
                assert(self.to > 0) by (nonlinear_arith)
                    requires
                        k < self.to * self.from,
                ;
                lemma_offset_is_entry(k as int, self.to as int, self.from as int);
            }
            match self.connectivity[k] {
                Some(c) => {
                    let col: usize = k / self.to;
                    let weight: T = self.weights[k];
                    let change: T = law(weight, input[col]);
                    let raw: T = integrate(weight, c, change);
                    let stepped: T = match self.policy {
                        ClampPolicy::Clamped => clamp(raw),
                        ClampPolicy::Unclamped => raw,
                    };
                    self.weights.set(k, stepped);
                },
                None => {},
            }
            k = k + 1;
        }
        proof {
            assert forall|row: int, col: int|
                0 <= row < old(self).to && 0 <= col < old(self).from implies synapse_stepped(
                old(self).policy,
                law,
                integrate,
                clamp,
                old(self).connectivity@[#[trigger] entry_index(row, col, old(self).to as int)],
                input@[col],
                old(self).weights@[entry_index(row, col, old(self).to as int)],
                self.weights@[entry_index(row, col, old(self).to as int)],
            ) by {
                lemma_entry_index(row, col, self.to as int, self.from as int);
            }
            assert forall|m: int|
                0 <= m < self.weights@.len() && self.connectivity@[m] is None implies #[trigger] self.weights@[m]
                == self.rest by {
                assert(before[m] == self.rest);
            }
        }
    }

    /// The current weight matrix, in column-major order.
    pub fn matrix(&self) -> (m: &Vec<T>)
        ensures
            m@ == self.weights@,
    {
        &self.weights
    }
}

/// Plastic weights stay where they belong, tick after tick. Every synapse
/// that does not exist stays exactly at rest. Under the clamping policy,
/// every synapse that exists has, once stepped, a weight inside any range
/// that all outcomes of the clamp lie in.
pub proof fn lemma_tick_keeps_weights_in_place<T: Copy, D: Fn(T, T) -> T, E: Fn(T, T, T) -> T, C: Fn(T) -> T>(
    before: DynamicWeights<T>,
    after: DynamicWeights<T>,
    input: Seq<T>,
    law: D,
    integrate: E,
    clamp: C,
    range: spec_fn(T) -> bool,
)
    requires
        before.wf(),
        ticked(before, after, input, law, integrate, clamp),
        forall|raw: T, out: T| clamp.ensures((raw,), out) ==> range(out),
    ensures
        after.wf(),
        forall|k: int|
            0 <= k < after.weights@.len() && after.connectivity@[k] is None
                ==> #[trigger] after.weights@[k] == before.rest,
        before.policy == ClampPolicy::Clamped ==> after.weights_within(range),
{
    assert forall|k: int| 0 <= k < after.weights@.len() implies (match after.connectivity@[k] {
        Some(_) => before.policy == ClampPolicy::Clamped ==> range(#[trigger] after.weights@[k]),
        None => after.weights@[k] == before.rest,
    }) by {
        assert(before.to > 0) by (nonlinear_arith)
            requires
                0 <= k < before.to * before.from,
        ;
        lemma_offset_is_entry(k, before.to as int, before.from as int);
        let row = k % (before.to as int);
        let col = k / (before.to as int);
        assert(entry_index(row, col, before.to as int) == k);
        assert(before.weights@[k] == before.rest || before.connectivity@[k] is Some);
    }
}

/// The leaky accumulator of the reference model: a memory vector that every
/// tick folds the memory layer's input into.
pub struct AbstractCpu4<T> {
    /// The accumulated memory, one entry per memory unit.
    pub memory: Vec<T>,
}

impl<T: Copy> AbstractCpu4<T> {
    /// A memory of `size` units, each at `initial`.
    pub fn new(size: usize, initial: T) -> (layer: Self)
        ensures
            layer.memory@.len() == size,
            forall|i: int| 0 <= i < size ==> #[trigger] layer.memory@[i] == initial,
    {
        let mut memory: Vec<T> = Vec::new();
        let mut i: usize = 0;
        while i < size
            invariant
                i <= size,
                memory@.len() == i,
                forall|j: int| 0 <= j < i ==> #[trigger] memory@[j] == initial,
            decreases size - i,
        {
            memory.push(initial);
            i = i + 1;
        }
        AbstractCpu4 { memory }
    }

    /// Fold one tick's input into the memory: unit `i` becomes `integrate` of
    /// its old value and entry `i` of the input.
    pub fn accumulate<F: Fn(T, T) -> T>(&mut self, input: &Vec<T>, integrate: F)
        requires
            input@.len() == old(self).memory@.len(),
            forall|m: T, x: T| integrate.requires((m, x)),
        ensures
            final(self).memory@.len() == old(self).memory@.len(),
            forall|i: int|
                0 <= i < input@.len() ==> integrate.ensures(
                    (old(self).memory@[i], input@[i]),
                    #[trigger] final(self).memory@[i],
                ),
    {
        let ghost before = self.memory@;
        let mut i: usize = 0;
        while i < input.len()
            invariant
                i <= input@.len(),
                before == old(self).memory@,
                self.memory@.len() == before.len(),
                input@.len() == before.len(),
                forall|m: T, x: T| integrate.requires((m, x)),
                forall|j: int| i <= j < before.len() ==> #[trigger] self.memory@[j] == before[j],
                forall|j: int|
                    0 <= j < i ==> integrate.ensures(
                        (before[j], input@[j]),
                        #[trigger] self.memory@[j],
                    ),
            decreases input@.len() - i,
        {
            let folded: T = integrate(self.memory[i], input[i]);
            self.memory.set(i, folded);
            i = i + 1;
        }
    }
}

/// Records the memory of the reference model: the accumulator itself.
pub struct AbstractMemoryRecorder;

impl AbstractMemoryRecorder {
    /// A copy of the accumulated memory.
    pub fn record<T: Copy>(layer: &AbstractCpu4<T>) -> (snapshot: Vec<T>)
        ensures
            snapshot@ == layer.memory@,
    {
        let mut snapshot: Vec<T> = Vec::new();
        let mut i: usize = 0;
        while i < layer.memory.len()
            invariant
                i <= layer.memory@.len(),
                snapshot@ == layer.memory@.subrange(0, i as int),
            decreases layer.memory@.len() - i,
        {
            snapshot.push(layer.memory[i]);
            proof {
                assert(snapshot@ =~= layer.memory@.subrange(0, i + 1));
            }
            i = i + 1;
        }
        proof {
            assert(snapshot@ =~= layer.memory@);
        }
        snapshot
    }
}

/// Records the memory of the plastic-weight models: the strength of the
/// synapse from every memory unit onto its own relay unit.
pub struct PontineWeightMemoryRecorder;

impl PontineWeightMemoryRecorder {
    /// The diagonal of a square plastic weight matrix.
    pub fn record<T: Copy>(weights: &DynamicWeights<T>) -> (snapshot: Vec<T>)
        requires
            weights.wf(),
            weights.to == weights.from,
        ensures
            snapshot@.len() == weights.to,
            forall|i: int|
                0 <= i < weights.to ==> #[trigger] snapshot@[i] == weights.weights@[entry_index(
                    i,
                    i,
                    weights.to as int,
                )],
    {
        diagonal(&weights.weights, weights.to)
    }
}

} // verus!
