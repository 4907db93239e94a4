//! Topology of the network: its populations, the order in which one tick
//! computes them, what each of them reads, the weight matrices between them,
//! and how many random draws each consumes. The order of draws is part of
//! what makes a seeded run reproducible.

use crate::constants::{
    N_AMP, N_CL1, N_CPU1A, N_CPU1B, N_CPU4, N_MOTOR, N_PONTINE, N_TB1, N_TL2, N_TN1, N_TN2,
};
use crate::network::{is_plastic, LayerKind, WeightsKind};
use vstd::prelude::*;

verus! {

/// The populations of the network, and the motor output.
#[derive(Clone, Copy, Debug, PartialEq, Eq, Structural)]
pub enum Population {
    /// Heading sensors.
    Tl2,
    /// Contralateral inhibition of the heading signal.
    Cl1,
    /// Compass ring attractor.
    Tb1,
    /// Optic-flow speed sensors, first kind.
    Tn1,
    /// Optic-flow speed sensors, second kind.
    Tn2,
    /// Memory.
    Cpu4,
    /// Inhibitory relay.
    Pontine,
    /// Amplification.
    Amp,
    /// Steering, first kind.
    Cpu1a,
    /// Steering, second kind.
    Cpu1b,
    /// Left and right motor channels.
    Motor,
}

/// Number of stages in one tick.
pub const N_STAGES: usize = 11;

impl Population {
    /// Number of units.
    pub open spec fn size_of(self) -> nat {
        match self {
            Population::Tl2 => N_TL2 as nat,
            Population::Cl1 => N_CL1 as nat,
            Population::Tb1 => N_TB1 as nat,
            Population::Tn1 => N_TN1 as nat,
            Population::Tn2 => N_TN2 as nat,
            Population::Cpu4 => N_CPU4 as nat,
            Population::Pontine => N_PONTINE as nat,
            Population::Amp => N_AMP as nat,
            Population::Cpu1a => N_CPU1A as nat,
            Population::Cpu1b => N_CPU1B as nat,
            Population::Motor => N_MOTOR as nat,
        }
    }

    /// Place in the order of one tick: the heading pathway, the ring
    /// attractor, the flow sensors, memory, and the steering pathway down to
    /// the motor output.
    pub open spec fn order_of(self) -> nat {
        match self {
            Population::Tl2 => 0,
            Population::Cl1 => 1,
            Population::Tb1 => 2,
            Population::Tn1 => 3,
            Population::Tn2 => 4,
            Population::Cpu4 => 5,
            Population::Pontine => 6,
            Population::Amp => 7,
            Population::Cpu1a => 8,
            Population::Cpu1b => 9,
            Population::Motor => 10,
        }
    }

    /// Whether computing `self` reads the activity of `source`.
    pub open spec fn reads(self, source: Population) -> bool {
        match self {
            Population::Tl2 => false,
            Population::Cl1 => source == Population::Tl2,
            Population::Tb1 => source == Population::Cl1 || source == Population::Tb1,
            Population::Tn1 => false,
            Population::Tn2 => false,
            Population::Cpu4 => source == Population::Tn2 || source == Population::Tb1,
            Population::Pontine => source == Population::Cpu4,
            Population::Amp => source == Population::Cpu4 || source == Population::Pontine,
            Population::Cpu1a => source == Population::Amp || source == Population::Tb1,
            Population::Cpu1b => source == Population::Amp || source == Population::Tb1,
            Population::Motor => source == Population::Cpu1a || source == Population::Cpu1b,
        }
    }

    /// The populations whose activity computing `self` is handed, in the
    /// order in which it is handed them.
    pub open spec fn sources_of(self) -> (Option<Population>, Option<Population>) {
        match self {
            Population::Tl2 => (None, None),
            Population::Cl1 => (Some(Population::Tl2), None),
            Population::Tb1 => (Some(Population::Cl1), Some(Population::Tb1)),
            Population::Tn1 => (None, None),
            Population::Tn2 => (None, None),
            Population::Cpu4 => (Some(Population::Tn2), Some(Population::Tb1)),
            Population::Pontine => (Some(Population::Cpu4), None),
            Population::Amp => (Some(Population::Cpu4), Some(Population::Pontine)),
            Population::Cpu1a => (Some(Population::Amp), Some(Population::Tb1)),
            Population::Cpu1b => (Some(Population::Amp), Some(Population::Tb1)),
            Population::Motor => (Some(Population::Cpu1a), Some(Population::Cpu1b)),
        }
    }

    /// Number of noise samples that computing `self` draws in one tick: one
    /// per unit where the activation is noisy, none for the relay, for a
    /// passed-through amplification and for the motor output.
    pub open spec fn draws_of(self, amp: LayerKind) -> nat {
        match self {
            Population::Pontine => 0,
            Population::Motor => 0,
            Population::Amp => if amp == LayerKind::Sigmoid {
                self.size_of()
            } else {
                0
            },
            _ => self.size_of(),
        }
    }

    /// Number of units.
    pub fn size(&self) -> (n: usize)
        ensures
            n == self.size_of(),
    {
        match self {
            Population::Tl2 => N_TL2,
            Population::Cl1 => N_CL1,
            Population::Tb1 => N_TB1,
            Population::Tn1 => N_TN1,
            Population::Tn2 => N_TN2,
            Population::Cpu4 => N_CPU4,
            Population::Pontine => N_PONTINE,
            Population::Amp => N_AMP,
            Population::Cpu1a => N_CPU1A,
            Population::Cpu1b => N_CPU1B,
            Population::Motor => N_MOTOR,
        }
    }

    /// Place in the order of one tick.
    pub fn order(&self) -> (k: usize)
        ensures
            k == self.order_of(),
            k < N_STAGES,
    {
        match self {
            Population::Tl2 => 0,
            Population::Cl1 => 1,
            Population::Tb1 => 2,
            Population::Tn1 => 3,
            Population::Tn2 => 4,
            Population::Cpu4 => 5,
            Population::Pontine => 6,
            Population::Amp => 7,
            Population::Cpu1a => 8,
            Population::Cpu1b => 9,
            Population::Motor => 10,
        }
    }

    /// The populations whose activity computing `self` is handed.
    pub fn sources(&self) -> (pair: (Option<Population>, Option<Population>))
        ensures
            pair == self.sources_of(),
    {
        match self {
            Population::Tl2 => (None, None),
            Population::Cl1 => (Some(Population::Tl2), None),
            Population::Tb1 => (Some(Population::Cl1), Some(Population::Tb1)),
            Population::Tn1 => (None, None),
            Population::Tn2 => (None, None),
            Population::Cpu4 => (Some(Population::Tn2), Some(Population::Tb1)),
            Population::Pontine => (Some(Population::Cpu4), None),
            Population::Amp => (Some(Population::Cpu4), Some(Population::Pontine)),
            Population::Cpu1a => (Some(Population::Amp), Some(Population::Tb1)),
            Population::Cpu1b => (Some(Population::Amp), Some(Population::Tb1)),
            Population::Motor => (Some(Population::Cpu1a), Some(Population::Cpu1b)),
        }
    }

    /// Whether computing `self` reads the activity of `source`.
    pub fn reads_from(&self, source: Population) -> (yes: bool)
        ensures
            yes == self.reads(source),
    {
        match self {
            Population::Tl2 => false,
            Population::Cl1 => source == Population::Tl2,
            Population::Tb1 => source == Population::Cl1 || source == Population::Tb1,
            Population::Tn1 => false,
            Population::Tn2 => false,
            Population::Cpu4 => source == Population::Tn2 || source == Population::Tb1,
            Population::Pontine => source == Population::Cpu4,
            Population::Amp => source == Population::Cpu4 || source == Population::Pontine,
            Population::Cpu1a => source == Population::Amp || source == Population::Tb1,
            Population::Cpu1b => source == Population::Amp || source == Population::Tb1,
            Population::Motor => source == Population::Cpu1a || source == Population::Cpu1b,
        }
    }

    /// Number of noise samples drawn for this population in one tick.
    pub fn draws(&self, amp: LayerKind) -> (n: usize)
        ensures
            n == self.draws_of(amp),
    {
        match self {
            Population::Pontine => 0,
            Population::Motor => 0,
            Population::Amp => match amp {
                LayerKind::Sigmoid => N_AMP,
                LayerKind::Passthrough => 0,
            },
            _ => self.size(),
        }
    }
}

/// The population computed at place `k` of a tick.
pub open spec fn stage_at(k: int) -> Population {
    if k <= 0 {
        Population::Tl2
    } else if k == 1 {
        Population::Cl1
    } else if k == 2 {
        Population::Tb1
    } else if k == 3 {
        Population::Tn1
    } else if k == 4 {
        Population::Tn2
    } else if k == 5 {
        Population::Cpu4
    } else if k == 6 {
        Population::Pontine
    } else if k == 7 {
        Population::Amp
    } else if k == 8 {
        Population::Cpu1a
    } else if k == 9 {
        Population::Cpu1b
    } else {
        Population::Motor
    }
}

/// Noise samples drawn in one tick before place `k` is computed.
pub open spec fn draws_before(k: int, amp: LayerKind) -> nat
    decreases k,
{
    if k <= 0 {
        0
    } else {
        draws_before(k - 1, amp) + stage_at(k - 1).draws_of(amp)
    }
}

/// Noise samples drawn in one whole tick.
pub open spec fn draws_per_tick(amp: LayerKind) -> nat {
    draws_before(N_STAGES as int, amp)
}

/// The population computed at place `k` of a tick.
pub fn stage(k: usize) -> (p: Population)
    requires
        k < N_STAGES,
    ensures
        p == stage_at(k as int),
        p.order_of() == k,
{
    if k == 0 {
        Population::Tl2
    } else if k == 1 {
        Population::Cl1
    } else if k == 2 {
        Population::Tb1
    } else if k == 3 {
        Population::Tn1
    } else if k == 4 {
        Population::Tn2
    } else if k == 5 {
        Population::Cpu4
    } else if k == 6 {
        Population::Pontine
    } else if k == 7 {
        Population::Amp
    } else if k == 8 {
        Population::Cpu1a
    } else if k == 9 {
        Population::Cpu1b
    } else {
        Population::Motor
    }
}

/// Noise samples drawn in one whole tick.
pub fn tick_draws(amp: LayerKind) -> (n: usize)
    ensures
        n == draws_per_tick(amp),
{
    proof {
        lemma_draws_per_tick(amp);
    }
    match amp {
        LayerKind::Sigmoid => 92,
        LayerKind::Passthrough => 76,
    }
}

/// Where in the noise stream of one tick the samples of `p` begin.
pub fn draw_offset(p: Population, amp: LayerKind) -> (n: usize)
    ensures
        n == draws_before(p.order_of() as int, amp),
        n + p.draws_of(amp) <= draws_per_tick(amp),
{
    proof {
        lemma_draws_per_tick(amp);
    }
    let mut total: usize = 0;
    let mut k: usize = 0;
    let target: usize = p.order();
    while k < target
        invariant
            k <= target,
            target < N_STAGES,
            total == draws_before(k as int, amp),
            total <= 16 * k,
        decreases target - k,
    {
        let n: usize = stage(k).draws(amp);
        total = total + n;
        k = k + 1;
    }
    proof {
        lemma_draws_monotone(target as int + 1, 11, amp);
        assert(stage_at(target as int) == p);
    }
    total
}

/// The weight matrices of the network, in the order in which a network is
/// built: first the two that lead out of memory, whose behaviour is chosen per
/// model, and after them the fixed ones.
#[derive(Clone, Copy, Debug, PartialEq, Eq, Structural)]
pub enum Projection {
    Cpu4Amp,
    Cpu4Pontine,
    Cl1Tb1,
    Tb1Tb1,
    Tb1Cpu1a,
    Tb1Cpu1b,
    Tb1Cpu4,
    Tn1Cpu4,
    Tn2Cpu4,
    PontineAmp,
    AmpCpu1a,
    AmpCpu1b,
    Cpu1aMotor,
    Cpu1bMotor,
}

/// Number of weight matrices.
pub const N_PROJECTIONS: usize = 14;

/// Number of weight matrices whose behaviour is chosen per model. They come
/// first in the order of construction.
pub const N_SWAPPABLE: usize = 2;

/// Number of weight matrices that every model builds in the same way.
pub const N_FIXED: usize = 12;

impl Projection {
    /// The presynaptic population: one column per unit.
    pub open spec fn source_of(self) -> Population {
        match self {
            Projection::Cpu4Amp => Population::Cpu4,
            Projection::Cpu4Pontine => Population::Cpu4,
            Projection::Cl1Tb1 => Population::Cl1,
            Projection::Tb1Tb1 => Population::Tb1,
            Projection::Tb1Cpu1a => Population::Tb1,
            Projection::Tb1Cpu1b => Population::Tb1,
            Projection::Tb1Cpu4 => Population::Tb1,
            Projection::Tn1Cpu4 => Population::Tn1,
            Projection::Tn2Cpu4 => Population::Tn2,
            Projection::PontineAmp => Population::Pontine,
            Projection::AmpCpu1a => Population::Amp,
            Projection::AmpCpu1b => Population::Amp,
            Projection::Cpu1aMotor => Population::Cpu1a,
            Projection::Cpu1bMotor => Population::Cpu1b,
        }
    }

    /// The postsynaptic population: one row per unit.
    pub open spec fn target_of(self) -> Population {
        match self {
            Projection::Cpu4Amp => Population::Amp,
            Projection::Cpu4Pontine => Population::Pontine,
            Projection::Cl1Tb1 => Population::Tb1,
            Projection::Tb1Tb1 => Population::Tb1,
            Projection::Tb1Cpu1a => Population::Cpu1a,
            Projection::Tb1Cpu1b => Population::Cpu1b,
            Projection::Tb1Cpu4 => Population::Cpu4,
            Projection::Tn1Cpu4 => Population::Cpu4,
            Projection::Tn2Cpu4 => Population::Cpu4,
            Projection::PontineAmp => Population::Amp,
            Projection::AmpCpu1a => Population::Cpu1a,
            Projection::AmpCpu1b => Population::Cpu1b,
            Projection::Cpu1aMotor => Population::Motor,
            Projection::Cpu1bMotor => Population::Motor,
        }
    }

    /// Place in the order of construction.
    pub open spec fn built_at(self) -> nat {
        match self {
            Projection::Cpu4Amp => 0,
            Projection::Cpu4Pontine => 1,
            Projection::Cl1Tb1 => 2,
            Projection::Tb1Tb1 => 3,
            Projection::Tb1Cpu1a => 4,
            Projection::Tb1Cpu1b => 5,
            Projection::Tb1Cpu4 => 6,
            Projection::Tn1Cpu4 => 7,
            Projection::Tn2Cpu4 => 8,
            Projection::PontineAmp => 9,
            Projection::AmpCpu1a => 10,
            Projection::AmpCpu1b => 11,
            Projection::Cpu1aMotor => 12,
            Projection::Cpu1bMotor => 13,
        }
    }

    /// Whether the behaviour of this matrix is chosen per model.
    pub open spec fn is_swappable(self) -> bool {
        self == Projection::Cpu4Amp || self == Projection::Cpu4Pontine
    }

    /// Number of entries: rows times columns.
    pub open spec fn entries_of(self) -> nat {
        self.target_of().size_of() * self.source_of().size_of()
    }

    /// Number of noise samples drawn when this matrix is built: one per entry,
    /// except that plastic weights are not perturbed.
    pub open spec fn draws_of(self, weights: WeightsKind) -> nat {
        if self.is_swappable() && is_plastic(weights) {
            0
        } else {
            self.entries_of()
        }
    }

    /// The presynaptic population.
    pub fn source(&self) -> (p: Population)
        ensures
            p == self.source_of(),
    {
        match self {
            Projection::Cpu4Amp => Population::Cpu4,
            Projection::Cpu4Pontine => Population::Cpu4,
            Projection::Cl1Tb1 => Population::Cl1,
            Projection::Tb1Tb1 => Population::Tb1,
            Projection::Tb1Cpu1a => Population::Tb1,
            Projection::Tb1Cpu1b => Population::Tb1,
            Projection::Tb1Cpu4 => Population::Tb1,
            Projection::Tn1Cpu4 => Population::Tn1,
            Projection::Tn2Cpu4 => Population::Tn2,
            Projection::PontineAmp => Population::Pontine,
            Projection::AmpCpu1a => Population::Amp,
            Projection::AmpCpu1b => Population::Amp,
            Projection::Cpu1aMotor => Population::Cpu1a,
            Projection::Cpu1bMotor => Population::Cpu1b,
        }
    }

    /// The postsynaptic population.
    pub fn target(&self) -> (p: Population)
        ensures
            p == self.target_of(),
    {
        match self {
            Projection::Cpu4Amp => Population::Amp,
            Projection::Cpu4Pontine => Population::Pontine,
            Projection::Cl1Tb1 => Population::Tb1,
            Projection::Tb1Tb1 => Population::Tb1,
            Projection::Tb1Cpu1a => Population::Cpu1a,
            Projection::Tb1Cpu1b => Population::Cpu1b,
            Projection::Tb1Cpu4 => Population::Cpu4,
            Projection::Tn1Cpu4 => Population::Cpu4,
            Projection::Tn2Cpu4 => Population::Cpu4,
            Projection::PontineAmp => Population::Amp,
            Projection::AmpCpu1a => Population::Cpu1a,
            Projection::AmpCpu1b => Population::Cpu1b,
            Projection::Cpu1aMotor => Population::Motor,
            Projection::Cpu1bMotor => Population::Motor,
        }
    }

    /// Place in the order of construction.
    pub fn place(&self) -> (k: usize)
        ensures
            k == self.built_at(),
            k < N_PROJECTIONS,
    {
        match self {
            Projection::Cpu4Amp => 0,
            Projection::Cpu4Pontine => 1,
            Projection::Cl1Tb1 => 2,
            Projection::Tb1Tb1 => 3,
            Projection::Tb1Cpu1a => 4,
            Projection::Tb1Cpu1b => 5,
            Projection::Tb1Cpu4 => 6,
            Projection::Tn1Cpu4 => 7,
            Projection::Tn2Cpu4 => 8,
            Projection::PontineAmp => 9,
            Projection::AmpCpu1a => 10,
            Projection::AmpCpu1b => 11,
            Projection::Cpu1aMotor => 12,
            Projection::Cpu1bMotor => 13,
        }
    }

    /// Rows and columns of the matrix.
    pub fn shape(&self) -> (dims: (usize, usize))
        ensures
            dims.0 == self.target_of().size_of(),
            dims.1 == self.source_of().size_of(),
            dims.0 * dims.1 == self.entries_of(),
            dims.0 * dims.1 <= 256,
    {
        let rows: usize = self.target().size();
        let cols: usize = self.source().size();
        assert(rows * cols <= 256) by (nonlinear_arith)
            requires
                rows <= 16,
                cols <= 16,
        ;
        (rows, cols)
    }

    /// Number of noise samples drawn when this matrix is built.
    pub fn draws(&self, weights: WeightsKind) -> (n: usize)
        ensures
            n == self.draws_of(weights),
            n <= 256,
    {
        let swappable: bool = match self {
            Projection::Cpu4Amp => true,
            Projection::Cpu4Pontine => true,
            _ => false,
        };
        let plastic: bool = match weights {
            WeightsKind::Static => false,
            _ => true,
        };
        if swappable && plastic {
            0
        } else {
            let (rows, cols) = self.shape();
            rows * cols
        }
    }
}

/// The matrix built at place `k`.
pub open spec fn projection_at(k: int) -> Projection {
    if k <= 0 {
        Projection::Cpu4Amp
    } else if k == 1 {
        Projection::Cpu4Pontine
    } else if k == 2 {
        Projection::Cl1Tb1
    } else if k == 3 {
        Projection::Tb1Tb1
    } else if k == 4 {
        Projection::Tb1Cpu1a
    } else if k == 5 {
        Projection::Tb1Cpu1b
    } else if k == 6 {
        Projection::Tb1Cpu4
    } else if k == 7 {
        Projection::Tn1Cpu4
    } else if k == 8 {
        Projection::Tn2Cpu4
    } else if k == 9 {
        Projection::PontineAmp
    } else if k == 10 {
        Projection::AmpCpu1a
    } else if k == 11 {
        Projection::AmpCpu1b
    } else if k == 12 {
        Projection::Cpu1aMotor
    } else {
        Projection::Cpu1bMotor
    }
}

/// Weight-noise samples drawn before the matrix at place `k` is built.
pub open spec fn weight_draws_before(k: int, weights: WeightsKind) -> nat
    decreases k,
{
    if k <= 0 {
        0
    } else {
        weight_draws_before(k - 1, weights) + projection_at(k - 1).draws_of(weights)
    }
}

/// Weight-noise samples drawn while a network is built.
pub open spec fn weight_draws(weights: WeightsKind) -> nat {
    weight_draws_before(N_PROJECTIONS as int, weights)
}

/// The matrix built at place `k`.
pub fn projection(k: usize) -> (p: Projection)
    requires
        k < N_PROJECTIONS,
    ensures
        p == projection_at(k as int),
        p.built_at() == k,
{
    if k == 0 {
        Projection::Cpu4Amp
    } else if k == 1 {
        Projection::Cpu4Pontine
    } else if k == 2 {
        Projection::Cl1Tb1
    } else if k == 3 {
        Projection::Tb1Tb1
    } else if k == 4 {
        Projection::Tb1Cpu1a
    } else if k == 5 {
        Projection::Tb1Cpu1b
    } else if k == 6 {
        Projection::Tb1Cpu4
    } else if k == 7 {
        Projection::Tn1Cpu4
    } else if k == 8 {
        Projection::Tn2Cpu4
    } else if k == 9 {
        Projection::PontineAmp
    } else if k == 10 {
        Projection::AmpCpu1a
    } else if k == 11 {
        Projection::AmpCpu1b
    } else if k == 12 {
        Projection::Cpu1aMotor
    } else {
        Projection::Cpu1bMotor
    }
}

/// Weight-noise samples drawn while a network with the given behaviour of its
/// swappable weights is built.
pub fn construction_draws(weights: WeightsKind) -> (n: usize)
    ensures
        n == weight_draws(weights),
{
    let mut total: usize = 0;
    let mut k: usize = 0;
    while k < N_PROJECTIONS
        invariant
            k <= N_PROJECTIONS,
            total == weight_draws_before(k as int, weights),
            total <= 256 * k,
        decreases N_PROJECTIONS - k,
    {
        let n: usize = projection(k).draws(weights);
        total = total + n;
        k = k + 1;
    }
    total
}

/// `matrices` and `generator_end` are what building the fixed weights
/// yields when the noise generator passes through `generators`: every fixed
/// matrix is made once, in the order of construction, with the generator as
/// the matrix before it left it.
pub open spec fn is_built<G, W, F: Fn(G, Projection) -> (G, W)>(
    generator: G,
    make: F,
    generators: Seq<G>,
    matrices: Seq<W>,
    generator_end: G,
) -> bool {
    &&& matrices.len() == N_FIXED
    &&& generators.len() == N_FIXED + 1
    &&& generators[0] == generator
    &&& generators[N_FIXED as int] == generator_end
    &&& forall|i: int|
        0 <= i < N_FIXED ==> make.ensures(
            (generators[i], projection_at(i + N_SWAPPABLE)),
            (generators[i + 1], #[trigger] matrices[i]),
        )
}

/// Build the fixed weights of a network: `make(generator, projection)` makes
/// one matrix, drawing its noise, and hands back the generator. The result
/// lists the matrices in the order of construction, the first being the one
/// that follows the swappable ones.
pub fn build_fixed<G, W, F: Fn(G, Projection) -> (G, W)>(generator: G, make: F) -> (out: (
    G,
    Vec<W>,
))
    requires
        forall|g: G, p: Projection| make.requires((g, p)),
    ensures
        out.1@.len() == N_FIXED,
        exists|generators: Seq<G>| is_built(generator, make, generators, out.1@, out.0),
{
    let mut matrices: Vec<W> = Vec::new();
    let mut current = generator;
    let ghost mut generators: Seq<G> = seq![generator];
    let mut i: usize = 0;
    while i < N_FIXED
        invariant
            i <= N_FIXED,
            matrices@.len() == i,
            generators.len() == i + 1,
            generators[0] == generator,
            generators[i as int] == current,
            forall|g: G, p: Projection| make.requires((g, p)),
            forall|j: int|
                0 <= j < i ==> make.ensures(
                    (generators[j], projection_at(j + N_SWAPPABLE)),
                    (generators[j + 1], #[trigger] matrices@[j]),
                ),
        decreases N_FIXED - i,
    {
        let (advanced, matrix) = make(current, projection(i + N_SWAPPABLE));
        current = advanced;
        matrices.push(matrix);
        proof {
            generators = generators.push(current);
        }
        i = i + 1;
    }
    let out = (current, matrices);
    proof {
        assert(is_built(generator, make, generators, out.1@, out.0));
    }
    out
}

/// The order of construction lists every matrix once, the swappable ones
/// first.
pub proof fn lemma_projection_listing(p: Projection, k: int)
    requires
        0 <= k < N_PROJECTIONS,
    ensures
        projection_at(p.built_at() as int) == p,
        p.built_at() < N_PROJECTIONS,
        projection_at(k).built_at() == k,
        p.is_swappable() <==> p.built_at() < N_SWAPPABLE,
{
}

/// Building a network draws 1568 weight-noise samples where the weights out
/// of memory are static, and 1056 where they are plastic.
pub proof fn lemma_weight_draws(weights: WeightsKind)
    ensures
        weight_draws(weights) == if is_plastic(weights) {
            1056nat
        } else {
            1568nat
        },
{
    reveal_with_fuel(weight_draws_before, 15);
    assert(16 * 16 == 256 && 8 * 16 == 128 && 8 * 8 == 64 && 14 * 8 == 112 && 2 * 8 == 16 && 16
        * 8 == 128 && 16 * 2 == 32 && 14 * 16 == 224 && 2 * 16 == 32 && 2 * 14 == 28 && 2 * 2
        == 4);
}

/// The activity that a stage is handed for one of its sources: what this
/// tick has computed for that population, except that the ring attractor is
/// handed its own activity of the previous tick.
pub open spec fn handed<'a, V>(
    reader: Population,
    source: Option<Population>,
    previous_tb1: &'a V,
    activities: &'a Seq<V>,
) -> Option<&'a V> {
    match source {
        None => None,
        Some(q) => if reader == Population::Tb1 && q == Population::Tb1 {
            Some(previous_tb1)
        } else {
            Some(&activities[q.order_of() as int])
        },
    }
}

/// `activities` and `network_end` are what one tick yields when the network
/// passes through `networks`: every population is computed once, in the tick
/// order, by the network as the stage before left it, from the physical state
/// and the activities of its sources.
pub open spec fn is_tick<N, P, V, F: Fn(N, Population, &P, Option<&V>, Option<&V>) -> (N, V)>(
    network: N,
    state: P,
    previous_tb1: V,
    compute: F,
    networks: Seq<N>,
    activities: Seq<V>,
    network_end: N,
) -> bool {
    &&& activities.len() == N_STAGES
    &&& networks.len() == N_STAGES + 1
    &&& networks[0] == network
    &&& networks[N_STAGES as int] == network_end
    &&& forall|k: int|
        0 <= k < N_STAGES ==> compute.ensures(
            (
                networks[k],
                stage_at(k),
                &state,
                handed(stage_at(k), stage_at(k).sources_of().0, &previous_tb1, &activities),
                handed(stage_at(k), stage_at(k).sources_of().1, &previous_tb1, &activities),
            ),
            (networks[k + 1], #[trigger] activities[k]),
        )
}

/// One tick of the network: compute every population once, in the tick
/// order. `compute(network, population, state, first, second)` computes one
/// population from the physical state and the activities of its sources, and
/// hands back the network, in which it may have drawn noise and updated
/// weights. The result lists the activities by place in the tick order; the
/// last is the motor output.
pub fn tick<N, P, V, F: Fn(N, Population, &P, Option<&V>, Option<&V>) -> (N, V)>(
    network: N,
    state: &P,
    previous_tb1: &V,
    compute: F,
) -> (out: (N, Vec<V>))
    requires
        forall|n: N, p: Population, s: &P, a: Option<&V>, b: Option<&V>|
            compute.requires((n, p, s, a, b)),
    ensures
        out.1@.len() == N_STAGES,
        exists|networks: Seq<N>|
            is_tick(network, *state, *previous_tb1, compute, networks, out.1@, out.0),
{
    let mut activities: Vec<V> = Vec::new();
    let mut current = network;
    let ghost mut networks: Seq<N> = seq![network];
    let mut k: usize = 0;
    while k < N_STAGES
        invariant
            k <= N_STAGES,
            activities@.len() == k,
            networks.len() == k + 1,
            networks[0] == network,
            networks[k as int] == current,
            forall|n: N, p: Population, s: &P, a: Option<&V>, b: Option<&V>|
                compute.requires((n, p, s, a, b)),
            forall|j: int|
                0 <= j < k ==> compute.ensures(
                    (
                        networks[j],
                        stage_at(j),
                        state,
                        handed(stage_at(j), stage_at(j).sources_of().0, previous_tb1, &activities@),
                        handed(stage_at(j), stage_at(j).sources_of().1, previous_tb1, &activities@),
                    ),
                    (networks[j + 1], #[trigger] activities@[j]),
                ),
        decreases N_STAGES - k,
    {
        let population = stage(k);
        let (first, second) = population.sources();
        let ghost before = activities@;
        let a: Option<&V> = match first {
            Some(q) => Some(&activities[q.order()]),
            None => None,
        };
        let b: Option<&V> = match second {
            Some(q) => match population {
                Population::Tb1 => Some(previous_tb1),
                _ => Some(&activities[q.order()]),
            },
            None => None,
        };
        let (advanced, activity) = compute(current, population, state, a, b);
        current = advanced;
        activities.push(activity);
        proof {
            networks = networks.push(current);
            assert forall|j: int| 0 <= j <= k implies handed(
                stage_at(j),
                stage_at(j).sources_of().0,
                previous_tb1,
                &activities@,
            ) == handed(stage_at(j), stage_at(j).sources_of().0, previous_tb1, &before)
                && handed(stage_at(j), stage_at(j).sources_of().1, previous_tb1, &activities@)
                == handed(stage_at(j), stage_at(j).sources_of().1, previous_tb1, &before) by {
                assert forall|i: int| 0 <= i < k implies activities@[i] == before[i] by {}
            }
        }
        k = k + 1;
    }
    let out = (current, activities);
    proof {
        assert(is_tick(network, *state, *previous_tb1, compute, networks, out.1@, out.0));
    }
    out
}

/// A tick is reproducible: where computing a population is a function of the
/// network, the physical state and the activities handed over, equal
/// networks, states and previous ring-attractor activities give equal
/// activities and leave equal networks.
pub proof fn lemma_tick_is_determined<N, P, V, F: Fn(N, Population, &P, Option<&V>, Option<&V>) -> (N, V)>(
    network: N,
    state: P,
    previous_tb1: V,
    compute: F,
    networks1: Seq<N>,
    activities1: Seq<V>,
    end1: N,
    networks2: Seq<N>,
    activities2: Seq<V>,
    end2: N,
)
    requires
        is_tick(network, state, previous_tb1, compute, networks1, activities1, end1),
        is_tick(network, state, previous_tb1, compute, networks2, activities2, end2),
        forall|n: N, p: Population, s: &P, a: Option<&V>, b: Option<&V>, x: (N, V), y: (N, V)|
            compute.ensures((n, p, s, a, b), x) && compute.ensures((n, p, s, a, b), y) ==> x == y,
    ensures
        activities1 == activities2,
        end1 == end2,
{
    lemma_ticks_agree_up_to(
        network,
        state,
        previous_tb1,
        compute,
        networks1,
        activities1,
        end1,
        networks2,
        activities2,
        end2,
        11,
    );
    assert(activities1 =~= activities2);
}

proof fn lemma_ticks_agree_up_to<N, P, V, F: Fn(N, Population, &P, Option<&V>, Option<&V>) -> (N, V)>(
    network: N,
    state: P,
    previous_tb1: V,
    compute: F,
    networks1: Seq<N>,
    activities1: Seq<V>,
    end1: N,
    networks2: Seq<N>,
    activities2: Seq<V>,
    end2: N,
    n: int,
)
    requires
        is_tick(network, state, previous_tb1, compute, networks1, activities1, end1),
        is_tick(network, state, previous_tb1, compute, networks2, activities2, end2),
        forall|n: N, p: Population, s: &P, a: Option<&V>, b: Option<&V>, x: (N, V), y: (N, V)|
            compute.ensures((n, p, s, a, b), x) && compute.ensures((n, p, s, a, b), y) ==> x == y,
        0 <= n <= 11,
    ensures
        forall|k: int| 0 <= k <= n ==> networks1[k] == networks2[k],
        forall|k: int| 0 <= k < n ==> activities1[k] == activities2[k],
    decreases n,
{
    if n > 0 {
        let m = n - 1;
        lemma_ticks_agree_up_to(
            network,
            state,
            previous_tb1,
            compute,
            networks1,
            activities1,
            end1,
            networks2,
            activities2,
            end2,
            m,
        );
        let p = stage_at(m);
        lemma_sources_come_earlier(p);
        let a1 = handed(p, p.sources_of().0, &previous_tb1, &activities1);
        let b1 = handed(p, p.sources_of().1, &previous_tb1, &activities1);
        let a2 = handed(p, p.sources_of().0, &previous_tb1, &activities2);
        let b2 = handed(p, p.sources_of().1, &previous_tb1, &activities2);
        assert(a1 == a2);
        assert(b1 == b2);
        assert(compute.ensures(
            (networks1[m], p, &state, a1, b1),
            (networks1[m + 1], activities1[m]),
        ));
        assert(compute.ensures(
            (networks2[m], p, &state, a2, b2),
            (networks2[m + 1], activities2[m]),
        ));
        assert((networks1[m + 1], activities1[m]) == (networks2[m + 1], activities2[m]));
    }
}

/// Every source of a stage, but for the ring attractor's own previous
/// activity, is computed earlier in the tick.
pub proof fn lemma_sources_come_earlier(stage: Population)
    ensures
        stage.sources_of().0 matches Some(q) ==> q.order_of() < stage.order_of(),
        stage.sources_of().1 matches Some(q) ==> stage == Population::Tb1 || q.order_of()
            < stage.order_of(),
{
}

/// The tick order lists every population once: place and population
/// determine each other.
pub proof fn lemma_order_is_a_listing(p: Population, k: int)
    requires
        0 <= k < N_STAGES,
    ensures
        stage_at(p.order_of() as int) == p,
        p.order_of() < N_STAGES,
        stage_at(k).order_of() == k,
{
}

/// The sources that a stage is handed are the populations that it reads.
pub proof fn lemma_sources_are_what_is_read(stage: Population, source: Population)
    ensures
        stage.reads(source) <==> (stage.sources_of().0 == Some(source) || stage.sources_of().1
            == Some(source)),
{
}

/// Within a tick nothing is read before it has been computed: whatever a
/// population reads comes earlier in the order. The one exception is the ring
/// attractor's reading of itself, which is its state of the previous tick.
pub proof fn lemma_update_before_use(stage: Population, source: Population)
    requires
        stage.reads(source),
        !(stage == Population::Tb1 && source == Population::Tb1),
    ensures
        source.order_of() < stage.order_of(),
{
}

/// The running count of draws never shrinks along the order.
pub proof fn lemma_draws_monotone(j: int, k: int, amp: LayerKind)
    requires
        j <= k,
    ensures
        draws_before(j, amp) <= draws_before(k, amp),
    decreases k - j,
{
    if j < k {
        lemma_draws_monotone(j, k - 1, amp);
    }
}

/// One tick draws 76 noise samples where amplification is passed through,
/// and 92 where it is a sigmoid.
pub proof fn lemma_draws_per_tick(amp: LayerKind)
    ensures
        draws_per_tick(amp) == if amp == LayerKind::Sigmoid {
            92nat
        } else {
            76nat
        },
{
    reveal_with_fuel(draws_before, 12);
}

} // verus!
