//! The swappable parts of the network: layer activations, weight behaviours,
//! and the named models that combine them.

use crate::noise::{is_noisified, noisify};
use vstd::prelude::*;

verus! {

/// Activation of a layer that can be swapped.
#[derive(Clone, Copy, Debug, PartialEq, Eq, Structural)]
pub enum LayerKind {
    /// The input is the output.
    Passthrough,
    /// A sigmoid with noise on every unit.
    Sigmoid,
}

/// How the memory layer keeps the home vector.
#[derive(Clone, Copy, Debug, PartialEq, Eq, Structural)]
pub enum Cpu4Kind {
    /// A leaky accumulator inside the layer.
    Accumulator,
    /// No state in the layer: memory lives in the plastic weights.
    Stateless,
}

/// Behaviour of the weights downstream of the memory layer.
#[derive(Clone, Copy, Debug, PartialEq, Eq, Structural)]
pub enum WeightsKind {
    /// Fixed at construction, perturbed by noise once.
    Static,
    /// Integrated every tick under the affine law.
    LinearPlastic,
    /// Integrated every tick under the logistic law.
    LogisticPlastic,
}

/// Where a memory snapshot is read from.
#[derive(Clone, Copy, Debug, PartialEq, Eq, Structural)]
pub enum RecorderKind {
    /// The accumulator of the memory layer.
    Accumulator,
    /// The diagonal of the plastic weights from memory onto the relay.
    PontineDiagonal,
}

/// The choices that tell one model from another.
#[derive(Clone, Copy, Debug, PartialEq, Eq, Structural)]
pub struct NetworkConfig {
    pub cpu4: Cpu4Kind,
    pub amp: LayerKind,
    pub weights: WeightsKind,
    pub recorder: RecorderKind,
}

/// Plastic weights are those that a law integrates.
pub open spec fn is_plastic(weights: WeightsKind) -> bool {
    weights != WeightsKind::Static
}

impl NetworkConfig {
    /// Memory lives in one place, and the recorder reads it there: either the
    /// memory layer accumulates, the weights out of it are static and the
    /// recorder reads the accumulator; or the layer is stateless, the weights
    /// are plastic and the recorder reads their diagonal.
    pub open spec fn coherent(self) -> bool {
        match self.cpu4 {
            Cpu4Kind::Accumulator => self.weights == WeightsKind::Static && self.recorder
                == RecorderKind::Accumulator,
            Cpu4Kind::Stateless => is_plastic(self.weights) && self.recorder
                == RecorderKind::PontineDiagonal,
        }
    }

    /// Whether memory lives in one place and the recorder reads it there.
    pub fn is_coherent(&self) -> (ok: bool)
        ensures
            ok == self.coherent(),
    {
        match self.cpu4 {
            Cpu4Kind::Accumulator => self.weights == WeightsKind::Static && self.recorder
                == RecorderKind::Accumulator,
            Cpu4Kind::Stateless => self.weights != WeightsKind::Static && self.recorder
                == RecorderKind::PontineDiagonal,
        }
    }
}

/// The reference model: memory accumulates in the memory layer, downstream
/// weights are static.
pub struct ReferenceConfig;

/// Memory in plastic weights, amplification passed through.
pub struct WeightConfig;

/// Memory in plastic weights, amplification through a sigmoid.
pub struct WeightAmpConfig;

impl ReferenceConfig {
    /// The choices of the reference model.
    pub fn describe() -> (config: NetworkConfig)
        ensures
            config == (NetworkConfig {
                cpu4: Cpu4Kind::Accumulator,
                amp: LayerKind::Passthrough,
                weights: WeightsKind::Static,
                recorder: RecorderKind::Accumulator,
            }),
            config.coherent(),
    {
        NetworkConfig {
            cpu4: Cpu4Kind::Accumulator,
            amp: LayerKind::Passthrough,
            weights: WeightsKind::Static,
            recorder: RecorderKind::Accumulator,
        }
    }
}

impl WeightConfig {
    /// The choices of the plastic-weight model under the given law.
    pub fn describe(law: WeightsKind) -> (config: NetworkConfig)
        requires
            is_plastic(law),
        ensures
            config == (NetworkConfig {
                cpu4: Cpu4Kind::Stateless,
                amp: LayerKind::Passthrough,
                weights: law,
                recorder: RecorderKind::PontineDiagonal,
            }),
            config.coherent(),
    {
        NetworkConfig {
            cpu4: Cpu4Kind::Stateless,
            amp: LayerKind::Passthrough,
            weights: law,
            recorder: RecorderKind::PontineDiagonal,
        }
    }
}

impl WeightAmpConfig {
    /// The choices of the amplified plastic-weight model under the given law.
    pub fn describe(law: WeightsKind) -> (config: NetworkConfig)
        requires
            is_plastic(law),
        ensures
            config == (NetworkConfig {
                cpu4: Cpu4Kind::Stateless,
                amp: LayerKind::Sigmoid,
                weights: law,
                recorder: RecorderKind::PontineDiagonal,
            }),
            config.coherent(),
    {
        NetworkConfig {
            cpu4: Cpu4Kind::Stateless,
            amp: LayerKind::Sigmoid,
            weights: law,
            recorder: RecorderKind::PontineDiagonal,
        }
    }
}

/// A layer whose output is its input.
pub struct PassthroughLayer;

impl PassthroughLayer {
    /// The input, unchanged.
    pub fn update<V>(&mut self, input: V) -> (output: V)
        ensures
            output == input,
    {
        input
    }
}

/// Weights that are fixed when the network is built, in column-major order.
pub struct StaticWeights<T>(pub Vec<T>);

impl<T: Copy> StaticWeights<T> {
    /// The connectivity table `weights`, perturbed once, entry by entry in
    /// storage order; the generator is handed back.
    pub fn noisy<G, F: Fn(G, T) -> (G, T)>(generator: G, weights: &Vec<T>, perturb: F) -> (out: (
        Self,
        G,
    ))
        requires
            forall|g: G, x: T| perturb.requires((g, x)),
        ensures
            out.0.0@.len() == weights@.len(),
            exists|generators: Seq<G>|
                is_noisified(generator, weights@, perturb, generators, out.0.0@, out.1),
    {
        let (matrix, generator_end) = noisify(generator, weights, perturb);
        let out = (StaticWeights(matrix), generator_end);
        proof {
            let generators = choose|generators: Seq<G>|
                is_noisified(generator, weights@, perturb, generators, matrix@, generator_end);
            assert(is_noisified(generator, weights@, perturb, generators, out.0.0@, out.1));
        }
        out
    }

    /// Static weights do not respond to input.
    pub fn update(&mut self, _input: &Vec<T>)
        ensures
            final(self).0@ == old(self).0@,
    {
    }

    /// The weight matrix.
    pub fn matrix(&self) -> (m: &Vec<T>)
        ensures
            m@ == self.0@,
    {
        &self.0
    }
}

} // verus!
