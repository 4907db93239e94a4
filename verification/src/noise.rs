//! Threading of the noise source through a vector or matrix.
//!
//! The generator is handed from element to element in storage order, so the
//! order of draws, which a seeded run must reproduce, is fixed here. What one
//! draw does to a value is supplied by the caller.

use vstd::prelude::*;

verus! {

/// `out` is `values` perturbed element by element: element `i` is perturbed
/// with the generator as element `i - 1` left it, the first with `generator`,
/// and `generator_end` is what the last one left.
pub open spec fn is_noisified<T, G, F: Fn(G, T) -> (G, T)>(
    generator: G,
    values: Seq<T>,
    perturb: F,
    generators: Seq<G>,
    out: Seq<T>,
    generator_end: G,
) -> bool {
    &&& out.len() == values.len()
    &&& generators.len() == values.len() + 1
    &&& generators[0] == generator
    &&& generators[values.len() as int] == generator_end
    &&& forall|i: int|
        0 <= i < values.len() ==> perturb.ensures(
            (generators[i], values[i]),
            (generators[i + 1], #[trigger] out[i]),
        )
}

/// Perturb every element of `values`, in storage order, and hand back the
/// generator.
pub fn noisify<T: Copy, G, F: Fn(G, T) -> (G, T)>(generator: G, values: &Vec<T>, perturb: F) -> (out: (
    Vec<T>,
    G,
))
    requires
        forall|g: G, x: T| perturb.requires((g, x)),
    ensures
        out.0@.len() == values@.len(),
        exists|generators: Seq<G>|
            is_noisified(generator, values@, perturb, generators, out.0@, out.1),
{
    let mut noisy: Vec<T> = Vec::new();
    let mut current = generator;
    let ghost mut generators: Seq<G> = seq![generator];
    let mut i: usize = 0;
    while i < values.len()
        invariant
            i <= values@.len(),
            noisy@.len() == i,
            generators.len() == i + 1,
            generators[0] == generator,
            generators[i as int] == current,
            forall|g: G, x: T| perturb.requires((g, x)),
            forall|j: int|
                0 <= j < i ==> perturb.ensures(
                    (generators[j], values@[j]),
                    (generators[j + 1], #[trigger] noisy@[j]),
                ),
        decreases values@.len() - i,
    {
        let (advanced, value) = perturb(current, values[i]);
        current = advanced;
        noisy.push(value);
        proof {
            generators = generators.push(current);
        }
        i = i + 1;
    }
    let out = (noisy, current);
    proof {
        assert(is_noisified(generator, values@, perturb, generators, out.0@, out.1));
    }
    out
}

/// Noise of zero spread changes nothing: where no draw alters the value it is
/// applied to, the perturbed values are the values themselves.
pub proof fn lemma_zero_noise_is_identity<T, G, F: Fn(G, T) -> (G, T)>(
    generator: G,
    values: Seq<T>,
    perturb: F,
    generators: Seq<G>,
    out: Seq<T>,
    generator_end: G,
)
    requires
        is_noisified(generator, values, perturb, generators, out, generator_end),
        forall|g: G, x: T, r: (G, T)| perturb.ensures((g, x), r) ==> r.1 == x,
    ensures
        out == values,
{
    assert forall|i: int| 0 <= i < values.len() implies out[i] == values[i] by {
        assert(perturb.ensures((generators[i], values[i]), (generators[i + 1], out[i])));
    }
    assert(out =~= values);
}

/// The draws are reproducible: where a draw is a function of the generator
/// and the value, equal generators and equal values give equal perturbed
/// values and leave equal generators.
pub proof fn lemma_noise_is_determined<T, G, F: Fn(G, T) -> (G, T)>(
    generator: G,
    values: Seq<T>,
    perturb: F,
    generators1: Seq<G>,
    out1: Seq<T>,
    end1: G,
    generators2: Seq<G>,
    out2: Seq<T>,
    end2: G,
)
    requires
        is_noisified(generator, values, perturb, generators1, out1, end1),
        is_noisified(generator, values, perturb, generators2, out2, end2),
        forall|g: G, x: T, r: (G, T), s: (G, T)|
            perturb.ensures((g, x), r) && perturb.ensures((g, x), s) ==> r == s,
    ensures
        out1 == out2,
        end1 == end2,
{
    lemma_noise_agrees_up_to(
        generator,
        values,
        perturb,
        generators1,
        out1,
        end1,
        generators2,
        out2,
        end2,
        values.len() as int,
    );
    assert(out1 =~= out2);
}

proof fn lemma_noise_agrees_up_to<T, G, F: Fn(G, T) -> (G, T)>(
    generator: G,
    values: Seq<T>,
    perturb: F,
    generators1: Seq<G>,
    out1: Seq<T>,
    end1: G,
    generators2: Seq<G>,
    out2: Seq<T>,
    end2: G,
    n: int,
)
    requires
        is_noisified(generator, values, perturb, generators1, out1, end1),
        is_noisified(generator, values, perturb, generators2, out2, end2),
        forall|g: G, x: T, r: (G, T), s: (G, T)|
            perturb.ensures((g, x), r) && perturb.ensures((g, x), s) ==> r == s,
        0 <= n <= values.len(),
    ensures
        forall|i: int| 0 <= i <= n ==> generators1[i] == generators2[i],
        forall|i: int| 0 <= i < n ==> out1[i] == out2[i],
    decreases n,
{
    if n > 0 {
        let m = n - 1;
        lemma_noise_agrees_up_to(
            generator,
            values,
            perturb,
            generators1,
            out1,
            end1,
            generators2,
            out2,
            end2,
            m,
        );
        assert(perturb.ensures((generators1[m], values[m]), (generators1[m + 1], out1[m])));
        assert(perturb.ensures((generators2[m], values[m]), (generators2[m + 1], out2[m])));
        assert((generators1[m + 1], out1[m]) == (generators2[m + 1], out2[m]));
    }
}

} // verus!
