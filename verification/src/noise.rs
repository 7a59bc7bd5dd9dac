use libnoise::{Simplex, Source};
use vstd::prelude::*;

verus! {

/// The seed that the noise is built from: the configured seed, or zero where
/// the configured seed is negative.
pub open spec fn clamped_seed(seed: int) -> int {
    if seed < 0 {
        0
    } else {
        seed
    }
}

/// The octave count that the noise is built with: the configured count read
/// as an unsigned 32-bit number, so that a negative count wraps round to a
/// very large one.
pub open spec fn wrapped_octaves(octaves: int) -> int {
    if octaves < 0 {
        octaves + 0x1_0000_0000
    } else {
        octaves
    }
}

/// Clamps the configured seed to the seeds that the noise source accepts.
pub fn generator_seed(seed: i32) -> (clamped: u64)
    ensures
        clamped == clamped_seed(seed as int),
{
    if seed < 0 {
        0
    } else {
        seed as u64
    }
}

/// Reads the configured octave count as the unsigned count that the fractal
/// layering of the noise takes.
pub fn generator_octaves(octaves: i32) -> (count: u32)
    ensures
        count == wrapped_octaves(octaves as int),
{
    let count: u32 = octaves as u32;
    assert(octaves >= 0 ==> octaves as u32 == octaves) by (bit_vector);
    assert(octaves < 0 ==> octaves as u32 == octaves + 0x1_0000_0000) by (bit_vector);
    count
}

/// `libnoise::Simplex`, a source of simplex noise. Its one field, a shuffled
/// permutation table, is private; a value of it is only carried through.
#[verifier::external_type_specification]
#[verifier::external_body]
pub struct ExSimplex<const D: usize>(Simplex<D>);

/// The permutation table that `libnoise::Source::simplex` shuffles for
/// `seed`. The shuffle draws from a generator that is seeded with `seed` and
/// with nothing else, so the table is the same wherever it is built.
pub uninterp spec fn simplex_table(seed: u64) -> Seq<usize>;

/// The permutation table that a simplex source holds: the whole of its
/// state, and all that its samples are computed from.
pub uninterp spec fn source_table(source: Simplex<2>) -> Seq<usize>;

/// Calls `libnoise::Source::simplex` for two dimensions. Taken on trust: the
/// source that comes back holds the permutation table that belongs to
/// `seed`. Nothing is claimed of what the table holds.
#[verifier::external_body]
fn simplex(seed: u64) -> (source: Simplex<2>)
    ensures
        source_table(source) == simplex_table(seed),
{
    Source::simplex(seed)
}

/// Builds the two-dimensional simplex source that a kernel's noise is
/// layered from. The source is seeded with the configured seed clamped at
/// zero, so every negative seed gives the source of seed zero, and equal
/// seeds give equal sources.
pub fn noise_source(seed: i32) -> (source: Simplex<2>)
    ensures
        source_table(source) == simplex_table(clamped_seed(seed as int) as u64),
{
    simplex(generator_seed(seed))
}

} // verus!
