//! The random source of a run: one seeded generator, drawn from in sequence,
//! with a record of what was drawn.

use rand::rngs::StdRng;
use rand::Rng;
use rand::SeedableRng;
use vstd::prelude::*;

verus! {

#[verifier::external_type_specification]
#[verifier::external_body]
pub struct ExStdRng(StdRng);

/// `SeedableRng::seed_from_u64` of `StdRng`: a generator whose stream is fixed
/// by the seed. Nothing is claimed of the generator that comes back.
#[verifier::external_body]
fn seeded_generator(seed: u64) -> StdRng {
    StdRng::seed_from_u64(seed)
}

/// `Rng::gen_range` on the half-open range `0..bound` of `u64`: the value
/// drawn lies in that range. The call panics on an empty range, which the
/// precondition leaves out.
#[verifier::external_body]
fn draw_below(generator: &mut StdRng, bound: u64) -> (value: u64)
    requires
        bound > 0,
    ensures
        value < bound,
{
    generator.gen_range(0..bound)
}

/// `Rng::gen_ratio`: a Bernoulli draw that is true with chance
/// `numerator / denominator`. It is certainly true when the two are equal and
/// certainly false when the numerator is zero. The call panics on a zero
/// denominator and on a numerator above the denominator, which the
/// precondition leaves out.
#[verifier::external_body]
fn draw_ratio(generator: &mut StdRng, numerator: u32, denominator: u32) -> (hit: bool)
    requires
        denominator > 0,
        numerator <= denominator,
    ensures
        numerator == denominator ==> hit,
        numerator == 0 ==> !hit,
{
    generator.gen_ratio(numerator, denominator)
}

/// One draw from a source: what was asked of the source, and what it gave.
#[derive(Debug, Clone, Copy, PartialEq, Eq, Structural)]
pub enum Draw {
    /// An integer was asked for below `bound`, and `value` came.
    Below { bound: u64, value: u64 },
    /// A hit was asked for with a chance of `numerator` in `denominator`.
    Ratio { numerator: u32, denominator: u32, hit: bool },
}

/// The sequential source of every random draw of a run. It keeps a record of
/// its seed and of the draws made from it, in their order.
pub struct RandomSource {
    generator: StdRng,
    seed: Ghost<u64>,
    drawn: Ghost<Seq<Draw>>,
}

impl RandomSource {
    /// The seed that the source was made with.
    pub closed spec fn seed(&self) -> u64 {
        self.seed@
    }

    /// The draws made from the source so far, the first one first.
    pub closed spec fn drawn(&self) -> Seq<Draw> {
        self.drawn@
    }

    /// The source is what `before` has become by the given draws, made in
    /// their order, and by no others.
    pub open spec fn continues(&self, before: RandomSource, draws: Seq<Draw>) -> bool {
        &&& self.seed() == before.seed()
        &&& self.drawn() == before.drawn() + draws
    }

    /// A source whose stream of draws is fixed by `seed`, and from which
    /// nothing has been drawn yet.
    pub fn from_seed(seed: u64) -> (source: RandomSource)
        ensures
            source.seed() == seed,
            source.drawn() == Seq::<Draw>::empty(),
    {
        RandomSource {
            generator: seeded_generator(seed),
            seed: Ghost(seed),
            drawn: Ghost(Seq::empty()),
        }
    }

    /// Draws an integer uniformly from `0..bound`: one more draw from the
    /// source, which gives the integer.
    pub fn below(&mut self, bound: u64) -> (value: u64)
        requires
            bound > 0,
        ensures
            value < bound,
            final(self).continues(*old(self), seq![Draw::Below { bound, value }]),
    {
        let value: u64 = draw_below(&mut self.generator, bound);
        self.drawn = Ghost(self.drawn@.push(Draw::Below { bound, value }));
        assert(self.drawn@ =~= old(self).drawn@ + seq![Draw::Below { bound, value }]);
        value
    }

    /// Draws `true` with chance `numerator / denominator`: one more draw from
    /// the source, which gives the hit.
    pub fn ratio(&mut self, numerator: u32, denominator: u32) -> (hit: bool)
        requires
            denominator > 0,
            numerator <= denominator,
        ensures
            numerator == denominator ==> hit,
            numerator == 0 ==> !hit,
            final(self).continues(*old(self), seq![Draw::Ratio { numerator, denominator, hit }]),
    {
        let hit: bool = draw_ratio(&mut self.generator, numerator, denominator);
        self.drawn = Ghost(self.drawn@.push(Draw::Ratio { numerator, denominator, hit }));
        assert(self.drawn@ =~= old(self).drawn@ + seq![
            Draw::Ratio { numerator, denominator, hit },
        ]);
        hit
    }
}

} // verus!
