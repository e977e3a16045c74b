//! The normal distribution, tabulated.
//!
//! The standard normal distribution is given by a table of its quantiles,
//! taken at the equally spaced probabilities `0/n`, `1/n`, up to `(n-1)/n` and
//! written in millionths of a standard deviation. A distribution with a mean
//! and a standard deviation of its own scales and moves the entries. Its
//! quantile function reads the table; its distribution function counts the
//! entries below a value, and so inverts the quantile function.

use crate::error::SimulationError;
use vstd::prelude::*;

verus! {

/// A table is usable if it has an entry and its entries do not decrease.
pub open spec fn quantiles_well_formed(entries: Seq<i64>) -> bool {
    &&& entries.len() > 0
    &&& forall|i: int, j: int| 0 <= i <= j < entries.len() ==> entries[i] <= entries[j]
}

/// A deviate of the standard normal distribution, in millionths, as a value
/// of the distribution with the given mean, in millionths, and the given
/// standard deviation, in whole units.
pub open spec fn scaled(mean: int, standard_deviation: int, deviate: i64) -> int {
    mean + standard_deviation * deviate
}

/// Quantiles of the standard normal distribution at equally spaced
/// probabilities, in millionths of a standard deviation.
pub struct QuantileTable {
    entries: Vec<i64>,
}

impl View for QuantileTable {
    type V = Seq<i64>;

    closed spec fn view(&self) -> Seq<i64> {
        self.entries@
    }
}

impl QuantileTable {
    #[verifier::type_invariant]
    spec fn well_formed(self) -> bool {
        quantiles_well_formed(self.entries@)
    }

    /// Takes the table if it is well formed, and rejects it otherwise.
    pub fn new(entries: Vec<i64>) -> (table: Result<QuantileTable, SimulationError>)
        ensures
            quantiles_well_formed(entries@) ==> table.is_ok() && table.unwrap()@ == entries@,
            !quantiles_well_formed(entries@) ==> table == Err::<QuantileTable, SimulationError>(
                SimulationError::InvalidConfiguration,
            ),
    {
        if entries.len() == 0 {
            return Err(SimulationError::InvalidConfiguration);
        }
        let mut i: usize = 1;
        while i < entries.len()
            invariant
                1 <= i <= entries.len(),
                forall|a: int, b: int| 0 <= a <= b < i ==> entries@[a] <= entries@[b],
            decreases entries.len() - i,
        {
            if entries[i - 1] > entries[i] {
                return Err(SimulationError::InvalidConfiguration);
            }
            i += 1;
        }
        Ok(QuantileTable { entries })
    }

    /// The number of entries, which is not zero.
    pub fn len(&self) -> (len: usize)
        ensures
            len == self@.len(),
            quantiles_well_formed(self@),
    {
        proof {
            use_type_invariant(self);
        }
        self.entries.len()
    }

    /// The entry at an index.
    pub fn deviate(&self, index: usize) -> (deviate: i64)
        requires
            index < self@.len(),
        ensures
            deviate == self@[index as int],
    {
        self.entries[index]
    }
}

/// The number of entries of a table whose value in the distribution with the
/// given mean and standard deviation lies below `x`.
pub open spec fn entries_below(mean: int, standard_deviation: int, entries: Seq<i64>, x: int) -> nat
    decreases entries.len(),
{
    if entries.len() == 0 {
        0
    } else {
        entries_below(mean, standard_deviation, entries.drop_last(), x) + if scaled(
            mean,
            standard_deviation,
            entries.last(),
        ) < x {
            1nat
        } else {
            0nat
        }
    }
}

/// A normal distribution with its mean, in millionths, and its standard
/// deviation, in whole units and above zero.
#[derive(Debug, Clone, Copy)]
pub struct NormalDistribution {
    mean: i64,
    standard_deviation: u32,
}

impl NormalDistribution {
    #[verifier::type_invariant]
    spec fn well_formed(self) -> bool {
        self.standard_deviation > 0
    }

    /// The mean, in millionths.
    pub closed spec fn mean(&self) -> i64 {
        self.mean
    }

    /// The standard deviation, in whole units.
    pub closed spec fn deviation(&self) -> u32 {
        self.standard_deviation
    }

    /// The quantile at the probability `index / n`, for a table of `n`
    /// entries, in millionths.
    pub open spec fn spec_quartile(&self, entries: Seq<i64>, index: int) -> int {
        scaled(self.mean() as int, self.deviation() as int, entries[index])
    }

    /// The probability of a value below `x`, in units of `1 / n` for a table
    /// of `n` entries.
    pub open spec fn spec_cdf(&self, entries: Seq<i64>, x: int) -> nat {
        entries_below(self.mean() as int, self.deviation() as int, entries, x)
    }

    /// Takes a mean and a standard deviation, and rejects a standard
    /// deviation of zero.
    pub fn new(mean: i64, standard_deviation: u32) -> (distribution: Result<
        NormalDistribution,
        SimulationError,
    >)
        ensures
            standard_deviation > 0 ==> distribution.is_ok() && distribution.unwrap().mean() == mean
                && distribution.unwrap().deviation() == standard_deviation,
            standard_deviation == 0 ==> (distribution matches Err(reason) && reason
                == SimulationError::InvalidConfiguration),
    {
        if standard_deviation == 0 {
            Err(SimulationError::InvalidConfiguration)
        } else {
            Ok(NormalDistribution { mean, standard_deviation })
        }
    }

    /// The quantile at the probability `index / n`, where `n` is the number
    /// of entries of the table.
    pub fn quartile(&self, quantiles: &QuantileTable, index: usize) -> (x: i128)
        requires
            index < quantiles@.len(),
        ensures
            x == self.spec_quartile(quantiles@, index as int),
    {
        let deviate: i64 = quantiles.deviate(index);
        assert(-0x8000_0000_0000_0000 * 0xffff_ffff <= self.standard_deviation * deviate
            <= 0x7fff_ffff_ffff_ffff * 0xffff_ffff) by (nonlinear_arith)
            requires
                0 <= self.standard_deviation <= 0xffff_ffff,
                -0x8000_0000_0000_0000 <= deviate <= 0x7fff_ffff_ffff_ffff,
        ;
        self.mean as i128 + self.standard_deviation as i128 * deviate as i128
    }

    /// The probability of a value below `x`, in units of `1 / n`, where `n`
    /// is the number of entries of the table: the number of quantiles that
    /// lie below `x`.
    pub fn cdf(&self, quantiles: &QuantileTable, x: i128) -> (count: usize)
        ensures
            count == self.spec_cdf(quantiles@, x as int),
            count <= quantiles@.len(),
    {
        let len: usize = quantiles.len();
        let ghost mean = self.mean as int;
        let ghost deviation = self.standard_deviation as int;
        let mut low: usize = 0;
        let mut high: usize = len;
        while low < high
            invariant
                low <= high <= len,
                len == quantiles@.len(),
                quantiles_well_formed(quantiles@),
                mean == self.mean,
                deviation == self.standard_deviation,
                forall|k: int| 0 <= k < low ==> scaled(mean, deviation, #[trigger] quantiles@[k]) < x,
                forall|k: int|
                    high <= k < len ==> scaled(mean, deviation, #[trigger] quantiles@[k]) >= x,
            decreases high - low,
        {
            let middle: usize = low + (high - low) / 2;
            let value: i128 = self.quartile(quantiles, middle);
            if value < x {
                assert forall|k: int| 0 <= k < middle + 1 implies scaled(
                    mean,
                    deviation,
                    #[trigger] quantiles@[k],
                ) < x by {
                    lemma_scaled_monotone(mean, deviation, quantiles@[k], quantiles@[middle as int]);
                }
                low = middle + 1;
            } else {
                assert forall|k: int| middle <= k < len implies scaled(
                    mean,
                    deviation,
                    #[trigger] quantiles@[k],
                ) >= x by {
                    lemma_scaled_monotone(mean, deviation, quantiles@[middle as int], quantiles@[k]);
                }
                high = middle;
            }
        }
        proof {
            lemma_split_is_count(mean, deviation, quantiles@, x as int, low as int);
        }
        low
    }
}

/// A greater deviate gives a value that is not smaller.
pub proof fn lemma_scaled_monotone(mean: int, standard_deviation: int, lower: i64, upper: i64)
    requires
        standard_deviation >= 0,
        lower <= upper,
    ensures
        scaled(mean, standard_deviation, lower) <= scaled(mean, standard_deviation, upper),
{
    assert(standard_deviation * lower <= standard_deviation * upper) by (nonlinear_arith)
        requires
            standard_deviation >= 0,
            lower <= upper,
    ;
}

/// Where the values before a place are all below `x` and the values from it
/// on are not, the place is the number of values below `x`.
pub proof fn lemma_split_is_count(
    mean: int,
    standard_deviation: int,
    entries: Seq<i64>,
    x: int,
    split: int,
)
    requires
        0 <= split <= entries.len(),
        forall|k: int| 0 <= k < split ==> scaled(mean, standard_deviation, #[trigger] entries[k]) < x,
        forall|k: int|
            split <= k < entries.len() ==> scaled(mean, standard_deviation, #[trigger] entries[k])
                >= x,
    ensures
        entries_below(mean, standard_deviation, entries, x) == split,
    decreases entries.len(),
{
    if entries.len() > 0 {
        let rest = entries.drop_last();
        if split == entries.len() {
            assert(scaled(mean, standard_deviation, entries[split - 1]) < x);
            lemma_split_is_count(mean, standard_deviation, rest, x, split - 1);
        } else {
            assert(scaled(mean, standard_deviation, entries[entries.len() - 1]) >= x);
            lemma_split_is_count(mean, standard_deviation, rest, x, split);
        }
    }
}

/// In a well-formed table the values below `x` come first: the number of
/// them splits the table into the values below `x` and the others.
pub proof fn lemma_count_is_split(mean: int, standard_deviation: int, entries: Seq<i64>, x: int)
    requires
        standard_deviation >= 0,
        forall|i: int, j: int| 0 <= i <= j < entries.len() ==> entries[i] <= entries[j],
    ensures
        entries_below(mean, standard_deviation, entries, x) <= entries.len(),
        forall|k: int|
            0 <= k < entries_below(mean, standard_deviation, entries, x) ==> scaled(
                mean,
                standard_deviation,
                #[trigger] entries[k],
            ) < x,
        forall|k: int|
            entries_below(mean, standard_deviation, entries, x) <= k < entries.len() ==> scaled(
                mean,
                standard_deviation,
                #[trigger] entries[k],
            ) >= x,
    decreases entries.len(),
{
    if entries.len() > 0 {
        let rest = entries.drop_last();
        let last = entries.len() - 1;
        assert forall|i: int, j: int| 0 <= i <= j < rest.len() implies rest[i] <= rest[j] by {
            assert(entries[i] <= entries[j]);
        }
        lemma_count_is_split(mean, standard_deviation, rest, x);
        let before = entries_below(mean, standard_deviation, rest, x);
        assert forall|k: int| 0 <= k < rest.len() implies rest[k] == entries[k] by {}
        if scaled(mean, standard_deviation, entries[last]) < x {
            assert forall|k: int| 0 <= k < last implies scaled(
                mean,
                standard_deviation,
                #[trigger] entries[k],
            ) < x by {
                lemma_scaled_monotone(mean, standard_deviation, entries[k], entries[last]);
            }
            lemma_split_is_count(mean, standard_deviation, rest, x, last);
        }
    }
}

/// The quantile function undoes the distribution function on every value
/// that is a quantile: the distribution function of the quantile at an index
/// is an index, not a later one, with the same quantile.
pub proof fn lemma_quartile_of_cdf(distribution: NormalDistribution, entries: Seq<i64>, index: int)
    requires
        quantiles_well_formed(entries),
        0 <= index < entries.len(),
    ensures
        distribution.spec_cdf(entries, distribution.spec_quartile(entries, index)) <= index,
        distribution.spec_quartile(
            entries,
            distribution.spec_cdf(entries, distribution.spec_quartile(entries, index)) as int,
        ) == distribution.spec_quartile(entries, index),
{
    let mean = distribution.mean() as int;
    let deviation = distribution.deviation() as int;
    let x = distribution.spec_quartile(entries, index);
    lemma_count_is_split(mean, deviation, entries, x);
    let count = entries_below(mean, deviation, entries, x) as int;
    if count > index {
        assert(scaled(mean, deviation, entries[index]) < x);
    }
    assert(scaled(mean, deviation, entries[count]) >= x);
    lemma_scaled_monotone(mean, deviation, entries[count], entries[index]);
}

/// The distribution function undoes the quantile function up to the step of
/// the table: the quantiles before the distribution function of a value lie
/// below the value, and the quantiles from it on do not.
pub proof fn lemma_cdf_brackets(distribution: NormalDistribution, entries: Seq<i64>, x: int)
    requires
        quantiles_well_formed(entries),
    ensures
        distribution.spec_cdf(entries, x) <= entries.len(),
        forall|k: int|
            0 <= k < distribution.spec_cdf(entries, x) ==> #[trigger] distribution.spec_quartile(
                entries,
                k,
            ) < x,
        forall|k: int|
            distribution.spec_cdf(entries, x) <= k < entries.len()
                ==> #[trigger] distribution.spec_quartile(entries, k) >= x,
{
    let mean = distribution.mean() as int;
    let deviation = distribution.deviation() as int;
    lemma_count_is_split(mean, deviation, entries, x);
    assert forall|k: int| 0 <= k < distribution.spec_cdf(entries, x) implies #[trigger]
        distribution.spec_quartile(entries, k) < x by {
        assert(scaled(mean, deviation, entries[k]) < x);
    }
    assert forall|k: int|
        distribution.spec_cdf(entries, x) <= k < entries.len() implies #[trigger]
        distribution.spec_quartile(entries, k) >= x by {
        assert(scaled(mean, deviation, entries[k]) >= x);
    }
}

} // verus!
