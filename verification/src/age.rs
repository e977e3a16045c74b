//! Ages, drawn by inverse-transform sampling from a normal distribution.
//!
//! An age is drawn by picking an entry of a table of quantiles uniformly,
//! scaling it by the standard deviation of ages, moving it by the median age
//! and rounding up to whole years. A draw that is not positive is rejected and
//! made again, a bounded number of times.

use crate::error::SimulationError;
use crate::normal::{quantiles_well_formed, scaled, QuantileTable};
use crate::random::RandomSource;
use vstd::prelude::*;

verus! {

/// The standard deviation of ages, in years.
pub const AGE_DEVIATION: i64 = 20;

/// Millionths of a year in one year.
pub const YEAR: u64 = 1_000_000;

/// How often a draw of an age is made before it is given up.
pub const AGE_ATTEMPTS: u32 = 1000;

/// The age, in millionths of a year, that a deviate of the standard normal
/// distribution gives around a median age.
pub open spec fn candidate_age(median_age: u64, deviate: i64) -> int {
    scaled(median_age as int, AGE_DEVIATION as int, deviate)
}

/// A positive number of millionths of a year, rounded up to whole years.
pub open spec fn whole_years(candidate: int) -> int {
    (candidate - 1) / (YEAR as int) + 1
}

/// The whole years of a candidate: a candidate that is not positive is
/// rejected, any other is rounded up, and to `u32::MAX` at most.
pub open spec fn accepted_age(candidate: int) -> Option<u32> {
    if candidate <= 0 {
        None
    } else if whole_years(candidate) > u32::MAX {
        Some(u32::MAX)
    } else {
        Some(whole_years(candidate) as u32)
    }
}

/// Some entry of the table gives this age around the median age.
pub open spec fn attainable_age(median_age: u64, entries: Seq<i64>, age: u32) -> bool {
    exists|k: int|
        0 <= k < entries.len() && accepted_age(candidate_age(median_age, #[trigger] entries[k]))
            == Some(age)
}

/// Every entry of a well-formed table gives an age around the median age, so
/// that no draw is ever rejected.
pub open spec fn always_accepted(median_age: u64, entries: Seq<i64>) -> bool {
    candidate_age(median_age, entries[0]) > 0
}

/// The age, in millionths of a year, that a deviate gives around a median age.
pub fn candidate(median_age: u64, deviate: i64) -> (candidate: i128)
    ensures
        candidate == candidate_age(median_age, deviate),
{
    let spread: i128 = 20 * (deviate as i128);
    median_age as i128 + spread
}

/// The whole years of a candidate, or `None` for one that is rejected.
pub fn accept_age(candidate: i128) -> (age: Option<u32>)
    ensures
        age == accepted_age(candidate as int),
{
    if candidate <= 0 {
        None
    } else {
        let years: i128 = (candidate - 1) / 1_000_000 + 1;
        if years > u32::MAX as i128 {
            Some(u32::MAX)
        } else {
            Some(years as u32)
        }
    }
}

/// Every one of the attempts picked an entry of the table, and the entry
/// gave no age around the median age.
pub open spec fn attempts_rejected(median_age: u64, entries: Seq<i64>, attempts: Seq<int>) -> bool {
    forall|i: int|
        0 <= i < attempts.len() ==> 0 <= #[trigger] attempts[i] < entries.len() && accepted_age(
            candidate_age(median_age, entries[attempts[i]]),
        ).is_none()
}

/// The outcome of a draw is that of the given attempts, each the index of the
/// entry that it picked: an age is the age that the last attempt gave after
/// all before it were rejected, `AGE_ATTEMPTS` attempts at most; the draw is
/// given up after exactly `AGE_ATTEMPTS` attempts, all rejected.
pub open spec fn age_explained(
    median_age: u64,
    entries: Seq<i64>,
    attempts: Seq<int>,
    age: Result<u32, SimulationError>,
) -> bool {
    match age {
        Ok(years) => {
            &&& 1 <= attempts.len() <= AGE_ATTEMPTS
            &&& attempts_rejected(median_age, entries, attempts.drop_last())
            &&& 0 <= attempts.last() < entries.len()
            &&& accepted_age(candidate_age(median_age, entries[attempts.last()])) == Some(years)
        },
        Err(reason) => {
            &&& reason == SimulationError::SamplingExhausted
            &&& attempts.len() == AGE_ATTEMPTS
            &&& attempts_rejected(median_age, entries, attempts)
        },
    }
}

/// Draws an age around a median age.
///
/// The outcome is that of some attempts: an age is what the first attempt
/// gave that was not rejected, and the draw fails after `AGE_ATTEMPTS`
/// rejected attempts. So an age that comes back is one that the table can
/// give, and the draw never fails where the table's lowest entry already gives
/// an age.
pub fn generate_age(median_age: u64, quantiles: &QuantileTable, source: &mut RandomSource) -> (age:
    Result<u32, SimulationError>)
    ensures
        exists|attempts: Seq<int>| age_explained(median_age, quantiles@, attempts, age),
        age matches Ok(years) ==> attainable_age(median_age, quantiles@, years),
        age matches Err(reason) ==> reason == SimulationError::SamplingExhausted
            && !always_accepted(median_age, quantiles@),
{
    let len: usize = quantiles.len();
    let mut attempt: u32 = 0;
    let ghost mut attempts: Seq<int> = Seq::empty();
    while attempt < AGE_ATTEMPTS
        invariant
            len == quantiles@.len(),
            len > 0,
            quantiles_well_formed(quantiles@),
            attempt <= AGE_ATTEMPTS,
            attempts.len() == attempt,
            attempts_rejected(median_age, quantiles@, attempts),
            attempt > 0 ==> !always_accepted(median_age, quantiles@),
        decreases AGE_ATTEMPTS - attempt,
    {
        let index: usize = source.below(len as u64) as usize;
        let deviate: i64 = quantiles.deviate(index);
        let ghost earlier = attempts;
        proof {
            attempts = attempts.push(index as int);
            assert(attempts.drop_last() == earlier);
        }
        match accept_age(candidate(median_age, deviate)) {
            Some(years) => {
                let age = Ok(years);
                assert(age_explained(median_age, quantiles@, attempts, age));
                return age;
            },
            None => {
                assert(quantiles@[0] <= quantiles@[index as int]);
                assert(candidate_age(median_age, quantiles@[0]) <= candidate_age(
                    median_age,
                    quantiles@[index as int],
                ));
            },
        }
        attempt += 1;
    }
    let age = Err(SimulationError::SamplingExhausted);
    assert(age_explained(median_age, quantiles@, attempts, age));
    age
}

/// Draws ages around a median age from a normal distribution.
pub struct LegacyAgeGenerator {
    pub median_age: u64,
    quantiles: QuantileTable,
}

impl LegacyAgeGenerator {
    /// The median age that ages are drawn around, in millionths of a year.
    pub closed spec fn median(&self) -> u64 {
        self.median_age
    }

    /// The table that ages are drawn from.
    pub closed spec fn quantiles(&self) -> Seq<i64> {
        self.quantiles@
    }

    pub fn new(median_age: u64, quantiles: QuantileTable) -> (generator: LegacyAgeGenerator)
        ensures
            generator.median() == median_age,
            generator.quantiles() == quantiles@,
    {
        LegacyAgeGenerator { median_age, quantiles }
    }

    /// Draws an age around the generator's median age.
    pub fn generate_age(&self, source: &mut RandomSource) -> (age: Result<u32, SimulationError>)
        ensures
            exists|attempts: Seq<int>| age_explained(self.median(), self.quantiles(), attempts, age),
            age matches Ok(years) ==> attainable_age(self.median(), self.quantiles(), years),
            age matches Err(reason) ==> reason == SimulationError::SamplingExhausted
                && !always_accepted(self.median(), self.quantiles()),
    {
        let age = generate_age(self.median_age, &self.quantiles, source);
        proof {
            let attempts = choose|attempts: Seq<int>|
                age_explained(self.median_age, self.quantiles@, attempts, age);
            assert(age_explained(self.median(), self.quantiles(), attempts, age));
        }
        age
    }
}

/// The oldest age that the mixed generator gives.
pub const OLDEST_AGE: i64 = 100;

/// The oldest age of a minor.
pub const OLDEST_MINOR: i64 = 17;

/// How far around the median age the ages of the largest group reach.
pub const NEAR_MEDIAN: i64 = 10;

/// A median age in millionths of a year as whole years, halves rounded away
/// from zero.
pub open spec fn rounded_years(median_age: i64) -> int {
    if median_age >= 0 {
        (median_age + 500_000) / 1_000_000
    } else {
        -((-median_age + 500_000) / 1_000_000)
    }
}

/// The ages, from the first to the second, that the mixed generator picks
/// from: those within ten years of the median for a member of the largest
/// group, those of a minor, and for the others either those from 18 up to
/// ten under the median or those from ten over the median up to a hundred.
/// Only a median above 30 leaves room for the ages under it.
pub open spec fn age_bracket(median: int, near: bool, minor: bool, younger: bool) -> (int, int) {
    if near {
        (median - NEAR_MEDIAN, median + NEAR_MEDIAN)
    } else if minor {
        (0, OLDEST_MINOR as int)
    } else if median - 15 > 15 && younger {
        (OLDEST_MINOR + 1, median - NEAR_MEDIAN)
    } else {
        (median + NEAR_MEDIAN, OLDEST_AGE as int)
    }
}

/// Draws ages from a mixture: 40% lie within ten years of the median age, 9%
/// are minors, and the others are adults further from the median.
pub struct AgeGenerator {
    pub median_age: i64,
}

impl AgeGenerator {
    /// The median age in whole years.
    pub open spec fn median(&self) -> int {
        rounded_years(self.median_age)
    }

    /// Whether ages can be drawn: the median must leave ages between ten
    /// over it and a hundred, and be no less than an age can be.
    pub open spec fn can_generate(&self) -> bool {
        -2_000_000_000 <= self.median() <= OLDEST_AGE - NEAR_MEDIAN
    }

    /// Whether the generator gives an age for some group.
    pub open spec fn gives(&self, age: i32) -> bool {
        exists|near: bool, minor: bool, younger: bool|
            (#[trigger] age_bracket(self.median(), near, minor, younger)).0 <= age
                <= age_bracket(self.median(), near, minor, younger).1
    }

    pub fn new(median_age: i64) -> (generator: AgeGenerator)
        ensures
            generator.median_age == median_age,
    {
        AgeGenerator { median_age }
    }

    pub fn update_median_age(&mut self, median_age: i64)
        ensures
            final(self).median_age == median_age,
    {
        self.median_age = median_age;
    }

    /// The median age in whole years.
    pub fn rounded_median(&self) -> (median: i64)
        ensures
            median == self.median(),
    {
        if self.median_age >= 0 {
            let years: i128 = (self.median_age as i128 + 500_000) / 1_000_000;
            years as i64
        } else {
            let years: i128 = (-(self.median_age as i128) + 500_000) / 1_000_000;
            -(years as i64)
        }
    }

    /// Whether ages can be drawn.
    pub fn is_usable(&self) -> (usable: bool)
        ensures
            usable == self.can_generate(),
    {
        let median: i64 = self.rounded_median();
        -2_000_000_000 <= median && median <= OLDEST_AGE - NEAR_MEDIAN
    }

    /// The ages that the generator picks from for a group.
    pub fn bracket(&self, near: bool, minor: bool, younger: bool) -> (ages: (i64, i64))
        requires
            self.can_generate(),
        ensures
            ages.0 == age_bracket(self.median(), near, minor, younger).0,
            ages.1 == age_bracket(self.median(), near, minor, younger).1,
            ages.0 <= ages.1,
            -2_147_483_648 <= ages.0,
            ages.1 <= OLDEST_AGE,
    {
        let median: i64 = self.rounded_median();
        if near {
            (median - NEAR_MEDIAN, median + NEAR_MEDIAN)
        } else if minor {
            (0, OLDEST_MINOR)
        } else if median - 15 > 15 && younger {
            (OLDEST_MINOR + 1, median - NEAR_MEDIAN)
        } else {
            (median + NEAR_MEDIAN, OLDEST_AGE)
        }
    }

    /// Draws an age: first the group, then an age of the group's bracket,
    /// each as likely as the other.
    pub fn generate_age(&self, source: &mut RandomSource) -> (age: i32)
        requires
            self.can_generate(),
        ensures
            self.gives(age),
    {
        let near: bool = source.ratio(2, 5);
        let minor: bool = if near {
            false
        } else {
            source.ratio(3, 20)
        };
        let median: i64 = self.rounded_median();
        let younger: bool = if near || minor || median - 15 <= 15 {
            false
        } else {
            source.ratio(1, 2)
        };
        let (low, high) = self.bracket(near, minor, younger);
        let width: u64 = (high - low + 1) as u64;
        let age: i64 = low + source.below(width) as i64;
        assert(age_bracket(self.median(), near, minor, younger).0 <= age <= age_bracket(
            self.median(),
            near,
            minor,
            younger,
        ).1);
        age as i32
    }
}

} // verus!
