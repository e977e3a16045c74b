//! The fertility model: a table of age bands, each with the rate at which
//! women of that age give birth, and what a year does to the table.
//!
//! A rate counts births for every 1000 women in a year and is written in
//! tenths, so that `350` stands for 35.0. Every year each rate falls by one
//! tenth until it has reached the floor of 1.0, where it stays.

use crate::age::{always_accepted, attainable_age, generate_age};
use crate::error::SimulationError;
use crate::normal::QuantileTable;
use crate::random::RandomSource;
use vstd::prelude::*;

verus! {

/// The lowest rate of a band, in tenths: 1.0 births for every 1000 women.
pub const RATE_FLOOR: u32 = 10;

/// A draw against a birth rate is uniform below this bound.
pub const BIRTH_DRAW_BOUND: u64 = 10_000;

/// The years taken off a drawn age before it is looked up in the table.
pub const AGE_OFFSET: u32 = 5;

/// The ages from `from_age` up to, but not including, `until_age`, with the
/// fertility rate of women of those ages.
#[derive(Debug, Clone, Copy, PartialEq, Eq, Structural)]
pub struct FertilityBand {
    pub from_age: u32,
    pub until_age: u32,
    pub rate: u32,
}

impl FertilityBand {
    /// Whether an age lies in the band.
    pub open spec fn contains(self, age: int) -> bool {
        self.from_age <= age < self.until_age
    }

    /// The band a year later.
    pub open spec fn decayed(self) -> FertilityBand {
        FertilityBand { rate: decayed_rate(self.rate), ..self }
    }
}

/// A rate a year later: one tenth less, unless it has reached the floor.
pub open spec fn decayed_rate(rate: u32) -> u32 {
    if rate > RATE_FLOOR {
        (rate - 1) as u32
    } else {
        rate
    }
}

/// A rate after a number of years.
pub open spec fn rate_after(rate: u32, years: nat) -> u32
    decreases years,
{
    if years == 0 {
        rate
    } else {
        decayed_rate(rate_after(rate, (years - 1) as nat))
    }
}

/// A table is usable if no band is empty, no rate lies under the floor, and
/// the bands follow each other in the order of their ages without overlap.
pub open spec fn bands_well_formed(bands: Seq<FertilityBand>) -> bool {
    &&& forall|i: int|
        0 <= i < bands.len() ==> (#[trigger] bands[i]).from_age < bands[i].until_age && bands[i].rate
            >= RATE_FLOOR
    &&& forall|i: int, j: int|
        0 <= i < j < bands.len() ==> (#[trigger] bands[i]).until_age <= (#[trigger] bands[j]).from_age
}

/// The rate of the first band that holds an age, if any does.
pub open spec fn rate_at(bands: Seq<FertilityBand>, age: int) -> Option<u32>
    decreases bands.len(),
{
    if bands.len() == 0 {
        None
    } else if bands[0].contains(age) {
        Some(bands[0].rate)
    } else {
        rate_at(bands.drop_first(), age)
    }
}

/// Whether a woman whose drawn age is `drawn_age` gives birth on a draw: her
/// age less the offset must lie in a band, and the draw under the band's rate.
pub open spec fn gives_birth(bands: Seq<FertilityBand>, drawn_age: u32, draw: u64) -> bool {
    match rate_at(bands, drawn_age - AGE_OFFSET) {
        Some(rate) => draw < rate,
        None => false,
    }
}

/// The seven bands of the ages 15 to 50.
pub open spec fn standard_bands() -> Seq<FertilityBand> {
    seq![
        FertilityBand { from_age: 15, until_age: 20, rate: 350 },
        FertilityBand { from_age: 20, until_age: 25, rate: 1050 },
        FertilityBand { from_age: 25, until_age: 30, rate: 1450 },
        FertilityBand { from_age: 30, until_age: 35, rate: 1250 },
        FertilityBand { from_age: 35, until_age: 40, rate: 750 },
        FertilityBand { from_age: 40, until_age: 45, rate: 350 },
        FertilityBand { from_age: 45, until_age: 50, rate: 250 },
    ]
}

/// The table a year later: every band decayed.
pub open spec fn decayed_bands(bands: Seq<FertilityBand>) -> Seq<FertilityBand> {
    Seq::new(bands.len(), |i: int| bands[i].decayed())
}

/// An ordered table of fertility bands.
pub struct FertilityTable {
    bands: Vec<FertilityBand>,
}

impl View for FertilityTable {
    type V = Seq<FertilityBand>;

    closed spec fn view(&self) -> Seq<FertilityBand> {
        self.bands@
    }
}

impl Clone for FertilityTable {
    fn clone(&self) -> (table: FertilityTable)
        ensures
            table@ == self@,
    {
        proof {
            use_type_invariant(self);
        }
        let mut bands: Vec<FertilityBand> = Vec::new();
        let mut i: usize = 0;
        while i < self.bands.len()
            invariant
                i <= self.bands.len(),
                bands@ == self.bands@.take(i as int),
            decreases self.bands.len() - i,
        {
            bands.push(self.bands[i]);
            assert(bands@ == self.bands@.take(i + 1));
            i += 1;
        }
        assert(bands@ == self.bands@);
        FertilityTable { bands }
    }
}

impl FertilityTable {
    #[verifier::type_invariant]
    spec fn well_formed(self) -> bool {
        bands_well_formed(self.bands@)
    }

    /// Takes the bands if they are well formed, and rejects them otherwise.
    pub fn new(bands: Vec<FertilityBand>) -> (table: Result<FertilityTable, SimulationError>)
        ensures
            bands_well_formed(bands@) ==> table.is_ok() && table.unwrap()@ == bands@,
            !bands_well_formed(bands@) ==> table == Err::<FertilityTable, SimulationError>(
                SimulationError::InvalidConfiguration,
            ),
    {
        let mut i: usize = 0;
        while i < bands.len()
            invariant
                i <= bands.len(),
                bands_well_formed(bands@.take(i as int)),
            decreases bands.len() - i,
        {
            let band = bands[i];
            if band.from_age >= band.until_age || band.rate < RATE_FLOOR {
                return Err(SimulationError::InvalidConfiguration);
            }
            if i > 0 && bands[i - 1].until_age > band.from_age {
                return Err(SimulationError::InvalidConfiguration);
            }
            proof {
                let before = bands@.take(i as int);
                let now = bands@.take(i + 1);
                assert forall|a: int, b: int| 0 <= a < b < now.len() implies (#[trigger] now[a]).until_age
                    <= (#[trigger] now[b]).from_age by {
                    if b < i {
                        assert(before[a].until_age <= before[b].from_age);
                    } else if a < i - 1 {
                        assert(before[a].until_age <= before[i - 1].from_age);
                    }
                }
                assert forall|a: int| 0 <= a < now.len() implies (#[trigger] now[a]).from_age
                    < now[a].until_age && now[a].rate >= RATE_FLOOR by {
                    if a < i {
                        assert(before[a].rate >= RATE_FLOOR);
                    }
                }
            }
            i += 1;
        }
        assert(bands@.take(i as int) == bands@);
        Ok(FertilityTable { bands })
    }

    /// The table of the seven bands of the ages 15 to 50.
    pub fn standard() -> (table: FertilityTable)
        ensures
            table@ == standard_bands(),
    {
        let mut bands: Vec<FertilityBand> = Vec::new();
        bands.push(FertilityBand { from_age: 15, until_age: 20, rate: 350 });
        bands.push(FertilityBand { from_age: 20, until_age: 25, rate: 1050 });
        bands.push(FertilityBand { from_age: 25, until_age: 30, rate: 1450 });
        bands.push(FertilityBand { from_age: 30, until_age: 35, rate: 1250 });
        bands.push(FertilityBand { from_age: 35, until_age: 40, rate: 750 });
        bands.push(FertilityBand { from_age: 40, until_age: 45, rate: 350 });
        bands.push(FertilityBand { from_age: 45, until_age: 50, rate: 250 });
        assert(bands@ == standard_bands());
        FertilityTable { bands }
    }

    /// The number of bands.
    pub fn len(&self) -> (len: usize)
        ensures
            len == self@.len(),
            bands_well_formed(self@),
    {
        proof {
            use_type_invariant(self);
        }
        self.bands.len()
    }

    /// The band at an index.
    pub fn band(&self, index: usize) -> (band: FertilityBand)
        requires
            index < self@.len(),
        ensures
            band == self@[index as int],
    {
        self.bands[index]
    }

    /// Lets a year pass: every rate above the floor falls by one tenth.
    pub fn decay(&mut self)
        ensures
            final(self)@ == decayed_bands(old(self)@),
    {
        proof {
            use_type_invariant(&*self);
        }
        let mut next: Vec<FertilityBand> = Vec::new();
        let mut i: usize = 0;
        while i < self.bands.len()
            invariant
                i <= self.bands.len(),
                *self == *old(self),
                next@ == decayed_bands(self.bands@).take(i as int),
            decreases self.bands.len() - i,
        {
            let band = self.bands[i];
            let rate: u32 = if band.rate > RATE_FLOOR {
                band.rate - 1
            } else {
                band.rate
            };
            next.push(FertilityBand { from_age: band.from_age, until_age: band.until_age, rate });
            assert(next@ == decayed_bands(self.bands@).take(i + 1));
            i += 1;
        }
        assert(next@ == decayed_bands(self.bands@));
        proof {
            lemma_decay_keeps_well_formed(self.bands@);
        }
        self.bands = next;
    }

    /// The rate at which a woman of a drawn age gives birth, if her age less
    /// the offset lies in a band.
    pub fn rate_for(&self, drawn_age: u32) -> (rate: Option<u32>)
        ensures
            rate == rate_at(self@, drawn_age - AGE_OFFSET),
    {
        if drawn_age < AGE_OFFSET {
            proof {
                use_type_invariant(self);
                lemma_no_band_below_zero(self.bands@, drawn_age - AGE_OFFSET);
            }
            return None;
        }
        let age: u32 = drawn_age - AGE_OFFSET;
        let mut i: usize = 0;
        assert(self.bands@.skip(0) == self.bands@);
        while i < self.bands.len()
            invariant
                i <= self.bands.len(),
                age == drawn_age - AGE_OFFSET,
                rate_at(self.bands@, age as int) == rate_at(self.bands@.skip(i as int), age as int),
            decreases self.bands.len() - i,
        {
            let band = self.bands[i];
            assert(self.bands@.skip(i as int)[0] == band);
            if band.from_age <= age && age < band.until_age {
                return Some(band.rate);
            }
            assert(self.bands@.skip(i as int).drop_first() == self.bands@.skip(i + 1));
            i += 1;
        }
        None
    }
}

/// The draws made for one member of the population in the pass that counts
/// births: whether the member is a woman, the age drawn for her, and the draw
/// against the rate of her band. For a man only the first counts, and the last
/// only for a woman whose age lies in a band.
#[derive(Debug, Clone, Copy, PartialEq, Eq, Structural)]
pub struct BirthDraws {
    pub female: bool,
    pub age: u32,
    pub draw: u64,
}

impl BirthDraws {
    /// Whether these draws can come about: the age is one that the table of
    /// quantiles gives around the median age, the draw is below its bound.
    pub open spec fn admissible(self, median_age: u64, quantiles: Seq<i64>) -> bool {
        &&& self.female ==> attainable_age(median_age, quantiles, self.age)
        &&& self.draw < BIRTH_DRAW_BOUND
    }

    /// Whether these draws bring a birth.
    pub open spec fn bears(self, bands: Seq<FertilityBand>) -> bool {
        self.female && gives_birth(bands, self.age, self.draw)
    }
}

/// The number of births among the members of a population.
pub open spec fn births_among(bands: Seq<FertilityBand>, members: Seq<BirthDraws>) -> nat
    decreases members.len(),
{
    if members.len() == 0 {
        0
    } else {
        births_among(bands, members.drop_last()) + if members.last().bears(bands) {
            1nat
        } else {
            0nat
        }
    }
}

/// There are draws for each member of a population of the given size, and
/// each member's draws can come about.
pub open spec fn members_admissible(
    population: u64,
    median_age: u64,
    quantiles: Seq<i64>,
    members: Seq<BirthDraws>,
) -> bool {
    &&& members.len() == population
    &&& forall|i: int|
        0 <= i < members.len() ==> (#[trigger] members[i]).admissible(median_age, quantiles)
}

/// The draws of a pass over a population of the given size can come about and
/// bring this number of births.
pub open spec fn births_explained(
    population: u64,
    median_age: u64,
    quantiles: Seq<i64>,
    bands: Seq<FertilityBand>,
    members: Seq<BirthDraws>,
    births: u64,
) -> bool {
    &&& members_admissible(population, median_age, quantiles, members)
    &&& births == births_among(bands, members)
}

/// Among a number of members there are no more births than members.
pub proof fn lemma_births_bounded(bands: Seq<FertilityBand>, members: Seq<BirthDraws>)
    ensures
        births_among(bands, members) <= members.len(),
    decreases members.len(),
{
    if members.len() > 0 {
        lemma_births_bounded(bands, members.drop_last());
    }
}

/// Whether the draws made for one member of the population bring a birth.
pub fn bears_child(fertility: &FertilityTable, draws: &BirthDraws) -> (born: bool)
    ensures
        born == draws.bears(fertility@),
{
    if !draws.female {
        return false;
    }
    match fertility.rate_for(draws.age) {
        Some(rate) => birth_occurs(rate, draws.draw),
        None => false,
    }
}

/// Counts the births of a year: one pass over the population, in which each
/// member is a woman with a chance of one half, a woman is given an age, and
/// a woman whose age less the offset lies in a band gives birth on a draw
/// under the band's rate.
///
/// The count is that of some admissible draws, one set for each member. The
/// pass fails only if the draw of an age does.
pub fn birth_pass(
    population: u64,
    median_age: u64,
    fertility: &FertilityTable,
    quantiles: &QuantileTable,
    source: &mut RandomSource,
) -> (births: Result<u64, SimulationError>)
    ensures
        births matches Ok(count) ==> count <= population && exists|members: Seq<BirthDraws>|
            births_explained(population, median_age, quantiles@, fertility@, members, count),
        births matches Err(reason) ==> reason == SimulationError::SamplingExhausted
            && !always_accepted(median_age, quantiles@) && population > 0,
{
    let mut births: u64 = 0;
    let mut member: u64 = 0;
    let ghost mut members: Seq<BirthDraws> = Seq::empty();
    while member < population
        invariant
            member <= population,
            births <= member,
            births_explained(member, median_age, quantiles@, fertility@, members, births),
        decreases population - member,
    {
        let female: bool = source.ratio(1, 2);
        let mut draws = BirthDraws { female, age: 0, draw: 0 };
        if female {
            match generate_age(median_age, quantiles, source) {
                Ok(age) => {
                    draws.age = age;
                    if fertility.rate_for(age).is_some() {
                        draws.draw = source.below(BIRTH_DRAW_BOUND);
                    }
                },
                Err(reason) => {
                    return Err(reason);
                },
            }
        }
        let born: bool = bears_child(fertility, &draws);
        proof {
            assert(members.push(draws).drop_last() == members);
            members = members.push(draws);
        }
        if born {
            births += 1;
        }
        member += 1;
    }
    assert(exists|members: Seq<BirthDraws>|
        births_explained(population, median_age, quantiles@, fertility@, members, births));
    Ok(births)
}

/// Whether a birth takes place on a draw against a rate.
pub fn birth_occurs(rate: u32, draw: u64) -> (born: bool)
    ensures
        born == (draw < rate),
{
    draw < rate as u64
}

/// No band holds a negative age.
pub proof fn lemma_no_band_below_zero(bands: Seq<FertilityBand>, age: int)
    requires
        age < 0,
    ensures
        rate_at(bands, age) == None::<u32>,
    decreases bands.len(),
{
    if bands.len() > 0 {
        lemma_no_band_below_zero(bands.drop_first(), age);
    }
}

/// A well-formed table is well formed a year later.
pub proof fn lemma_decay_keeps_well_formed(bands: Seq<FertilityBand>)
    requires
        bands_well_formed(bands),
    ensures
        bands_well_formed(decayed_bands(bands)),
{
    let next = decayed_bands(bands);
    assert forall|i: int| 0 <= i < next.len() implies (#[trigger] next[i]).from_age
        < next[i].until_age && next[i].rate >= RATE_FLOOR by {
        assert(bands[i].rate >= RATE_FLOOR);
    }
    assert forall|i: int, j: int| 0 <= i < j < next.len() implies (#[trigger] next[i]).until_age
        <= (#[trigger] next[j]).from_age by {
        assert(bands[i].until_age <= bands[j].from_age);
    }
}

/// A fertility rate never rises from one year to the next, and a rate that
/// has not been under the floor does not fall under it.
pub proof fn lemma_rate_never_rises(rate: u32, years: nat)
    ensures
        rate_after(rate, years + 1) <= rate_after(rate, years),
        rate_after(rate, years) <= rate,
        rate >= RATE_FLOOR ==> rate_after(rate, years) >= RATE_FLOOR,
    decreases years,
{
    reveal_with_fuel(rate_after, 2);
    if years > 0 {
        lemma_rate_never_rises(rate, (years - 1) as nat);
    }
}

/// After a number of years a rate that started at the floor or above it has
/// lost one tenth for each year, and stands at the floor if that would take it
/// below.
pub proof fn lemma_rate_after_years(rate: u32, years: nat)
    requires
        rate >= RATE_FLOOR,
    ensures
        rate_after(rate, years) == if rate - years > RATE_FLOOR {
            rate - years
        } else {
            RATE_FLOOR as int
        },
    decreases years,
{
    if years > 0 {
        lemma_rate_after_years(rate, (years - 1) as nat);
    }
}

} // verus!
