//! The mortality model: what one simulated individual dies of in a year, if
//! of anything.
//!
//! An individual has an age and fourteen covariates, each drawn around the
//! level that the configuration gives for the population. From the covariates
//! follow the rates of five causes of death. The causes are tried in a fixed
//! order, each against a draw of its own, and the first cause whose draw falls
//! under its rate is the one the individual dies of.
//!
//! A rate is a percentage in fixed point: `RATE_PER_PERCENT` units make 1%.
//! A draw against a rate is uniform over `0..RATE_DRAW_BOUND`, that is over
//! 0% to 100%.

use crate::age::{always_accepted, attainable_age, generate_age};
use crate::config::{Diet, Habits, HALF, WHOLE};
use crate::error::SimulationError;
use crate::normal::QuantileTable;
use crate::random::{Draw, RandomSource};
use vstd::prelude::*;

verus! {

/// Units of rate in one percent.
pub const RATE_PER_PERCENT: i64 = 10_000_000;

/// A draw against a rate is uniform below this bound, which stands for 100%.
pub const RATE_DRAW_BOUND: u64 = 1_000_000_000;

/// A covariate's jitter is drawn uniformly below this bound: one whole.
pub const JITTER_BOUND: u64 = 1_000_000;

/// A draw against a flat percentage is uniform below this bound.
pub const PERCENT_DRAW_BOUND: u64 = 100;

/// Rate of death by cardiovascular disease before any covariate acts: 0.2%.
pub const CARDIOVASCULAR_BASELINE: i64 = 2_000_000;

/// Rate of death by cancer before any covariate acts: 0.13%.
pub const CANCER_BASELINE: i64 = 1_300_000;

/// Rate of death by respiratory disease before any covariate acts: 0.05%.
pub const RESPIRATORY_BASELINE: i64 = 500_000;

/// Rate of death by digestive disease before any covariate acts: 0.02%.
pub const DIGESTIVE_BASELINE: i64 = 200_000;

/// Rate of death by lower respiratory infection before any covariate acts:
/// 0.01%.
pub const LOWER_RESPIRATORY_BASELINE: i64 = 100_000;

/// Below this age an individual is exposed to neonatal disease.
pub const NEONATAL_AGE: u32 = 10;

/// Flat chance of death by neonatal disease, in percent.
pub const NEONATAL_PERCENT: u64 = 20;

/// Above this age an individual is exposed to dementia.
pub const DEMENTIA_AGE: u32 = 65;

/// Flat chance of death by dementia, in percent.
pub const DEMENTIA_PERCENT: u64 = 5;

/// A covariate of one individual: the population's level moved by a jitter
/// that is uniform over one whole and centred on zero, then taken without its
/// sign.
pub open spec fn jittered(level: u32, jitter: u32) -> u64 {
    let moved = level + jitter - HALF;
    if moved < 0 {
        (-moved) as u64
    } else {
        moved as u64
    }
}

/// By how much a covariate lies above one whole; zero if it does not.
pub open spec fn excess(covariate: u64) -> int {
    if covariate > WHOLE {
        covariate - WHOLE
    } else {
        0
    }
}

/// The lifestyle and diet of one individual, in millionths.
#[derive(Debug, Clone, Copy, PartialEq, Eq, Structural)]
pub struct Covariates {
    pub calcium: u64,
    pub sugar: u64,
    pub solid_fats: u64,
    pub salt: u64,
    pub fibre: u64,
    pub smoking: u64,
    pub alcohol: u64,
    pub binge_drinking: u64,
    pub vaping: u64,
    pub exercise: u64,
    pub sleep: u64,
    pub hydration: u64,
    pub anti_vaccination: u64,
    pub drugs: u64,
}

/// The jitter of each covariate of one individual.
#[derive(Debug, Clone, Copy, PartialEq, Eq, Structural)]
pub struct Jitters {
    pub calcium: u32,
    pub sugar: u32,
    pub solid_fats: u32,
    pub salt: u32,
    pub fibre: u32,
    pub smoking: u32,
    pub alcohol: u32,
    pub binge_drinking: u32,
    pub vaping: u32,
    pub exercise: u32,
    pub sleep: u32,
    pub hydration: u32,
    pub anti_vaccination: u32,
    pub drugs: u32,
}

impl Jitters {
    /// Every jitter is below its bound.
    pub open spec fn admissible(self) -> bool {
        &&& self.calcium < JITTER_BOUND
        &&& self.sugar < JITTER_BOUND
        &&& self.solid_fats < JITTER_BOUND
        &&& self.salt < JITTER_BOUND
        &&& self.fibre < JITTER_BOUND
        &&& self.smoking < JITTER_BOUND
        &&& self.alcohol < JITTER_BOUND
        &&& self.binge_drinking < JITTER_BOUND
        &&& self.vaping < JITTER_BOUND
        &&& self.exercise < JITTER_BOUND
        &&& self.sleep < JITTER_BOUND
        &&& self.hydration < JITTER_BOUND
        &&& self.anti_vaccination < JITTER_BOUND
        &&& self.drugs < JITTER_BOUND
    }

    /// The jitter that leaves every covariate at the population's level.
    pub open spec fn centred() -> Jitters {
        Jitters {
            calcium: HALF,
            sugar: HALF,
            solid_fats: HALF,
            salt: HALF,
            fibre: HALF,
            smoking: HALF,
            alcohol: HALF,
            binge_drinking: HALF,
            vaping: HALF,
            exercise: HALF,
            sleep: HALF,
            hydration: HALF,
            anti_vaccination: HALF,
            drugs: HALF,
        }
    }

    /// The jitter that leaves every covariate at the population's level.
    pub fn none() -> (jitters: Jitters)
        ensures
            jitters == Jitters::centred(),
    {
        Jitters {
            calcium: HALF,
            sugar: HALF,
            solid_fats: HALF,
            salt: HALF,
            fibre: HALF,
            smoking: HALF,
            alcohol: HALF,
            binge_drinking: HALF,
            vaping: HALF,
            exercise: HALF,
            sleep: HALF,
            hydration: HALF,
            anti_vaccination: HALF,
            drugs: HALF,
        }
    }
}

impl Covariates {
    /// Covariates that all have the same value.
    pub open spec fn all_at(value: u64) -> Covariates {
        Covariates {
            calcium: value,
            sugar: value,
            solid_fats: value,
            salt: value,
            fibre: value,
            smoking: value,
            alcohol: value,
            binge_drinking: value,
            vaping: value,
            exercise: value,
            sleep: value,
            hydration: value,
            anti_vaccination: value,
            drugs: value,
        }
    }

    /// The covariates of an individual of a population with the given diet and
    /// habits, for the given jitters.
    pub open spec fn of(diet: Diet, habits: Habits, jitters: Jitters) -> Covariates {
        Covariates {
            calcium: jittered(diet.calcium, jitters.calcium),
            sugar: jittered(diet.sugar, jitters.sugar),
            solid_fats: jittered(diet.solid_fats, jitters.solid_fats),
            salt: jittered(diet.salt, jitters.salt),
            fibre: jittered(diet.fibre, jitters.fibre),
            smoking: jittered(habits.smoking, jitters.smoking),
            alcohol: jittered(habits.alcohol, jitters.alcohol),
            binge_drinking: jittered(habits.binge_drinking, jitters.binge_drinking),
            vaping: jittered(habits.vaping, jitters.vaping),
            exercise: jittered(habits.exercise, jitters.exercise),
            sleep: jittered(habits.sleep, jitters.sleep),
            hydration: jittered(habits.hydration, jitters.hydration),
            anti_vaccination: jittered(habits.anti_vaccination, jitters.anti_vaccination),
            drugs: jittered(habits.drugs, jitters.drugs),
        }
    }

    /// Rate of death by cardiovascular disease.
    ///
    /// Sugar, solid fats, smoking, binge drinking and drugs above one whole
    /// add 0.02% for every tenth above it; salt and vaping add 0.01%; fibre
    /// and exercise take 0.01% away. Smoking below one whole takes a flat
    /// 0.02% away; otherwise alcohol moves the rate by 0.01% for every tenth
    /// that it lies above one whole, or below it. Sleep under one half adds a
    /// flat 0.01%.
    pub open spec fn spec_cardiovascular_rate(self) -> int {
        CARDIOVASCULAR_BASELINE + 2 * excess(self.sugar) + 2 * excess(self.solid_fats) + excess(
            self.salt,
        ) - excess(self.fibre) + 2 * excess(self.smoking) + (if self.smoking < WHOLE {
            -200_000
        } else {
            self.alcohol - WHOLE
        }) + 2 * excess(self.binge_drinking) + excess(self.vaping) - excess(self.exercise) + (
        if self.sleep < HALF {
            100_000int
        } else {
            0
        }) + 2 * excess(self.drugs)
    }

    /// Rate of death by cancer: solid fats, smoking and binge drinking above
    /// one whole add 0.02% for every tenth above it; salt, alcohol and vaping
    /// add 0.01%.
    pub open spec fn spec_cancer_rate(self) -> int {
        CANCER_BASELINE + 2 * excess(self.solid_fats) + excess(self.salt) + 2 * excess(
            self.smoking,
        ) + excess(self.alcohol) + 2 * excess(self.binge_drinking) + excess(self.vaping)
    }

    /// Rate of death by respiratory disease: smoking above one whole adds
    /// 0.02% for every tenth above it, vaping 0.01%.
    pub open spec fn spec_respiratory_rate(self) -> int {
        RESPIRATORY_BASELINE + 2 * excess(self.smoking) + excess(self.vaping)
    }

    /// Rate of death by digestive disease: solid fats and salt above one
    /// whole add 0.01% each for every tenth above it.
    pub open spec fn spec_digestive_rate(self) -> int {
        DIGESTIVE_BASELINE + excess(self.solid_fats) + excess(self.salt)
    }

    /// Rate of death by lower respiratory infection: smoking and vaping above
    /// one whole add 0.01% each for every tenth above it.
    pub open spec fn spec_lower_respiratory_rate(self) -> int {
        LOWER_RESPIRATORY_BASELINE + excess(self.smoking) + excess(self.vaping)
    }
}


/// The cause that an individual died of.
#[derive(Debug, Clone, Copy, PartialEq, Eq, Structural)]
pub enum CauseOfDeath {
    Cardiovascular,
    Cancer,
    Respiratory,
    Digestive,
    LowerRespiratory,
    Neonatal,
    Dementia,
}

/// The draws that decide the fate of one individual, one for each cause. The
/// first five are uniform below `RATE_DRAW_BOUND`, the last two below
/// `PERCENT_DRAW_BOUND`.
#[derive(Debug, Clone, Copy, PartialEq, Eq, Structural)]
pub struct CauseDraws {
    pub cardiovascular: u64,
    pub cancer: u64,
    pub respiratory: u64,
    pub digestive: u64,
    pub lower_respiratory: u64,
    pub neonatal: u64,
    pub dementia: u64,
}

impl CauseDraws {
    /// Every draw is below its bound.
    pub open spec fn admissible(self) -> bool {
        &&& self.cardiovascular < RATE_DRAW_BOUND
        &&& self.cancer < RATE_DRAW_BOUND
        &&& self.respiratory < RATE_DRAW_BOUND
        &&& self.digestive < RATE_DRAW_BOUND
        &&& self.lower_respiratory < RATE_DRAW_BOUND
        &&& self.neonatal < PERCENT_DRAW_BOUND
        &&& self.dementia < PERCENT_DRAW_BOUND
    }
}

/// What an individual of the given age and covariates dies of in a year.
///
/// The causes are tried in the order of `CauseOfDeath`. An individual dies of the
/// first cause whose draw lies under its rate, and no later cause is looked
/// at. Neonatal disease only threatens those under `NEONATAL_AGE`, dementia
/// only those over `DEMENTIA_AGE`.
pub open spec fn cause_of_death(age: u32, covariates: Covariates, draws: CauseDraws) -> Option<
    CauseOfDeath,
> {
    if draws.cardiovascular < covariates.spec_cardiovascular_rate() {
        Some(CauseOfDeath::Cardiovascular)
    } else if draws.cancer < covariates.spec_cancer_rate() {
        Some(CauseOfDeath::Cancer)
    } else if draws.respiratory < covariates.spec_respiratory_rate() {
        Some(CauseOfDeath::Respiratory)
    } else if draws.digestive < covariates.spec_digestive_rate() {
        Some(CauseOfDeath::Digestive)
    } else if draws.lower_respiratory < covariates.spec_lower_respiratory_rate() {
        Some(CauseOfDeath::LowerRespiratory)
    } else if age < NEONATAL_AGE && draws.neonatal < NEONATAL_PERCENT {
        Some(CauseOfDeath::Neonatal)
    } else if age > DEMENTIA_AGE && draws.dementia < DEMENTIA_PERCENT {
        Some(CauseOfDeath::Dementia)
    } else {
        None
    }
}

/// The covariate of one individual for a level and a jitter.
pub fn apply_jitter(level: u32, jitter: u32) -> (covariate: u64)
    ensures
        covariate == jittered(level, jitter),
{
    let moved: i64 = level as i64 + jitter as i64 - HALF as i64;
    if moved < 0 {
        (-moved) as u64
    } else {
        moved as u64
    }
}

fn excess_of(covariate: u64) -> (above: i128)
    ensures
        above == excess(covariate),
        0 <= above <= u64::MAX,
{
    if covariate > WHOLE as u64 {
        (covariate - WHOLE as u64) as i128
    } else {
        0
    }
}

/// Whether a draw falls under a rate, so that the cause strikes.
pub fn strikes(draw: u64, rate: i128) -> (hit: bool)
    ensures
        hit == (draw < rate),
{
    (draw as i128) < rate
}

impl Covariates {
    /// The covariates of one individual of a population.
    pub fn sample(diet: &Diet, habits: &Habits, jitters: &Jitters) -> (covariates: Covariates)
        ensures
            covariates == Covariates::of(*diet, *habits, *jitters),
    {
        Covariates {
            calcium: apply_jitter(diet.calcium, jitters.calcium),
            sugar: apply_jitter(diet.sugar, jitters.sugar),
            solid_fats: apply_jitter(diet.solid_fats, jitters.solid_fats),
            salt: apply_jitter(diet.salt, jitters.salt),
            fibre: apply_jitter(diet.fibre, jitters.fibre),
            smoking: apply_jitter(habits.smoking, jitters.smoking),
            alcohol: apply_jitter(habits.alcohol, jitters.alcohol),
            binge_drinking: apply_jitter(habits.binge_drinking, jitters.binge_drinking),
            vaping: apply_jitter(habits.vaping, jitters.vaping),
            exercise: apply_jitter(habits.exercise, jitters.exercise),
            sleep: apply_jitter(habits.sleep, jitters.sleep),
            hydration: apply_jitter(habits.hydration, jitters.hydration),
            anti_vaccination: apply_jitter(habits.anti_vaccination, jitters.anti_vaccination),
            drugs: apply_jitter(habits.drugs, jitters.drugs),
        }
    }

    pub fn cardiovascular_rate(&self) -> (rate: i128)
        ensures
            rate == self.spec_cardiovascular_rate(),
    {
        let diet: i128 = 2 * excess_of(self.sugar) + 2 * excess_of(self.solid_fats) + excess_of(
            self.salt,
        ) - excess_of(self.fibre);
        let smoking: i128 = if self.smoking < WHOLE as u64 {
            -200_000
        } else {
            self.alcohol as i128 - WHOLE as i128
        };
        let sleep: i128 = if self.sleep < HALF as u64 {
            100_000
        } else {
            0
        };
        let habits: i128 = 2 * excess_of(self.smoking) + smoking + 2 * excess_of(
            self.binge_drinking,
        ) + excess_of(self.vaping) - excess_of(self.exercise) + sleep + 2 * excess_of(self.drugs);
        CARDIOVASCULAR_BASELINE as i128 + diet + habits
    }

    pub fn cancer_rate(&self) -> (rate: i128)
        ensures
            rate == self.spec_cancer_rate(),
    {
        let mut rate: i128 = CANCER_BASELINE as i128;
        rate = rate + 2 * excess_of(self.solid_fats);
        rate = rate + excess_of(self.salt);
        rate = rate + 2 * excess_of(self.smoking);
        rate = rate + excess_of(self.alcohol);
        rate = rate + 2 * excess_of(self.binge_drinking);
        rate = rate + excess_of(self.vaping);
        rate
    }

    pub fn respiratory_rate(&self) -> (rate: i128)
        ensures
            rate == self.spec_respiratory_rate(),
    {
        RESPIRATORY_BASELINE as i128 + 2 * excess_of(self.smoking) + excess_of(self.vaping)
    }

    pub fn digestive_rate(&self) -> (rate: i128)
        ensures
            rate == self.spec_digestive_rate(),
    {
        DIGESTIVE_BASELINE as i128 + excess_of(self.solid_fats) + excess_of(self.salt)
    }

    pub fn lower_respiratory_rate(&self) -> (rate: i128)
        ensures
            rate == self.spec_lower_respiratory_rate(),
    {
        LOWER_RESPIRATORY_BASELINE as i128 + excess_of(self.smoking) + excess_of(self.vaping)
    }
}

/// What an individual of the given age and covariates dies of in a year, for
/// the given draws; `None` if the individual lives on.
pub fn first_cause(age: u32, covariates: &Covariates, draws: &CauseDraws) -> (cause: Option<CauseOfDeath>)
    ensures
        cause == cause_of_death(age, *covariates, *draws),
{
    if strikes(draws.cardiovascular, covariates.cardiovascular_rate()) {
        return Some(CauseOfDeath::Cardiovascular);
    }
    if strikes(draws.cancer, covariates.cancer_rate()) {
        return Some(CauseOfDeath::Cancer);
    }
    if strikes(draws.respiratory, covariates.respiratory_rate()) {
        return Some(CauseOfDeath::Respiratory);
    }
    if strikes(draws.digestive, covariates.digestive_rate()) {
        return Some(CauseOfDeath::Digestive);
    }
    if strikes(draws.lower_respiratory, covariates.lower_respiratory_rate()) {
        return Some(CauseOfDeath::LowerRespiratory);
    }
    if age < NEONATAL_AGE && draws.neonatal < NEONATAL_PERCENT {
        return Some(CauseOfDeath::Neonatal);
    }
    if age > DEMENTIA_AGE && draws.dementia < DEMENTIA_PERCENT {
        return Some(CauseOfDeath::Dementia);
    }
    None
}


/// The draws made for one individual in the pass that counts deaths: an age,
/// the jitter of each covariate, and a draw for each cause.
#[derive(Debug, Clone, Copy, PartialEq, Eq, Structural)]
pub struct LifeDraws {
    pub age: u32,
    pub jitters: Jitters,
    pub causes: CauseDraws,
}

impl LifeDraws {
    /// Whether these draws can come about: the age is one that the table of
    /// quantiles gives around the median age, and every other draw is below
    /// its bound.
    pub open spec fn admissible(self, median_age: u64, quantiles: Seq<i64>) -> bool {
        &&& attainable_age(median_age, quantiles, self.age)
        &&& self.jitters.admissible()
        &&& self.causes.admissible()
    }

    /// What the individual dies of in a population of the given diet and
    /// habits, if of anything.
    pub open spec fn fate(self, diet: Diet, habits: Habits) -> Option<CauseOfDeath> {
        cause_of_death(self.age, Covariates::of(diet, habits, self.jitters), self.causes)
    }
}

/// The number of deaths among the individuals of a population.
pub open spec fn deaths_among(diet: Diet, habits: Habits, individuals: Seq<LifeDraws>) -> nat
    decreases individuals.len(),
{
    if individuals.len() == 0 {
        0
    } else {
        deaths_among(diet, habits, individuals.drop_last()) + if individuals.last().fate(
            diet,
            habits,
        ).is_some() {
            1nat
        } else {
            0nat
        }
    }
}

/// There are draws for each individual of a population of the given size,
/// and each individual's draws can come about.
pub open spec fn individuals_admissible(
    population: u64,
    median_age: u64,
    quantiles: Seq<i64>,
    individuals: Seq<LifeDraws>,
) -> bool {
    &&& individuals.len() == population
    &&& forall|i: int|
        0 <= i < individuals.len() ==> (#[trigger] individuals[i]).admissible(
            median_age,
            quantiles,
        )
}

/// The draws of a pass over a population of the given size can come about and
/// bring this number of deaths.
pub open spec fn deaths_explained(
    population: u64,
    median_age: u64,
    quantiles: Seq<i64>,
    diet: Diet,
    habits: Habits,
    individuals: Seq<LifeDraws>,
    deaths: u64,
) -> bool {
    &&& individuals_admissible(population, median_age, quantiles, individuals)
    &&& deaths == deaths_among(diet, habits, individuals)
}

/// Among a number of individuals there are no more deaths than individuals.
pub proof fn lemma_deaths_bounded(diet: Diet, habits: Habits, individuals: Seq<LifeDraws>)
    ensures
        deaths_among(diet, habits, individuals) <= individuals.len(),
    decreases individuals.len(),
{
    if individuals.len() > 0 {
        lemma_deaths_bounded(diet, habits, individuals.drop_last());
    }
}

/// What one individual dies of, if of anything, for the draws made for it.
pub fn fate_of(diet: &Diet, habits: &Habits, draws: &LifeDraws) -> (cause: Option<CauseOfDeath>)
    ensures
        cause == draws.fate(*diet, *habits),
{
    let covariates = Covariates::sample(diet, habits, &draws.jitters);
    first_cause(draws.age, &covariates, &draws.causes)
}

/// Draws the jitter of one covariate: one draw from the source below
/// `JITTER_BOUND`, which is the jitter.
fn draw_jitter(source: &mut RandomSource) -> (jitter: u32)
    ensures
        jitter < JITTER_BOUND,
        final(source).continues(
            *old(source),
            seq![Draw::Below { bound: JITTER_BOUND, value: jitter as u64 }],
        ),
{
    source.below(JITTER_BOUND) as u32
}

/// Draws the jitter of each covariate of one individual.
pub fn draw_jitters(source: &mut RandomSource) -> (jitters: Jitters)
    ensures
        jitters.admissible(),
{
    let calcium: u32 = draw_jitter(source);
    let sugar: u32 = draw_jitter(source);
    let solid_fats: u32 = draw_jitter(source);
    let salt: u32 = draw_jitter(source);
    let fibre: u32 = draw_jitter(source);
    let smoking: u32 = draw_jitter(source);
    let alcohol: u32 = draw_jitter(source);
    let binge_drinking: u32 = draw_jitter(source);
    let vaping: u32 = draw_jitter(source);
    let exercise: u32 = draw_jitter(source);
    let sleep: u32 = draw_jitter(source);
    let hydration: u32 = draw_jitter(source);
    let anti_vaccination: u32 = draw_jitter(source);
    let drugs: u32 = draw_jitter(source);
    Jitters {
        calcium,
        sugar,
        solid_fats,
        salt,
        fibre,
        smoking,
        alcohol,
        binge_drinking,
        vaping,
        exercise,
        sleep,
        hydration,
        anti_vaccination,
        drugs,
    }
}

/// The draws from a source that give the draws against the causes of death:
/// one for each cause, in the order of the causes, the first five below
/// `RATE_DRAW_BOUND` and the last two below `PERCENT_DRAW_BOUND`.
pub open spec fn cause_draws_made(draws: CauseDraws) -> Seq<Draw> {
    seq![
        Draw::Below { bound: RATE_DRAW_BOUND, value: draws.cardiovascular },
        Draw::Below { bound: RATE_DRAW_BOUND, value: draws.cancer },
        Draw::Below { bound: RATE_DRAW_BOUND, value: draws.respiratory },
        Draw::Below { bound: RATE_DRAW_BOUND, value: draws.digestive },
        Draw::Below { bound: RATE_DRAW_BOUND, value: draws.lower_respiratory },
        Draw::Below { bound: PERCENT_DRAW_BOUND, value: draws.neonatal },
        Draw::Below { bound: PERCENT_DRAW_BOUND, value: draws.dementia },
    ]
}

/// Draws against each cause of death for one individual: seven draws from
/// the source, one for each cause and in the order of the causes.
pub fn draw_causes(source: &mut RandomSource) -> (draws: CauseDraws)
    ensures
        draws.admissible(),
        final(source).continues(*old(source), cause_draws_made(draws)),
{
    let cardiovascular: u64 = source.below(RATE_DRAW_BOUND);
    let cancer: u64 = source.below(RATE_DRAW_BOUND);
    let respiratory: u64 = source.below(RATE_DRAW_BOUND);
    let digestive: u64 = source.below(RATE_DRAW_BOUND);
    let lower_respiratory: u64 = source.below(RATE_DRAW_BOUND);
    let neonatal: u64 = source.below(PERCENT_DRAW_BOUND);
    let dementia: u64 = source.below(PERCENT_DRAW_BOUND);
    let draws = CauseDraws {
        cardiovascular,
        cancer,
        respiratory,
        digestive,
        lower_respiratory,
        neonatal,
        dementia,
    };
    assert(source.drawn() =~= old(source).drawn() + cause_draws_made(draws));
    draws
}

/// Counts the deaths of a year: one pass over the population, in which each
/// individual is given an age and covariates and dies of the first cause
/// whose draw lies under its rate.
///
/// The count is that of some admissible draws, one set for each individual.
/// The pass fails only if the draw of an age does.
pub fn mortality_pass(
    population: u64,
    median_age: u64,
    diet: &Diet,
    habits: &Habits,
    quantiles: &QuantileTable,
    source: &mut RandomSource,
) -> (deaths: Result<u64, SimulationError>)
    ensures
        deaths matches Ok(count) ==> count <= population && exists|individuals: Seq<LifeDraws>|
            deaths_explained(
                population,
                median_age,
                quantiles@,
                *diet,
                *habits,
                individuals,
                count,
            ),
        deaths matches Err(reason) ==> reason == SimulationError::SamplingExhausted
            && !always_accepted(median_age, quantiles@) && population > 0,
{
    let mut deaths: u64 = 0;
    let mut individual: u64 = 0;
    let ghost mut individuals: Seq<LifeDraws> = Seq::empty();
    while individual < population
        invariant
            individual <= population,
            deaths <= individual,
            deaths_explained(
                individual,
                median_age,
                quantiles@,
                *diet,
                *habits,
                individuals,
                deaths,
            ),
        decreases population - individual,
    {
        let age: u32 = match generate_age(median_age, quantiles, source) {
            Ok(age) => age,
            Err(reason) => {
                return Err(reason);
            },
        };
        let jitters = draw_jitters(source);
        let causes = draw_causes(source);
        let draws = LifeDraws { age, jitters, causes };
        let dies: bool = fate_of(diet, habits, &draws).is_some();
        proof {
            assert(individuals.push(draws).drop_last() == individuals);
            individuals = individuals.push(draws);
        }
        if dies {
            deaths += 1;
        }
        individual += 1;
    }
    assert(exists|individuals: Seq<LifeDraws>|
        deaths_explained(
            population,
            median_age,
            quantiles@,
            *diet,
            *habits,
            individuals,
            deaths,
        ));
    Ok(deaths)
}

/// Where every covariate stands at one whole, each cause has its baseline
/// rate.
pub proof fn lemma_baseline_rates()
    ensures
        Covariates::all_at(WHOLE as u64).spec_cardiovascular_rate() == CARDIOVASCULAR_BASELINE,
        Covariates::all_at(WHOLE as u64).spec_cancer_rate() == CANCER_BASELINE,
        Covariates::all_at(WHOLE as u64).spec_respiratory_rate() == RESPIRATORY_BASELINE,
        Covariates::all_at(WHOLE as u64).spec_digestive_rate() == DIGESTIVE_BASELINE,
        Covariates::all_at(WHOLE as u64).spec_lower_respiratory_rate()
            == LOWER_RESPIRATORY_BASELINE,
        CARDIOVASCULAR_BASELINE * 5 == RATE_PER_PERCENT,
{
}

/// A jitter at the centre leaves a covariate at the level of the population.
pub proof fn lemma_centred_jitter(diet: Diet, habits: Habits)
    ensures
        Covariates::of(diet, habits, Jitters::centred()).sugar == diet.sugar,
        Covariates::of(diet, habits, Jitters::centred()).smoking == habits.smoking,
        forall|level: u32| jittered(level, HALF) == level,
{
}

} // verus!
