//! The engine: one step for each simulated year, and the run that strings
//! the steps together.
//!
//! A year begins with the roll for a catastrophe. Then the fertility table and
//! the growth bonus decay, the bonus multiplies the population while it lasts,
//! and the births of the year are counted and added. Then the deaths are
//! counted and taken away. Where the death rate has overtaken the birth rate
//! the median age moves up. The head count at the end of the year is added to
//! the curve.

use crate::age::{always_accepted, candidate_age, AgeGenerator};
use crate::bean::{
    bean_births, bean_deaths, children_among, children_explained, dead_among, dead_explained,
    fates_admissible, lemma_children_bounded, parents_admissible, BeanFate, ParentDraws,
};
use crate::config::SimulationConfig;
use crate::disaster::{
    after_disaster, lemma_nuclear_war_toll, roll_disaster, strike, Disaster, DisasterEvent,
    DisasterKind,
};
use crate::error::SimulationError;
use crate::fertility::{
    bands_well_formed, birth_pass, births_among, births_explained, decayed_bands,
    lemma_births_bounded, lemma_rate_never_rises, members_admissible, rate_after,
    standard_bands, BirthDraws, FertilityBand, FertilityTable, RATE_FLOOR,
};
use crate::mortality::{
    deaths_among, deaths_explained, individuals_admissible, lemma_deaths_bounded, mortality_pass,
    LifeDraws,
};
use crate::normal::{quantiles_well_formed, QuantileTable};
use crate::random::RandomSource;
use crate::settings::Settings;
use vstd::prelude::*;

verus! {

/// The median age at the start of a run, in millionths of a year: 30.8 years.
pub const INITIAL_MEDIAN_AGE: u64 = 30_800_000;

/// The growth bonus at the start of a run, in hundredths: 1.05.
pub const INITIAL_GROWTH_BONUS: u32 = 105;

/// The growth bonus of 1.0, which no longer multiplies the population.
pub const NO_GROWTH: u32 = 100;

/// One whole of a rate, which is written in millionths.
pub const RATE_WHOLE: u64 = 1_000_000;

/// What a run carries from one year to the next.
pub struct EngineState {
    pub population: u64,
    pub median_age: u64,
    pub bands: Seq<FertilityBand>,
    pub growth_bonus: u32,
}

/// The draws of one year: the catastrophe that was rolled, if any, and the
/// draws made for each member of the population in the two passes.
pub struct YearDraws {
    pub disaster: Option<Disaster>,
    pub members: Seq<BirthDraws>,
    pub individuals: Seq<LifeDraws>,
}

/// The growth bonus a year later: one hundredth less, down to nothing.
pub open spec fn decayed_bonus(bonus: u32) -> u32 {
    if bonus > 0 {
        (bonus - 1) as u32
    } else {
        0
    }
}

/// A population multiplied by the growth bonus and rounded up, or left as it
/// is by a bonus that is not above 1.0. It stops at `u64::MAX`.
pub open spec fn grown(population: u64, bonus: u32) -> u64 {
    if bonus <= NO_GROWTH {
        population
    } else if (population * bonus + 99) / 100 > u64::MAX {
        u64::MAX
    } else {
        ((population * bonus + 99) / 100) as u64
    }
}

/// A population with the births of a year added. It stops at `u64::MAX`.
pub open spec fn with_births(population: u64, births: nat) -> u64 {
    if population + births > u64::MAX {
        u64::MAX
    } else {
        (population + births) as u64
    }
}

/// A count as a rate of a population, in millionths and rounded down. In an
/// empty population the rate is zero.
pub open spec fn rate_of(count: nat, population: u64) -> int {
    if population == 0 {
        0
    } else {
        (count * RATE_WHOLE) / (population as int)
    }
}

/// The median age after a year: where the death rate lies above the birth
/// rate, it has moved up by a hundredth of the difference. It stops at
/// `u64::MAX`.
pub open spec fn aged(median_age: u64, birth_rate: int, death_rate: int) -> u64 {
    if death_rate <= birth_rate {
        median_age
    } else if median_age + (death_rate - birth_rate) / 100 > u64::MAX {
        u64::MAX
    } else {
        (median_age + (death_rate - birth_rate) / 100) as u64
    }
}

impl EngineState {
    /// The state before the first year.
    pub open spec fn initial(config: SimulationConfig, bands: Seq<FertilityBand>) -> EngineState {
        EngineState {
            population: config.population,
            median_age: INITIAL_MEDIAN_AGE,
            bands,
            growth_bonus: INITIAL_GROWTH_BONUS,
        }
    }

    /// The head count after the catastrophe and the growth bonus of a year,
    /// which is the population that the births are counted in.
    pub open spec fn mothers_pool(self, draws: YearDraws) -> u64 {
        grown(after_disaster(self.population, draws.disaster), decayed_bonus(self.growth_bonus))
    }

    /// The births of a year.
    pub open spec fn births(self, draws: YearDraws) -> nat {
        births_among(decayed_bands(self.bands), draws.members)
    }

    /// The head count after the births of a year, which is the population that
    /// the deaths are counted in.
    pub open spec fn exposed(self, draws: YearDraws) -> u64 {
        with_births(self.mothers_pool(draws), self.births(draws))
    }

    /// The deaths of a year.
    pub open spec fn deaths(self, config: SimulationConfig, draws: YearDraws) -> nat {
        deaths_among(config.diet_settings, config.habit_settings, draws.individuals)
    }

    /// The head count at the end of a year: those exposed less the dead, and
    /// nobody where that would be less than nobody.
    pub open spec fn alive(self, config: SimulationConfig, draws: YearDraws) -> u64 {
        if self.deaths(config, draws) >= self.exposed(draws) {
            0
        } else {
            (self.exposed(draws) - self.deaths(config, draws)) as u64
        }
    }

    /// Whether the draws of a year can come about in this state: a
    /// catastrophe kills a percentage in the band of its kind, and each pass
    /// has admissible draws for each member of the population that it runs
    /// over.
    pub open spec fn allows(
        self,
        config: SimulationConfig,
        quantiles: Seq<i64>,
        draws: YearDraws,
    ) -> bool {
        &&& draws.disaster matches Some(d) ==> d.kind.can_kill(d.deaths_pct)
        &&& members_admissible(
            self.mothers_pool(draws),
            self.median_age,
            quantiles,
            draws.members,
        )
        &&& individuals_admissible(
            self.exposed(draws),
            self.median_age,
            quantiles,
            draws.individuals,
        )
    }

    /// The state after a year with the given draws.
    pub open spec fn next(self, config: SimulationConfig, draws: YearDraws) -> EngineState {
        EngineState {
            population: self.alive(config, draws),
            median_age: aged(
                self.median_age,
                rate_of(self.births(draws), self.mothers_pool(draws)),
                rate_of(self.deaths(config, draws), self.alive(config, draws)),
            ),
            bands: decayed_bands(self.bands),
            growth_bonus: decayed_bonus(self.growth_bonus),
        }
    }
}

/// The state after the years whose draws are given, from the first on.
pub open spec fn run_state(
    config: SimulationConfig,
    bands: Seq<FertilityBand>,
    years: Seq<YearDraws>,
) -> EngineState
    decreases years.len(),
{
    if years.len() == 0 {
        EngineState::initial(config, bands)
    } else {
        run_state(config, bands, years.drop_last()).next(config, years.last())
    }
}

/// Whether the draws of each year can come about in the state that the years
/// before it leave.
pub open spec fn run_admissible(
    config: SimulationConfig,
    quantiles: Seq<i64>,
    bands: Seq<FertilityBand>,
    years: Seq<YearDraws>,
) -> bool
    decreases years.len(),
{
    years.len() == 0 || (run_admissible(config, quantiles, bands, years.drop_last()) && run_state(
        config,
        bands,
        years.drop_last(),
    ).allows(config, quantiles, years.last()))
}

/// The population curve of a run: the initial head count, then the head count
/// at the end of each year.
pub open spec fn run_curve(
    config: SimulationConfig,
    bands: Seq<FertilityBand>,
    years: Seq<YearDraws>,
) -> Seq<u64>
    decreases years.len(),
{
    if years.len() == 0 {
        seq![config.population]
    } else {
        run_curve(config, bands, years.drop_last()).push(run_state(config, bands, years).population)
    }
}

/// The log of a run: the catastrophes in the order of their years, the first
/// year being year 0.
pub open spec fn run_log(years: Seq<YearDraws>) -> Seq<DisasterEvent>
    decreases years.len(),
{
    if years.len() == 0 {
        Seq::empty()
    } else {
        match years.last().disaster {
            Some(d) => run_log(years.drop_last()).push(
                DisasterEvent {
                    year: (years.len() - 1) as u64,
                    kind: d.kind,
                    deaths_pct: d.deaths_pct,
                },
            ),
            None => run_log(years.drop_last()),
        }
    }
}

/// The curve and the log are those of a run over the configured number of
/// years with the given draws, which can come about.
pub open spec fn run_explained(
    config: SimulationConfig,
    quantiles: Seq<i64>,
    bands: Seq<FertilityBand>,
    years: Seq<YearDraws>,
    curve: Seq<u64>,
    log: Seq<DisasterEvent>,
) -> bool {
    &&& years.len() == config.years
    &&& run_admissible(config, quantiles, bands, years)
    &&& curve == run_curve(config, bands, years)
    &&& log == run_log(years)
}

/// A curve has one entry more than the run has years. It begins with the
/// configured head count and ends with the head count of the last state.
pub proof fn lemma_curve_shape(
    config: SimulationConfig,
    bands: Seq<FertilityBand>,
    years: Seq<YearDraws>,
)
    ensures
        run_curve(config, bands, years).len() == years.len() + 1,
        run_curve(config, bands, years)[0] == config.population,
        run_curve(config, bands, years).last() == run_state(config, bands, years).population,
    decreases years.len(),
{
    if years.len() > 0 {
        lemma_curve_shape(config, bands, years.drop_last());
    }
}

/// An entry of a curve is the head count that the years before it leave.
pub proof fn lemma_curve_entry(
    config: SimulationConfig,
    bands: Seq<FertilityBand>,
    years: Seq<YearDraws>,
    year: int,
)
    requires
        0 <= year <= years.len(),
    ensures
        run_curve(config, bands, years).len() == years.len() + 1,
        run_curve(config, bands, years)[year] == run_state(
            config,
            bands,
            years.take(year),
        ).population,
    decreases years.len(),
{
    lemma_curve_shape(config, bands, years);
    if year == years.len() {
        assert(years.take(year) == years);
    } else {
        lemma_curve_entry(config, bands, years.drop_last(), year);
        assert(years.drop_last().take(year) == years.take(year));
    }
}

/// No head count of a curve is negative, and in a year whose draws can come
/// about no step takes away more people than there are: a catastrophe kills
/// no more than the population, no more are born than there are members to
/// bear them, and no more die than were exposed.
pub proof fn lemma_population_never_negative(
    config: SimulationConfig,
    quantiles: Seq<i64>,
    bands: Seq<FertilityBand>,
    years: Seq<YearDraws>,
    year: int,
)
    requires
        0 <= year < years.len(),
        run_admissible(config, quantiles, bands, years),
    ensures
        run_curve(config, bands, years)[year] >= 0,
        run_curve(config, bands, years)[year + 1] >= 0,
        ({
            let before = run_state(config, bands, years.take(year));
            let draws = years[year];
            &&& after_disaster(before.population, draws.disaster) <= before.population
            &&& before.births(draws) <= before.mothers_pool(draws)
            &&& before.deaths(config, draws) <= before.exposed(draws)
            &&& run_curve(config, bands, years)[year + 1] == before.exposed(draws) - before.deaths(
                config,
                draws,
            )
        }),
    decreases years.len(),
{
    if year == years.len() - 1 {
        let before = run_state(config, bands, years.drop_last());
        let draws = years.last();
        assert(years.take(year) == years.drop_last());
        lemma_births_bounded(decayed_bands(before.bands), draws.members);
        lemma_deaths_bounded(config.diet_settings, config.habit_settings, draws.individuals);
        lemma_curve_shape(config, bands, years);
    } else {
        lemma_population_never_negative(config, quantiles, bands, years.drop_last(), year);
        assert(years.drop_last().take(year) == years.take(year));
        lemma_curve_shape(config, bands, years.drop_last());
    }
}

/// In the year of a nuclear war the catastrophe removes at least half of the
/// population that the year began with and, in a population of a hundred or
/// more, less than nine tenths of it. In a smaller one rounding up may add one
/// person to that.
pub proof fn lemma_nuclear_war_year(
    state: EngineState,
    config: SimulationConfig,
    quantiles: Seq<i64>,
    draws: YearDraws,
)
    requires
        state.allows(config, quantiles, draws),
        draws.disaster matches Some(d) && d.kind == DisasterKind::NuclearWar,
    ensures
        ({
            let removed = state.population - after_disaster(state.population, draws.disaster);
            &&& 50 * state.population <= 100 * removed
            &&& 100 * removed < 90 * state.population + 100
            &&& state.population >= 100 ==> 100 * removed < 90 * state.population
        }),
{
    lemma_nuclear_war_toll(state.population, draws.disaster.unwrap().deaths_pct);
}

/// After any number of years each fertility band has its ages and the rate
/// that so many years of decay leave of its first rate.
pub proof fn lemma_bands_after_years(
    config: SimulationConfig,
    bands: Seq<FertilityBand>,
    years: Seq<YearDraws>,
)
    ensures
        run_state(config, bands, years).bands.len() == bands.len(),
        forall|i: int|
            0 <= i < bands.len() ==> #[trigger] run_state(config, bands, years).bands[i] == (
            FertilityBand { rate: rate_after(bands[i].rate, years.len()), ..bands[i] }),
    decreases years.len(),
{
    if years.len() > 0 {
        lemma_bands_after_years(config, bands, years.drop_last());
    }
}

/// The fertility rate of a band never rises from one year to the next, and
/// in a well-formed table it never falls under the floor.
pub proof fn lemma_fertility_never_rises(
    config: SimulationConfig,
    bands: Seq<FertilityBand>,
    years: Seq<YearDraws>,
    band: int,
)
    requires
        years.len() > 0,
        0 <= band < bands.len(),
    ensures
        run_state(config, bands, years).bands.len() == bands.len(),
        run_state(config, bands, years.drop_last()).bands.len() == bands.len(),
        run_state(config, bands, years).bands[band].rate <= run_state(
            config,
            bands,
            years.drop_last(),
        ).bands[band].rate,
        bands_well_formed(bands) ==> run_state(config, bands, years).bands[band].rate
            >= RATE_FLOOR,
{
    lemma_bands_after_years(config, bands, years);
    lemma_bands_after_years(config, bands, years.drop_last());
    lemma_rate_never_rises(bands[band].rate, (years.len() - 1) as nat);
    lemma_rate_never_rises(bands[band].rate, years.len());
}

/// The growth bonus never rises: after any number of years it has lost one
/// hundredth for each year, down to nothing.
pub proof fn lemma_bonus_after_years(
    config: SimulationConfig,
    bands: Seq<FertilityBand>,
    years: Seq<YearDraws>,
)
    ensures
        run_state(config, bands, years).growth_bonus == if years.len() < INITIAL_GROWTH_BONUS {
            INITIAL_GROWTH_BONUS - years.len()
        } else {
            0
        },
    decreases years.len(),
{
    if years.len() > 0 {
        lemma_bonus_after_years(config, bands, years.drop_last());
    }
}

/// The median age never falls in the course of a run.
pub proof fn lemma_median_age_never_falls(
    config: SimulationConfig,
    bands: Seq<FertilityBand>,
    years: Seq<YearDraws>,
)
    ensures
        run_state(config, bands, years).median_age >= INITIAL_MEDIAN_AGE,
        years.len() > 0 ==> run_state(config, bands, years).median_age >= run_state(
            config,
            bands,
            years.drop_last(),
        ).median_age,
    decreases years.len(),
{
    if years.len() > 0 {
        lemma_median_age_never_falls(config, bands, years.drop_last());
    }
}

/// A run is determined by its configuration, its tables and its draws: two
/// runs that agree in these have the same curve and the same log.
pub proof fn lemma_run_determined_by_draws(
    config: SimulationConfig,
    quantiles: Seq<i64>,
    bands: Seq<FertilityBand>,
    years: Seq<YearDraws>,
    first_curve: Seq<u64>,
    first_log: Seq<DisasterEvent>,
    second_curve: Seq<u64>,
    second_log: Seq<DisasterEvent>,
)
    requires
        run_explained(config, quantiles, bands, years, first_curve, first_log),
        run_explained(config, quantiles, bands, years, second_curve, second_log),
    ensures
        first_curve == second_curve,
        first_log == second_log,
{
}

/// A run over no years leaves the configured head count as the whole curve,
/// and an empty log.
pub proof fn lemma_no_years(
    config: SimulationConfig,
    quantiles: Seq<i64>,
    bands: Seq<FertilityBand>,
    years: Seq<YearDraws>,
    curve: Seq<u64>,
    log: Seq<DisasterEvent>,
)
    requires
        config.years == 0,
        run_explained(config, quantiles, bands, years, curve, log),
    ensures
        curve == seq![config.population],
        log == Seq::<DisasterEvent>::empty(),
{
}

/// The growth bonus a year later.
pub fn decay_bonus(bonus: u32) -> (next: u32)
    ensures
        next == decayed_bonus(bonus),
{
    if bonus > 0 {
        bonus - 1
    } else {
        0
    }
}

/// A population after the growth bonus has acted on it.
pub fn grow(population: u64, bonus: u32) -> (next: u64)
    ensures
        next == grown(population, bonus),
{
    if bonus <= NO_GROWTH {
        return population;
    }
    assert(population * bonus <= 0xffff_ffff_ffff_ffff * 0xffff_ffff) by (nonlinear_arith)
        requires
            population <= 0xffff_ffff_ffff_ffff,
            bonus <= 0xffff_ffff,
    ;
    let product: u128 = population as u128 * bonus as u128;
    let rounded: u128 = (product + 99) / 100;
    if rounded > u64::MAX as u128 {
        u64::MAX
    } else {
        rounded as u64
    }
}

/// A population with the births of a year added.
pub fn add_births(population: u64, births: u64) -> (next: u64)
    ensures
        next == with_births(population, births as nat),
{
    if births > u64::MAX - population {
        u64::MAX
    } else {
        population + births
    }
}

/// A count as a rate of a population, in millionths.
pub fn rate(count: u64, population: u64) -> (rate: u128)
    ensures
        rate == rate_of(count as nat, population),
{
    if population == 0 {
        return 0;
    }
    assert(count * RATE_WHOLE <= 0xffff_ffff_ffff_ffff * 1_000_000) by (nonlinear_arith)
        requires
            count <= 0xffff_ffff_ffff_ffff,
            RATE_WHOLE == 1_000_000,
    ;
    (count as u128 * RATE_WHOLE as u128) / population as u128
}

/// The median age after a year with the given rates of birth and death.
pub fn age_median(median_age: u64, birth_rate: u128, death_rate: u128) -> (next: u64)
    ensures
        next == aged(median_age, birth_rate as int, death_rate as int),
        next >= median_age,
{
    if death_rate <= birth_rate {
        return median_age;
    }
    let rise: u128 = (death_rate - birth_rate) / 100;
    if rise > (u64::MAX - median_age) as u128 {
        u64::MAX
    } else {
        median_age + rise as u64
    }
}


/// The median age of the agent model, in millionths of a year: 30.5 years.
pub const BEAN_MEDIAN_AGE: i64 = 30_500_000;

/// The generator that the agent model draws ages from.
pub open spec fn bean_generator() -> AgeGenerator {
    AgeGenerator { median_age: BEAN_MEDIAN_AGE }
}

/// The draws of one year of the agent model: those made for each member of
/// the population in the pass that counts the births, and the fate of the
/// bean made for each member in the pass that counts the deaths.
pub struct AgentYear {
    pub parents: Seq<ParentDraws>,
    pub fates: Seq<BeanFate>,
}

impl AgentYear {
    /// The head count after the births of the year.
    pub open spec fn grown(self, before: u64) -> u64 {
        with_births(before, children_among(self.parents))
    }

    /// The head count at the end of the year: those after the births less the
    /// dead, and nobody where that would be less than nobody.
    pub open spec fn alive(self, before: u64) -> u64 {
        if dead_among(self.fates) >= self.grown(before) {
            0
        } else {
            (self.grown(before) - dead_among(self.fates)) as u64
        }
    }

    /// Whether the draws of the year can come about in a population of the
    /// given settings and head count.
    pub open spec fn allowed(self, settings: Settings, before: u64) -> bool {
        &&& parents_admissible(before, bean_generator(), self.parents)
        &&& fates_admissible(self.grown(before), settings, bean_generator(), self.fates)
    }
}

/// The head count of the agent model after the years whose draws are given.
pub open spec fn agent_population(settings: Settings, years: Seq<AgentYear>) -> u64
    decreases years.len(),
{
    if years.len() == 0 {
        settings.population as u64
    } else {
        years.last().alive(agent_population(settings, years.drop_last()))
    }
}

/// Whether the draws of each year can come about in the population that the
/// years before it leave.
pub open spec fn agent_admissible(settings: Settings, years: Seq<AgentYear>) -> bool
    decreases years.len(),
{
    years.len() == 0 || (agent_admissible(settings, years.drop_last()) && years.last().allowed(
        settings,
        agent_population(settings, years.drop_last()),
    ))
}

/// The population curve of a run of the agent model: the head count at the
/// end of each year.
pub open spec fn agent_curve(settings: Settings, years: Seq<AgentYear>) -> Seq<u64>
    decreases years.len(),
{
    if years.len() == 0 {
        Seq::empty()
    } else {
        agent_curve(settings, years.drop_last()).push(agent_population(settings, years))
    }
}

/// The curve is that of a run of the agent model over the given number of
/// years with the given draws, which can come about.
pub open spec fn agent_explained(
    total: u64,
    settings: Settings,
    years: Seq<AgentYear>,
    curve: Seq<u64>,
) -> bool {
    &&& years.len() == total
    &&& agent_admissible(settings, years)
    &&& curve == agent_curve(settings, years)
}

/// A year of the agent model at most doubles the head count that it begins
/// with, whatever its draws, if they can come about.
pub proof fn lemma_agent_year_doubles_at_most(settings: Settings, before: u64, year: AgentYear)
    requires
        year.allowed(settings, before),
    ensures
        year.alive(before) <= 2 * before,
{
    lemma_children_bounded(year.parents);
}

/// What a run gives back: the population curve and the log of catastrophes.
pub struct SimulationResult {
    population: u64,
    population_curve: Vec<u64>,
    log: Vec<DisasterEvent>,
}

impl SimulationResult {
    /// The head count at the end of the run.
    pub closed spec fn population(&self) -> u64 {
        self.population
    }

    /// The initial head count, then the head count at the end of each year.
    pub closed spec fn curve(&self) -> Seq<u64> {
        self.population_curve@
    }

    /// The catastrophes of the run, in the order of their years.
    pub closed spec fn events(&self) -> Seq<DisasterEvent> {
        self.log@
    }

    /// The head count at the end of the run.
    pub fn get_population(&self) -> (population: u64)
        ensures
            population == self.population(),
    {
        self.population
    }

    /// The initial head count, then the head count at the end of each year.
    pub fn get_population_curve(&self) -> (curve: Vec<u64>)
        ensures
            curve@ == self.curve(),
    {
        let mut curve: Vec<u64> = Vec::new();
        let mut i: usize = 0;
        while i < self.population_curve.len()
            invariant
                i <= self.population_curve.len(),
                curve@ == self.population_curve@.take(i as int),
            decreases self.population_curve.len() - i,
        {
            curve.push(self.population_curve[i]);
            assert(curve@ == self.population_curve@.take(i + 1));
            i += 1;
        }
        assert(curve@ == self.population_curve@);
        curve
    }

    /// The catastrophes of the run, in the order of their years.
    pub fn get_log(&self) -> (log: Vec<DisasterEvent>)
        ensures
            log@ == self.events(),
    {
        let mut log: Vec<DisasterEvent> = Vec::new();
        let mut i: usize = 0;
        while i < self.log.len()
            invariant
                i <= self.log.len(),
                log@ == self.log@.take(i as int),
            decreases self.log.len() - i,
        {
            log.push(self.log[i]);
            assert(log@ == self.log@.take(i + 1));
            i += 1;
        }
        assert(log@ == self.log@);
        log
    }
}

impl SimulationResult {
    /// The log in words, one text for each catastrophe.
    pub fn log_messages(&self) -> (messages: Vec<String>)
        ensures
            messages@.len() == self.events().len(),
            forall|i: int|
                0 <= i < messages@.len() ==> (#[trigger] messages@[i])@
                    == self.events()[i].spec_message(),
    {
        let mut messages: Vec<String> = Vec::new();
        let mut i: usize = 0;
        while i < self.log.len()
            invariant
                i <= self.log.len(),
                messages@.len() == i,
                forall|k: int|
                    0 <= k < i ==> (#[trigger] messages@[k])@ == self.log@[k].spec_message(),
            decreases self.log.len() - i,
        {
            messages.push(self.log[i].message());
            i += 1;
        }
        messages
    }
}

/// A configured run, with the tables it draws on and its source of random
/// draws.
pub struct Simulation {
    config: SimulationConfig,
    quantiles: QuantileTable,
    fertility: FertilityTable,
    source: RandomSource,
}

impl Simulation {
    /// The settings of the run.
    pub closed spec fn config(&self) -> SimulationConfig {
        self.config
    }

    /// The table of quantiles that ages are drawn from.
    pub closed spec fn quantiles(&self) -> Seq<i64> {
        self.quantiles@
    }

    /// The fertility bands at the start of a run.
    pub closed spec fn bands(&self) -> Seq<FertilityBand> {
        self.fertility@
    }

    /// A run with the standard fertility bands, whose draws are fixed by the
    /// seed.
    pub fn new(config: SimulationConfig, quantiles: QuantileTable, seed: u64) -> (simulation:
        Simulation)
        ensures
            simulation.config() == config,
            simulation.quantiles() == quantiles@,
            simulation.bands() == standard_bands(),
    {
        Simulation {
            config,
            quantiles,
            fertility: FertilityTable::standard(),
            source: RandomSource::from_seed(seed),
        }
    }

    /// A run with tables of the caller's own, which are taken if they are
    /// well formed and rejected otherwise.
    pub fn configure(
        config: SimulationConfig,
        quantiles: Vec<i64>,
        bands: Vec<FertilityBand>,
        seed: u64,
    ) -> (simulation: Result<Simulation, SimulationError>)
        ensures
            quantiles_well_formed(quantiles@) && bands_well_formed(bands@) ==> simulation.is_ok()
                && simulation.unwrap().config() == config && simulation.unwrap().quantiles()
                == quantiles@ && simulation.unwrap().bands() == bands@,
            !(quantiles_well_formed(quantiles@) && bands_well_formed(bands@)) ==> (simulation
                matches Err(reason) && reason == SimulationError::InvalidConfiguration),
    {
        let quantiles = match QuantileTable::new(quantiles) {
            Ok(table) => table,
            Err(reason) => {
                return Err(reason);
            },
        };
        let fertility = match FertilityTable::new(bands) {
            Ok(table) => table,
            Err(reason) => {
                return Err(reason);
            },
        };
        Ok(Simulation { config, quantiles, fertility, source: RandomSource::from_seed(seed) })
    }

    /// Runs the configured number of years.
    ///
    /// The curve has one entry for the initial head count and one for each
    /// year. Curve and log are those of some draws that can come about, year
    /// by year. The run fails only if the draw of an age does, which cannot
    /// happen where the lowest entry of the table of quantiles gives an age
    /// around the initial median age, nor where there are no years to run or
    /// nobody to draw an age for.
    pub fn simulate(&mut self) -> (outcome: Result<SimulationResult, SimulationError>)
        ensures
            final(self).config() == old(self).config(),
            final(self).quantiles() == old(self).quantiles(),
            final(self).bands() == old(self).bands(),
            outcome matches Ok(result) ==> {
                &&& result.curve().len() == old(self).config().years + 1
                &&& result.curve()[0] == old(self).config().population
                &&& result.population() == result.curve().last()
                &&& exists|years: Seq<YearDraws>|
                    run_explained(
                        old(self).config(),
                        old(self).quantiles(),
                        old(self).bands(),
                        years,
                        result.curve(),
                        result.events(),
                    )
            },
            outcome matches Err(reason) ==> reason == SimulationError::SamplingExhausted
                && !always_accepted(INITIAL_MEDIAN_AGE, old(self).quantiles()) && old(
                self,
            ).config().years > 0 && old(self).config().population > 0,
    {
        let config = self.config;
        let ghost bands = self.fertility@;
        let mut fertility = self.fertility.clone();
        let mut population: u64 = config.population;
        let mut median_age: u64 = INITIAL_MEDIAN_AGE;
        let mut bonus: u32 = INITIAL_GROWTH_BONUS;
        let mut curve: Vec<u64> = Vec::new();
        curve.push(population);
        let mut log: Vec<DisasterEvent> = Vec::new();
        let ghost mut years: Seq<YearDraws> = Seq::empty();
        let mut year: u64 = 0;
        while year < config.years
            invariant
                self.config == config,
                self.config == old(self).config,
                self.quantiles@ == old(self).quantiles@,
                self.fertility@ == bands,
                bands == old(self).fertility@,
                year <= config.years,
                years.len() == year,
                median_age >= INITIAL_MEDIAN_AGE,
                config.population == 0 ==> population == 0,
                run_admissible(config, self.quantiles@, bands, years),
                run_state(config, bands, years) == (EngineState {
                    population,
                    median_age,
                    bands: fertility@,
                    growth_bonus: bonus,
                }),
                curve@ == run_curve(config, bands, years),
                curve@.len() == year + 1,
                curve@[0] == config.population,
                curve@.last() == population,
                log@ == run_log(years),
            decreases config.years - year,
        {
            let ghost before = run_state(config, bands, years);
            let disaster = roll_disaster(&mut self.source);
            match disaster {
                Some(d) => {
                    population = strike(population, d.deaths_pct);
                    log.push(DisasterEvent { year, kind: d.kind, deaths_pct: d.deaths_pct });
                },
                None => {},
            }
            fertility.decay();
            bonus = decay_bonus(bonus);
            population = grow(population, bonus);
            let pool: u64 = population;
            let births: u64 = match birth_pass(
                pool,
                median_age,
                &fertility,
                &self.quantiles,
                &mut self.source,
            ) {
                Ok(count) => count,
                Err(reason) => {
                    assert(candidate_age(INITIAL_MEDIAN_AGE, self.quantiles@[0]) <= candidate_age(
                        median_age,
                        self.quantiles@[0],
                    ));
                    return Err(reason);
                },
            };
            let ghost members = choose|members: Seq<BirthDraws>|
                births_explained(
                    pool,
                    median_age,
                    self.quantiles@,
                    fertility@,
                    members,
                    births,
                );
            let birth_rate: u128 = rate(births, pool);
            population = add_births(pool, births);
            let exposed: u64 = population;
            let deaths: u64 = match mortality_pass(
                exposed,
                median_age,
                &config.diet_settings,
                &config.habit_settings,
                &self.quantiles,
                &mut self.source,
            ) {
                Ok(count) => count,
                Err(reason) => {
                    assert(candidate_age(INITIAL_MEDIAN_AGE, self.quantiles@[0]) <= candidate_age(
                        median_age,
                        self.quantiles@[0],
                    ));
                    return Err(reason);
                },
            };
            let ghost individuals = choose|individuals: Seq<LifeDraws>|
                deaths_explained(
                    exposed,
                    median_age,
                    self.quantiles@,
                    config.diet_settings,
                    config.habit_settings,
                    individuals,
                    deaths,
                );
            population = exposed - deaths;
            let death_rate: u128 = rate(deaths, population);
            median_age = age_median(median_age, birth_rate, death_rate);
            curve.push(population);
            proof {
                let draws = YearDraws { disaster, members, individuals };
                assert(years.push(draws).drop_last() == years);
                years = years.push(draws);
                assert(before.allows(config, self.quantiles@, draws));
            }
            year += 1;
        }
        let result = SimulationResult { population, population_curve: curve, log };
        assert(run_explained(
            old(self).config(),
            old(self).quantiles(),
            old(self).bands(),
            years,
            result.curve(),
            result.events(),
        ));
        Ok(result)
    }

    /// Runs the agent model for the configured number of years, on a
    /// population of beans with the given settings.
    ///
    /// In a year the births are counted and added, then a bean is made for
    /// each member of the population, and the member is taken away if the bean
    /// dies. The curve has the head count at the end of each year, and is that
    /// of some draws that can come about, year by year. The log stays empty.
    pub fn long(&mut self, settings: &Settings) -> (result: SimulationResult)
        requires
            settings.shares_valid(),
        ensures
            final(self).config() == old(self).config(),
            final(self).quantiles() == old(self).quantiles(),
            final(self).bands() == old(self).bands(),
            result.curve().len() == old(self).config().years,
            result.events().len() == 0,
            result.population() == if result.curve().len() == 0 {
                settings.population as u64
            } else {
                result.curve().last()
            },
            exists|years: Seq<AgentYear>|
                agent_explained(old(self).config().years, *settings, years, result.curve()),
    {
        let total: u64 = self.config.years;
        let age_gen = AgeGenerator::new(BEAN_MEDIAN_AGE);
        let mut population: u64 = settings.population as u64;
        let mut curve: Vec<u64> = Vec::new();
        let ghost mut years: Seq<AgentYear> = Seq::empty();
        let mut year: u64 = 0;
        while year < total
            invariant
                self.config == old(self).config,
                self.quantiles@ == old(self).quantiles@,
                self.fertility@ == old(self).fertility@,
                total == self.config.years,
                year <= total,
                years.len() == year,
                curve@.len() == year,
                settings.shares_valid(),
                age_gen == bean_generator(),
                population == agent_population(*settings, years),
                population == if curve@.len() == 0 {
                    settings.population as u64
                } else {
                    curve@.last()
                },
                agent_admissible(*settings, years),
                curve@ == agent_curve(*settings, years),
            decreases total - year,
        {
            let before: u64 = population;
            let births: u64 = bean_births(before, &age_gen, &mut self.source);
            let ghost parents = choose|parents: Seq<ParentDraws>|
                children_explained(before, age_gen, parents, births);
            let grown: u64 = add_births(before, births);
            let deaths: u64 = bean_deaths(grown, settings, &age_gen, &mut self.source);
            let ghost fates = choose|fates: Seq<BeanFate>|
                dead_explained(grown, *settings, age_gen, fates, deaths);
            population = grown - deaths;
            curve.push(population);
            proof {
                let draws = AgentYear { parents, fates };
                assert(years.push(draws).drop_last() == years);
                years = years.push(draws);
                assert(draws.allowed(*settings, before));
            }
            year += 1;
        }
        let result = SimulationResult { population, population_curve: curve, log: Vec::new() };
        assert(agent_explained(old(self).config().years, *settings, years, result.curve()));
        result
    }
}

} // verus!
