//! Beans: the members of the population in the agent model. A bean has an age
//! and factors, drawn when it is made, and dies in a year with a chance that
//! follows from them.
//!
//! The risk of a bean is written in ten-thousandths; a bean dies with a
//! chance of a tenth of its risk.

use crate::age::AgeGenerator;
use crate::config::WHOLE;
use crate::factors::{Factors, Fat, Salt, Sugar, Vitamins, Wealth};
use crate::random::{Draw, RandomSource};
use crate::settings::Settings;
use vstd::prelude::*;

verus! {

/// The risk of a bean is drawn against this: a risk of `RISK_BOUND` would be
/// certain death.
pub const RISK_BOUND: u32 = 100_000;

/// Below this age a bean carries the risks of the first bundle.
pub const FIRST_BUNDLE_AGE: u32 = 50;

/// Below this age, and not below `FIRST_BUNDLE_AGE`, a bean would carry the
/// risks of the second bundle. No age is both, so no bean ever carries them.
pub const SECOND_BUNDLE_AGE: u32 = 10;

/// How far the sugar, the salt and the fat of a bean may lie from the
/// population's, either way.
pub const DIET_SPREAD: u32 = 500_000;

/// How far the vitamins of a bean may lie from the population's, either way.
pub const VITAMIN_SPREAD: u32 = 600_000;

/// The least wealth of a bean of the upper class.
pub const UPPER_CLASS_WEALTH: u32 = 800_000;

/// The most wealth of a bean that is not of the upper class, where there is
/// one.
pub const LOWER_CLASS_WEALTH: u32 = 700_000;

/// The draws that make a bean.
#[derive(Debug, Clone, Copy, PartialEq, Eq, Structural)]
pub struct BeanDraws {
    pub age: i32,
    pub alcoholism: bool,
    pub smoker: bool,
    pub binge_drinker: bool,
    pub smokes_weed: bool,
    pub vaper: bool,
    pub hard_drugger: bool,
    /// Uniform from nothing up to twice `DIET_SPREAD`.
    pub sugar: u32,
    pub salt: u32,
    pub fat: u32,
    /// Uniform from nothing up to twice `VITAMIN_SPREAD`.
    pub vitamins: u32,
    /// Whether the bean is of the upper class; drawn only in a population
    /// whose wealth factor is negative.
    pub upper_class: bool,
    /// Uniform over the wealth that the class of the bean leaves room for.
    pub wealth: u32,
}

/// A level of the population moved for one bean: the draw, less the spread,
/// is added, and the sign is dropped.
pub open spec fn spread_around(level: u32, spread: u32, draw: u32) -> u64 {
    let moved = level - spread + draw;
    if moved < 0 {
        (-moved) as u64
    } else {
        moved as u64
    }
}

/// The most that the draw for the wealth of a bean can be.
pub open spec fn wealth_room(settings: Settings, upper_class: bool) -> u32 {
    if settings.wealth_factor < 0 {
        if upper_class {
            (WHOLE - UPPER_CLASS_WEALTH) as u32
        } else {
            LOWER_CLASS_WEALTH
        }
    } else {
        WHOLE
    }
}

/// The wealth of a bean.
pub open spec fn wealth_of(settings: Settings, upper_class: bool, draw: u32) -> u64 {
    if settings.wealth_factor < 0 && upper_class {
        (UPPER_CLASS_WEALTH + draw) as u64
    } else {
        draw as u64
    }
}

impl BeanDraws {
    /// Whether these draws can come about in a population.
    pub open spec fn admissible(self, settings: Settings, generator: AgeGenerator) -> bool {
        &&& generator.gives(self.age)
        &&& self.sugar <= 2 * DIET_SPREAD
        &&& self.salt <= 2 * DIET_SPREAD
        &&& self.fat <= 2 * DIET_SPREAD
        &&& self.vitamins <= 2 * VITAMIN_SPREAD
        &&& self.wealth <= wealth_room(settings, self.upper_class)
        &&& settings.drinkers == 0 ==> !self.alcoholism && !self.binge_drinker
        &&& settings.smokers == 0 ==> !self.smoker
        &&& settings.weed_smokers == 0 ==> !self.smokes_weed
        &&& settings.vapers == 0 ==> !self.vaper
        &&& settings.hard_drugger == 0 ==> !self.hard_drugger
        &&& settings.drinkers == WHOLE ==> self.alcoholism && self.binge_drinker
        &&& settings.smokers == WHOLE ==> self.smoker
        &&& settings.weed_smokers == WHOLE ==> self.smokes_weed
        &&& settings.vapers == WHOLE ==> self.vaper
        &&& settings.hard_drugger == WHOLE ==> self.hard_drugger
    }

    /// The age of the bean that these draws make: the drawn age without its
    /// sign.
    pub open spec fn bean_age(self) -> u32 {
        if self.age < 0 {
            (-self.age) as u32
        } else {
            self.age as u32
        }
    }

    /// The factors of the bean that these draws make.
    pub open spec fn bean_factors(self, settings: Settings) -> Factors {
        Factors {
            alcoholism: self.alcoholism,
            binge_drinker: self.binge_drinker,
            smokes_weed: self.smokes_weed,
            smokes_cigarettes: self.smoker,
            smokes_vape: self.vaper,
            consumes_hard_drugs: self.hard_drugger,
            sugar: Sugar { value: spread_around(settings.sugar, DIET_SPREAD, self.sugar) },
            salt: Salt { value: spread_around(settings.salt, DIET_SPREAD, self.salt) },
            fat: Fat { value: spread_around(settings.fat, DIET_SPREAD, self.fat) },
            vitamins: Vitamins {
                value: spread_around(settings.vitamins, VITAMIN_SPREAD, self.vitamins),
            },
            wealth: Wealth { value: wealth_of(settings, self.upper_class, self.wealth) },
        }
    }
}

/// The risk that every bean carries: infection, diabetes and cardiovascular
/// disease.
pub const COMMON_RISK: u32 = 100 + 300 + 700;

/// The risk that the age of a bean adds.
///
/// A bean under `FIRST_BUNDLE_AGE` carries the risks of cancer, respiratory
/// and digestive disease, dementia, liver and kidney disease. The risks of
/// neonatal and diarrheal disease and of malnutrition are carried by beans
/// that are not under `FIRST_BUNDLE_AGE` and yet under `SECOND_BUNDLE_AGE`, of
/// which there are none.
pub open spec fn age_risk(age: u32) -> nat {
    if age < FIRST_BUNDLE_AGE {
        300 + 200 + 100 + 200 + 100 + 100
    } else if age < SECOND_BUNDLE_AGE {
        200 + 100 + 100
    } else {
        0
    }
}

/// The risk that a habit adds where the bean has it.
pub open spec fn habit(present: bool, risk: nat) -> nat {
    if present {
        risk
    } else {
        0
    }
}

/// The risk that the habits of a bean add: cigarettes, vaping, weed, hard
/// drugs, binge drinking and alcoholism, each by the diseases it furthers.
pub open spec fn habit_risk(factors: Factors) -> nat {
    habit(factors.smokes_cigarettes, 200 + 300 + 200) + habit(factors.smokes_vape, 100 + 200 + 100)
        + habit(factors.smokes_weed, 50 + 3) + habit(factors.consumes_hard_drugs, 900 + 500)
        + habit(factors.binge_drinker, 200 + 300) + habit(factors.alcoholism, 50)
}

/// The risk that the diet of a bean adds: more sugar, salt or fat than
/// recommended, or less vitamins.
pub open spec fn diet_risk(factors: Factors) -> nat {
    habit(factors.sugar.value > WHOLE, 200) + habit(factors.salt.value > WHOLE, 100) + habit(
        factors.fat.value > WHOLE,
        200,
    ) + habit(factors.vitamins.value < WHOLE, 200)
}

/// The risk that a bean of an age and of factors dies in a year, in
/// ten-thousandths.
pub open spec fn death_risk(age: u32, factors: Factors) -> nat {
    COMMON_RISK as nat + age_risk(age) + habit_risk(factors) + diet_risk(factors)
}

/// One member of the population of the agent model.
#[derive(Debug, Clone, Copy, PartialEq, Eq, Structural)]
pub struct Bean {
    age: u32,
    factors: Factors,
}

fn spread_value(level: u32, reach: u32, draw: u32) -> (value: u64)
    ensures
        value == spread_around(level, reach, draw),
{
    let moved: i64 = level as i64 - reach as i64 + draw as i64;
    if moved < 0 {
        (-moved) as u64
    } else {
        moved as u64
    }
}

fn risk_if(present: bool, risk: u32) -> (added: u32)
    ensures
        added == habit(present, risk as nat),
{
    if present {
        risk
    } else {
        0
    }
}

fn risk_of_age(age: u32) -> (risk: u32)
    ensures
        risk == age_risk(age),
        risk <= 1000,
{
    if age < FIRST_BUNDLE_AGE {
        1000
    } else if age < SECOND_BUNDLE_AGE {
        400
    } else {
        0
    }
}

fn risk_of_habits(factors: &Factors) -> (risk: u32)
    ensures
        risk == habit_risk(*factors),
        risk <= 3103,
{
    risk_if(factors.smokes_cigarettes, 700) + risk_if(factors.smokes_vape, 400) + risk_if(
        factors.smokes_weed,
        53,
    ) + risk_if(factors.consumes_hard_drugs, 1400) + risk_if(factors.binge_drinker, 500) + risk_if(
        factors.alcoholism,
        50,
    )
}

fn risk_of_diet(factors: &Factors) -> (risk: u32)
    ensures
        risk == diet_risk(*factors),
        risk <= 700,
{
    risk_if(factors.sugar.value > WHOLE as u64, 200) + risk_if(
        factors.salt.value > WHOLE as u64,
        100,
    ) + risk_if(factors.fat.value > WHOLE as u64, 200) + risk_if(
        factors.vitamins.value < WHOLE as u64,
        200,
    )
}

fn draw_share(source: &mut RandomSource, share: u32) -> (hit: bool)
    requires
        share <= WHOLE,
    ensures
        share == 0 ==> !hit,
        share == WHOLE ==> hit,
{
    source.ratio(share, WHOLE)
}

/// Draws an integer from nothing up to `most`: one draw from the source
/// below the next integer after `most`, which is the integer.
fn draw_up_to(source: &mut RandomSource, most: u32) -> (draw: u32)
    ensures
        draw <= most,
        final(source).continues(
            *old(source),
            seq![Draw::Below { bound: (most + 1) as u64, value: draw as u64 }],
        ),
{
    source.below(most as u64 + 1) as u32
}

impl Bean {
    /// The age of the bean, in years.
    pub closed spec fn age(&self) -> u32 {
        self.age
    }

    /// The factors of the bean.
    pub closed spec fn factors(&self) -> Factors {
        self.factors
    }

    /// The risk that the bean dies in a year, in ten-thousandths.
    pub open spec fn risk(&self) -> nat {
        death_risk(self.age(), self.factors())
    }

    /// The bean that the given draws make in a population.
    pub fn from_draws(context: &Settings, draws: &BeanDraws) -> (bean: Bean)
        ensures
            bean.age() == draws.bean_age(),
            bean.factors() == draws.bean_factors(*context),
    {
        let age: u32 = if draws.age < 0 {
            (-(draws.age as i64)) as u32
        } else {
            draws.age as u32
        };
        let wealth: u64 = if context.wealth_factor < 0 && draws.upper_class {
            UPPER_CLASS_WEALTH as u64 + draws.wealth as u64
        } else {
            draws.wealth as u64
        };
        let factors = Factors {
            alcoholism: draws.alcoholism,
            binge_drinker: draws.binge_drinker,
            smokes_weed: draws.smokes_weed,
            smokes_cigarettes: draws.smoker,
            smokes_vape: draws.vaper,
            consumes_hard_drugs: draws.hard_drugger,
            sugar: Sugar { value: spread_value(context.sugar, DIET_SPREAD, draws.sugar) },
            salt: Salt { value: spread_value(context.salt, DIET_SPREAD, draws.salt) },
            fat: Fat { value: spread_value(context.fat, DIET_SPREAD, draws.fat) },
            vitamins: Vitamins { value: spread_value(context.vitamins, VITAMIN_SPREAD, draws.vitamins) },
            wealth: Wealth { value: wealth },
        };
        Bean { age, factors }
    }

    /// Makes a bean of a population: draws its age from the generator, each
    /// habit with the chance of its share, each part of the diet around the
    /// population's, and its wealth by its class.
    ///
    /// The bean is the one that some draws make which can come about.
    pub fn new(context: &Settings, age_gen: &AgeGenerator, source: &mut RandomSource) -> (bean:
        Bean)
        requires
            context.shares_valid(),
            age_gen.can_generate(),
        ensures
            exists|draws: BeanDraws|
                #[trigger] draws.admissible(*context, *age_gen) && bean.age() == draws.bean_age()
                    && bean.factors() == draws.bean_factors(*context),
    {
        let age: i32 = age_gen.generate_age(source);
        let alcoholism: bool = draw_share(source, context.drinkers);
        let smoker: bool = draw_share(source, context.smokers);
        let binge_drinker: bool = draw_share(source, context.drinkers % 3_000_000);
        let smokes_weed: bool = draw_share(source, context.weed_smokers);
        let vaper: bool = draw_share(source, context.vapers);
        let hard_drugger: bool = draw_share(source, context.hard_drugger);
        let sugar: u32 = draw_up_to(source, 2 * DIET_SPREAD);
        let salt: u32 = draw_up_to(source, 2 * DIET_SPREAD);
        let fat: u32 = draw_up_to(source, 2 * DIET_SPREAD);
        let vitamins: u32 = draw_up_to(source, 2 * VITAMIN_SPREAD);
        let upper_class: bool = if context.wealth_factor < 0 {
            source.ratio(1, 5)
        } else {
            false
        };
        let room: u32 = if context.wealth_factor < 0 {
            if upper_class {
                WHOLE - UPPER_CLASS_WEALTH
            } else {
                LOWER_CLASS_WEALTH
            }
        } else {
            WHOLE
        };
        let wealth: u32 = draw_up_to(source, room);
        let draws = BeanDraws {
            age,
            alcoholism,
            smoker,
            binge_drinker,
            smokes_weed,
            vaper,
            hard_drugger,
            sugar,
            salt,
            fat,
            vitamins,
            upper_class,
            wealth,
        };
        assert(draws.admissible(*context, *age_gen));
        Bean::from_draws(context, &draws)
    }

    pub fn get_age(&self) -> (age: u32)
        ensures
            age == self.age(),
    {
        self.age
    }

    pub fn get_factors(&self) -> (factors: Factors)
        ensures
            factors == self.factors(),
    {
        self.factors
    }

    /// The risk that the bean dies in a year, in ten-thousandths. It never
    /// reaches `RISK_BOUND`.
    pub fn death_risk(&self) -> (risk: u32)
        ensures
            risk == self.risk(),
            0 < risk < RISK_BOUND,
    {
        let risk: u32 = COMMON_RISK + risk_of_age(self.age) + risk_of_habits(&self.factors)
            + risk_of_diet(&self.factors);
        risk
    }

    /// The draws that decide whether the bean dies: none for a bean over the
    /// age that no bean outlives, and for any other one draw for a hit with a
    /// chance of its risk in `RISK_BOUND`, which is whether it dies.
    pub open spec fn death_draws(&self, context: Settings, dead: bool) -> Seq<Draw> {
        if self.age() > context.max_age {
            Seq::empty()
        } else {
            seq![Draw::Ratio { numerator: self.risk() as u32, denominator: RISK_BOUND, hit: dead }]
        }
    }

    /// Whether the bean dies this year. A bean over the age that no bean
    /// outlives dies, and nothing is drawn for it; any other dies with a
    /// chance of a tenth of its risk, on one draw from the source.
    pub fn dies(&self, context: &Settings, source: &mut RandomSource) -> (dead: bool)
        ensures
            self.age() > context.max_age ==> dead,
            final(source).continues(*old(source), self.death_draws(*context, dead)),
    {
        if self.age > context.max_age {
            assert(source.drawn() =~= old(source).drawn() + Seq::<Draw>::empty());
            return true;
        }
        let risk: u32 = self.death_risk();
        source.ratio(risk, RISK_BOUND)
    }
}

/// A woman has to be older than this to have a child.
pub const YOUNGEST_PARENT: i32 = 18;

/// A woman has to be younger than this to have a child.
pub const OLDEST_PARENT: i32 = 40;

/// The draws made for one member of the population in the pass that counts
/// the births of the agent model: whether the member is a woman, the age
/// drawn for her, and whether she has a child if she is of an age to. For a
/// man only the first counts.
#[derive(Debug, Clone, Copy, PartialEq, Eq, Structural)]
pub struct ParentDraws {
    pub woman: bool,
    pub age: i32,
    pub child: bool,
}

impl ParentDraws {
    /// Whether these draws can come about: the age of a woman is one that
    /// the generator gives.
    pub open spec fn admissible(self, generator: AgeGenerator) -> bool {
        self.woman ==> generator.gives(self.age)
    }

    /// Whether these draws bring a birth.
    pub open spec fn bears(self) -> bool {
        self.woman && YOUNGEST_PARENT < self.age < OLDEST_PARENT && self.child
    }
}

/// The number of births among the members of a population.
pub open spec fn children_among(parents: Seq<ParentDraws>) -> nat
    decreases parents.len(),
{
    if parents.len() == 0 {
        0
    } else {
        children_among(parents.drop_last()) + if parents.last().bears() {
            1nat
        } else {
            0nat
        }
    }
}

/// There are draws for each member of a population of the given size, and
/// each member's draws can come about.
pub open spec fn parents_admissible(
    population: u64,
    generator: AgeGenerator,
    parents: Seq<ParentDraws>,
) -> bool {
    &&& parents.len() == population
    &&& forall|i: int| 0 <= i < parents.len() ==> (#[trigger] parents[i]).admissible(generator)
}

/// The draws of a pass over a population of the given size can come about and
/// bring this number of births.
pub open spec fn children_explained(
    population: u64,
    generator: AgeGenerator,
    parents: Seq<ParentDraws>,
    births: u64,
) -> bool {
    &&& parents_admissible(population, generator, parents)
    &&& births == children_among(parents)
}

/// Among a number of members there are no more births than members.
pub proof fn lemma_children_bounded(parents: Seq<ParentDraws>)
    ensures
        children_among(parents) <= parents.len(),
    decreases parents.len(),
{
    if parents.len() > 0 {
        lemma_children_bounded(parents.drop_last());
    }
}

/// Whether the draws made for one member of the population bring a birth.
pub fn has_child(draws: &ParentDraws) -> (born: bool)
    ensures
        born == draws.bears(),
{
    draws.woman && YOUNGEST_PARENT < draws.age && draws.age < OLDEST_PARENT && draws.child
}

/// Counts the births of a year of the agent model: one pass over the
/// population, in which each member is a woman with a chance of 49 in 100, a
/// woman is given an age, and one older than `YOUNGEST_PARENT` and younger
/// than `OLDEST_PARENT` has a child with a chance of one in five.
///
/// The count is that of some admissible draws, one set for each member.
pub fn bean_births(population: u64, age_gen: &AgeGenerator, source: &mut RandomSource) -> (births:
    u64)
    requires
        age_gen.can_generate(),
    ensures
        births <= population,
        exists|parents: Seq<ParentDraws>|
            children_explained(population, *age_gen, parents, births),
{
    let mut births: u64 = 0;
    let mut member: u64 = 0;
    let ghost mut parents: Seq<ParentDraws> = Seq::empty();
    while member < population
        invariant
            member <= population,
            births <= member,
            age_gen.can_generate(),
            children_explained(member, *age_gen, parents, births),
        decreases population - member,
    {
        let woman: bool = source.ratio(49, 100);
        let mut draws = ParentDraws { woman, age: 0, child: false };
        if woman {
            draws.age = age_gen.generate_age(source);
            if YOUNGEST_PARENT < draws.age && draws.age < OLDEST_PARENT {
                draws.child = source.ratio(1, 5);
            }
        }
        let born: bool = has_child(&draws);
        proof {
            assert(parents.push(draws).drop_last() == parents);
            parents = parents.push(draws);
        }
        if born {
            births += 1;
        }
        member += 1;
    }
    assert(exists|parents: Seq<ParentDraws>|
        children_explained(population, *age_gen, parents, births));
    births
}

/// The draws that made a bean, and whether the bean died in its year.
#[derive(Debug, Clone, Copy, PartialEq, Eq, Structural)]
pub struct BeanFate {
    pub draws: BeanDraws,
    pub dead: bool,
}

impl BeanFate {
    /// Whether this can come about in a population: the draws can, and a bean
    /// over the age that no bean outlives has died.
    pub open spec fn admissible(self, settings: Settings, generator: AgeGenerator) -> bool {
        &&& self.draws.admissible(settings, generator)
        &&& self.draws.bean_age() > settings.max_age ==> self.dead
    }
}

/// The number of the dead among the beans of a population.
pub open spec fn dead_among(fates: Seq<BeanFate>) -> nat
    decreases fates.len(),
{
    if fates.len() == 0 {
        0
    } else {
        dead_among(fates.drop_last()) + if fates.last().dead {
            1nat
        } else {
            0nat
        }
    }
}

/// There is a fate for each bean of a population of the given size, and each
/// can come about.
pub open spec fn fates_admissible(
    population: u64,
    settings: Settings,
    generator: AgeGenerator,
    fates: Seq<BeanFate>,
) -> bool {
    &&& fates.len() == population
    &&& forall|i: int|
        0 <= i < fates.len() ==> (#[trigger] fates[i]).admissible(settings, generator)
}

/// The fates of the beans of a population of the given size can come about
/// and leave this number of dead.
pub open spec fn dead_explained(
    population: u64,
    settings: Settings,
    generator: AgeGenerator,
    fates: Seq<BeanFate>,
    deaths: u64,
) -> bool {
    &&& fates_admissible(population, settings, generator, fates)
    &&& deaths == dead_among(fates)
}

/// Counts the deaths of a year of the agent model: one pass over the
/// population, in which a bean is made for each member and lives or dies.
///
/// The count is that of some admissible fates, one for each member.
pub fn bean_deaths(
    population: u64,
    context: &Settings,
    age_gen: &AgeGenerator,
    source: &mut RandomSource,
) -> (deaths: u64)
    requires
        context.shares_valid(),
        age_gen.can_generate(),
    ensures
        deaths <= population,
        exists|fates: Seq<BeanFate>| dead_explained(population, *context, *age_gen, fates, deaths),
{
    let mut deaths: u64 = 0;
    let mut member: u64 = 0;
    let ghost mut fates: Seq<BeanFate> = Seq::empty();
    while member < population
        invariant
            member <= population,
            deaths <= member,
            context.shares_valid(),
            age_gen.can_generate(),
            dead_explained(member, *context, *age_gen, fates, deaths),
        decreases population - member,
    {
        let bean = Bean::new(context, age_gen, source);
        let dead: bool = bean.dies(context, source);
        proof {
            let draws = choose|draws: BeanDraws|
                #[trigger] draws.admissible(*context, *age_gen) && bean.age() == draws.bean_age()
                    && bean.factors() == draws.bean_factors(*context);
            let fate = BeanFate { draws, dead };
            assert(fates.push(fate).drop_last() == fates);
            fates = fates.push(fate);
        }
        if dead {
            deaths += 1;
        }
        member += 1;
    }
    assert(exists|fates: Seq<BeanFate>|
        dead_explained(population, *context, *age_gen, fates, deaths));
    deaths
}

} // verus!
