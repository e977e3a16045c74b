//! Catastrophes: which one strikes in a year, if any, and how many it kills.
//!
//! In a year a catastrophe strikes with a chance of `DISASTER_PERCENT` in a
//! hundred. Its kind is one of five, each as likely as the other, and each
//! kind kills a percentage of the population that is drawn from a band of its
//! own.

use crate::random::RandomSource;
use crate::text::{append_decimal, decimal};
use vstd::prelude::*;
use vstd::string::StringExecFns;

verus! {

/// A roll for a catastrophe is uniform below this bound.
pub const DISASTER_ROLL_BOUND: u64 = 100;

/// A catastrophe strikes on a roll below this.
pub const DISASTER_PERCENT: u64 = 7;

/// The number of kinds of catastrophe.
pub const DISASTER_KINDS: u64 = 5;

/// The kinds of catastrophe, from the deadliest down.
#[derive(Debug, Clone, Copy, PartialEq, Eq, Structural)]
pub enum DisasterKind {
    Meteor,
    NuclearWar,
    GlobalWarming,
    Pandemic,
    NaturalDisaster,
}

impl DisasterKind {
    /// The kind that a draw below `DISASTER_KINDS` stands for.
    pub open spec fn spec_from_index(index: u64) -> Option<DisasterKind> {
        if index == 0 {
            Some(DisasterKind::Meteor)
        } else if index == 1 {
            Some(DisasterKind::NuclearWar)
        } else if index == 2 {
            Some(DisasterKind::GlobalWarming)
        } else if index == 3 {
            Some(DisasterKind::Pandemic)
        } else if index == 4 {
            Some(DisasterKind::NaturalDisaster)
        } else {
            None
        }
    }

    /// The lowest percentage of the population that the kind kills.
    pub open spec fn spec_least(self) -> u8 {
        match self {
            DisasterKind::Meteor => 90,
            DisasterKind::NuclearWar => 50,
            DisasterKind::GlobalWarming => 30,
            DisasterKind::Pandemic => 20,
            DisasterKind::NaturalDisaster => 1,
        }
    }

    /// The percentage that the kind stays under.
    pub open spec fn spec_limit(self) -> u8 {
        match self {
            DisasterKind::Meteor => 99,
            DisasterKind::NuclearWar => 90,
            DisasterKind::GlobalWarming => 50,
            DisasterKind::Pandemic => 30,
            DisasterKind::NaturalDisaster => 20,
        }
    }

    /// Whether the kind can kill this percentage of the population.
    pub open spec fn can_kill(self, deaths_pct: u8) -> bool {
        self.spec_least() <= deaths_pct < self.spec_limit()
    }

    /// What the log says of a catastrophe of the kind.
    pub open spec fn spec_phrase(self) -> Seq<char> {
        match self {
            DisasterKind::Meteor => "A meteor has hit the earth"@,
            DisasterKind::NuclearWar => "A nuclear war has occured"@,
            DisasterKind::GlobalWarming => "Global warming has caused a famine"@,
            DisasterKind::Pandemic => "A pandemic has occured"@,
            DisasterKind::NaturalDisaster => "A natural disaster has occured"@,
        }
    }

    /// What the log says of a catastrophe of the kind.
    pub fn phrase(&self) -> (phrase: &'static str)
        ensures
            phrase@ == self.spec_phrase(),
    {
        match self {
            DisasterKind::Meteor => "A meteor has hit the earth",
            DisasterKind::NuclearWar => "A nuclear war has occured",
            DisasterKind::GlobalWarming => "Global warming has caused a famine",
            DisasterKind::Pandemic => "A pandemic has occured",
            DisasterKind::NaturalDisaster => "A natural disaster has occured",
        }
    }

    /// The kind that a draw below `DISASTER_KINDS` stands for.
    pub fn from_index(index: u64) -> (kind: Option<DisasterKind>)
        ensures
            kind == DisasterKind::spec_from_index(index),
    {
        if index == 0 {
            Some(DisasterKind::Meteor)
        } else if index == 1 {
            Some(DisasterKind::NuclearWar)
        } else if index == 2 {
            Some(DisasterKind::GlobalWarming)
        } else if index == 3 {
            Some(DisasterKind::Pandemic)
        } else if index == 4 {
            Some(DisasterKind::NaturalDisaster)
        } else {
            None
        }
    }

    /// The lowest percentage of the population that the kind kills.
    pub fn least(&self) -> (pct: u8)
        ensures
            pct == self.spec_least(),
    {
        match self {
            DisasterKind::Meteor => 90,
            DisasterKind::NuclearWar => 50,
            DisasterKind::GlobalWarming => 30,
            DisasterKind::Pandemic => 20,
            DisasterKind::NaturalDisaster => 1,
        }
    }

    /// The percentage that the kind stays under.
    pub fn limit(&self) -> (pct: u8)
        ensures
            pct == self.spec_limit(),
    {
        match self {
            DisasterKind::Meteor => 99,
            DisasterKind::NuclearWar => 90,
            DisasterKind::GlobalWarming => 50,
            DisasterKind::Pandemic => 30,
            DisasterKind::NaturalDisaster => 20,
        }
    }
}

/// A catastrophe: its kind and the percentage of the population that it
/// kills.
#[derive(Debug, Clone, Copy, PartialEq, Eq, Structural)]
pub struct Disaster {
    pub kind: DisasterKind,
    pub deaths_pct: u8,
}

/// An entry of the log of a run: the catastrophe of a year.
#[derive(Debug, Clone, Copy, PartialEq, Eq, Structural)]
pub struct DisasterEvent {
    pub year: u64,
    pub kind: DisasterKind,
    pub deaths_pct: u8,
}

impl DisasterEvent {
    /// The entry as the log words it: the year, what happened, and the
    /// percentage of the population that died.
    pub open spec fn spec_message(self) -> Seq<char> {
        "Year "@ + decimal(self.year as nat) + ": "@ + self.kind.spec_phrase() + ", "@ + decimal(
            self.deaths_pct as nat,
        ) + "% of the population has died"@
    }

    /// The entry as the log words it.
    pub fn message(&self) -> (text: String)
        ensures
            text@ == self.spec_message(),
    {
        let mut text = String::from_str("Year ");
        append_decimal(&mut text, self.year);
        text.append(": ");
        text.append(self.kind.phrase());
        text.append(", ");
        append_decimal(&mut text, self.deaths_pct as u64);
        text.append("% of the population has died");
        text
    }
}

/// What the draws of a year bring: nothing on a roll of `DISASTER_PERCENT` or
/// more; otherwise the kind that `kind_draw` stands for, killing the least
/// percentage of its band and `band_draw` more.
pub open spec fn disaster_of(roll: u64, kind_draw: u64, band_draw: u64) -> Option<Disaster> {
    if roll >= DISASTER_PERCENT {
        None
    } else {
        match DisasterKind::spec_from_index(kind_draw) {
            Some(kind) => if band_draw < kind.spec_limit() - kind.spec_least() {
                Some(Disaster { kind, deaths_pct: (kind.spec_least() + band_draw) as u8 })
            } else {
                None
            },
            None => None,
        }
    }
}

/// The number of people that a catastrophe kills: the given percentage of the
/// population, rounded up, and the whole population at most.
pub open spec fn death_toll(population: u64, deaths_pct: u8) -> int {
    let toll = (population * deaths_pct + 99) / 100;
    if toll > population {
        population as int
    } else {
        toll
    }
}

/// The number of people that a catastrophe leaves alive.
pub open spec fn survivors(population: u64, deaths_pct: u8) -> int {
    population - death_toll(population, deaths_pct)
}

/// The population after the catastrophe of a year, if there was one.
pub open spec fn after_disaster(population: u64, disaster: Option<Disaster>) -> u64 {
    match disaster {
        Some(d) => survivors(population, d.deaths_pct) as u64,
        None => population,
    }
}

/// The number of people that a catastrophe kills.
pub fn toll(population: u64, deaths_pct: u8) -> (dead: u64)
    ensures
        dead == death_toll(population, deaths_pct),
        dead <= population,
{
    assert(population * deaths_pct <= 0xffff_ffff_ffff_ffff * 0xff) by (nonlinear_arith)
        requires
            population <= 0xffff_ffff_ffff_ffff,
            deaths_pct <= 0xff,
    ;
    let product: u128 = population as u128 * deaths_pct as u128;
    let rounded: u128 = (product + 99) / 100;
    if rounded > population as u128 {
        population
    } else {
        rounded as u64
    }
}

/// The population after a catastrophe.
pub fn strike(population: u64, deaths_pct: u8) -> (alive: u64)
    ensures
        alive == survivors(population, deaths_pct),
        alive <= population,
{
    population - toll(population, deaths_pct)
}

/// The catastrophe that the draws of a year bring, if they bring one.
pub fn disaster_from_draws(roll: u64, kind_draw: u64, band_draw: u64) -> (disaster: Option<
    Disaster,
>)
    ensures
        disaster == disaster_of(roll, kind_draw, band_draw),
        disaster matches Some(d) ==> d.kind.can_kill(d.deaths_pct),
{
    if roll >= DISASTER_PERCENT {
        return None;
    }
    match DisasterKind::from_index(kind_draw) {
        Some(kind) => {
            let least: u8 = kind.least();
            let limit: u8 = kind.limit();
            if band_draw < (limit - least) as u64 {
                Some(Disaster { kind, deaths_pct: least + band_draw as u8 })
            } else {
                None
            }
        },
        None => None,
    }
}

/// The draws are such as a roll for a catastrophe makes: the roll and the
/// draw of the kind lie below their bounds.
pub open spec fn disaster_draws_admissible(roll: u64, kind_draw: u64, band_draw: u64) -> bool {
    &&& roll < DISASTER_ROLL_BOUND
    &&& kind_draw < DISASTER_KINDS
}

/// Rolls for the catastrophe of a year: draws the roll, and on a roll under
/// `DISASTER_PERCENT` the kind and the percentage within the band of the
/// kind.
///
/// What comes back is what some admissible draws bring. A catastrophe that
/// comes back kills a percentage that lies in the band of its kind.
pub fn roll_disaster(source: &mut RandomSource) -> (disaster: Option<Disaster>)
    ensures
        exists|roll: u64, kind_draw: u64, band_draw: u64|
            disaster_draws_admissible(roll, kind_draw, band_draw) && disaster
                == #[trigger] disaster_of(roll, kind_draw, band_draw),
        disaster matches Some(d) ==> d.kind.can_kill(d.deaths_pct),
{
    let roll: u64 = source.below(DISASTER_ROLL_BOUND);
    if roll >= DISASTER_PERCENT {
        assert(disaster_draws_admissible(roll, 0, 0) && disaster_of(roll, 0, 0).is_none());
        return None;
    }
    let kind_draw: u64 = source.below(DISASTER_KINDS);
    match DisasterKind::from_index(kind_draw) {
        Some(kind) => {
            let width: u8 = kind.limit() - kind.least();
            let band_draw: u64 = source.below(width as u64);
            let disaster = disaster_from_draws(roll, kind_draw, band_draw);
            assert(disaster_draws_admissible(roll, kind_draw, band_draw));
            disaster
        },
        None => {
            assert(disaster_draws_admissible(roll, kind_draw, 0) && disaster_of(
                roll,
                kind_draw,
                0,
            ).is_none());
            None
        },
    }
}

/// Whatever its kind, a catastrophe kills at least the lowest percentage of
/// its band and, but for the one person that rounding up may add, less than
/// the band's limit. In a population of a hundred or more the rounding cannot
/// reach the limit either.
pub proof fn lemma_toll_within_band(kind: DisasterKind, population: u64, deaths_pct: u8)
    requires
        kind.can_kill(deaths_pct),
    ensures
        kind.spec_least() * population <= 100 * death_toll(population, deaths_pct),
        100 * death_toll(population, deaths_pct) < kind.spec_limit() * population + 100,
        population >= 100 ==> 100 * death_toll(population, deaths_pct) < kind.spec_limit()
            * population,
        survivors(population, deaths_pct) >= 0,
{
    let product = population * deaths_pct;
    assert(product <= population * 98) by (nonlinear_arith)
        requires
            product == population * deaths_pct,
            deaths_pct <= 98,
            population >= 0,
    ;
    assert(kind.spec_least() * population <= product) by (nonlinear_arith)
        requires
            product == population * deaths_pct,
            kind.spec_least() <= deaths_pct,
            population >= 0,
    ;
    assert(product <= (kind.spec_limit() - 1) * population) by (nonlinear_arith)
        requires
            product == population * deaths_pct,
            deaths_pct <= kind.spec_limit() - 1,
            population >= 0,
    ;
    assert((kind.spec_limit() - 1) * population == kind.spec_limit() * population - population)
        by (nonlinear_arith);
}

/// A nuclear war kills at least half of the population and, in a population
/// of a hundred or more, less than nine tenths of it. In a smaller one
/// rounding up may add one person to that.
pub proof fn lemma_nuclear_war_toll(population: u64, deaths_pct: u8)
    requires
        DisasterKind::NuclearWar.can_kill(deaths_pct),
    ensures
        50 * population <= 100 * death_toll(population, deaths_pct),
        100 * death_toll(population, deaths_pct) < 90 * population + 100,
        population >= 100 ==> 100 * death_toll(population, deaths_pct) < 90 * population,
{
    lemma_toll_within_band(DisasterKind::NuclearWar, population, deaths_pct);
}

} // verus!
