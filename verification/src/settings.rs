//! The settings of the agent model, in which every member of the population
//! is a bean with factors of its own.
//!
//! Shares of the population and intakes are exact fixed-point numbers in
//! millionths: `1_000_000` stands for 1.0.

use crate::config::WHOLE;
use vstd::prelude::*;
use vstd::std_specs::convert::FromSpecImpl;
use vstd::string::StringExecFns;

verus! {

/// Why a request was turned down.
#[derive(Debug, Clone, Copy, PartialEq, Eq, Structural)]
pub enum ErrorCode {
    InvalidParameters,
    Overflow,
    Other,
}

impl ErrorCode {
    /// The error in words.
    pub open spec fn spec_text(self) -> Seq<char> {
        match self {
            ErrorCode::InvalidParameters => "Invalid parameters"@,
            ErrorCode::Overflow => "Overflow"@,
            ErrorCode::Other => "Other error"@,
        }
    }
}

impl ErrorCode {
    /// The error in words.
    pub fn text(&self) -> (text: String)
        ensures
            text@ == self.spec_text(),
    {
        match self {
            ErrorCode::InvalidParameters => String::from_str("Invalid parameters"),
            ErrorCode::Overflow => String::from_str("Overflow"),
            ErrorCode::Other => String::from_str("Other error"),
        }
    }
}

impl From<ErrorCode> for String {
    fn from(error: ErrorCode) -> (text: String)
        ensures
            text@ == error.spec_text(),
    {
        error.text()
    }
}

impl FromSpecImpl<ErrorCode> for String {
    /// Two strings of the same characters need not be the same string, so
    /// `from` promises the characters and not the string.
    open spec fn obeys_from_spec() -> bool {
        false
    }

    open spec fn from_spec(error: ErrorCode) -> String {
        choose|text: String| text@ == error.spec_text()
    }
}

/// What the agent model is told of a population.
#[derive(Debug, Clone, Copy, PartialEq, Eq, Structural)]
pub struct Settings {
    /// The initial head count.
    pub population: u32,
    /// The age that no bean outlives.
    pub max_age: u32,
    /// The share of the population that smokes cigarettes.
    pub smokers: u32,
    /// The share that smokes weed.
    pub weed_smokers: u32,
    /// The share that vapes.
    pub vapers: u32,
    /// The share that drinks alcohol.
    pub drinkers: u32,
    /// The share that uses hard drugs.
    pub hard_drugger: u32,
    /// Sugar in the diet, as a ratio to the recommended intake.
    pub sugar: u32,
    /// Salt in the diet, as a ratio to the recommended intake.
    pub salt: u32,
    /// Fat in the diet, as a ratio to the recommended intake.
    pub fat: u32,
    /// Vitamins in the diet, as a ratio to the recommended intake.
    pub vitamins: u32,
    /// The share of the upper class less the share of the lower class.
    pub wealth_factor: i32,
}

impl Settings {
    /// The settings of a population of a thousand.
    pub open spec fn typical() -> Settings {
        Settings {
            population: 1000,
            max_age: 100,
            smokers: 200_000,
            weed_smokers: 100_000,
            vapers: 100_000,
            drinkers: 200_000,
            hard_drugger: 50_000,
            sugar: 500_000,
            salt: 500_000,
            fat: 500_000,
            vitamins: 500_000,
            wealth_factor: -100_000i32,
        }
    }

    /// Every share is a share: none is above one whole.
    pub open spec fn shares_valid(self) -> bool {
        &&& self.smokers <= WHOLE
        &&& self.weed_smokers <= WHOLE
        &&& self.vapers <= WHOLE
        &&& self.drinkers <= WHOLE
        &&& self.hard_drugger <= WHOLE
    }

    pub fn new() -> (settings: Settings)
        ensures
            settings == Settings::typical(),
            settings.shares_valid(),
    {
        Settings {
            population: 1000,
            max_age: 100,
            smokers: 200_000,
            weed_smokers: 100_000,
            vapers: 100_000,
            drinkers: 200_000,
            hard_drugger: 50_000,
            sugar: 500_000,
            salt: 500_000,
            fat: 500_000,
            vitamins: 500_000,
            wealth_factor: -100_000,
        }
    }

    /// Whether every share is a share.
    pub fn has_valid_shares(&self) -> (valid: bool)
        ensures
            valid == self.shares_valid(),
    {
        self.smokers <= WHOLE && self.weed_smokers <= WHOLE && self.vapers <= WHOLE && self.drinkers
            <= WHOLE && self.hard_drugger <= WHOLE
    }

    pub fn set_population(&mut self, population: u32)
        ensures
            *final(self) == (Settings { population, ..*old(self) }),
    {
        self.population = population;
    }

    pub fn set_max_age(&mut self, max_age: u32)
        ensures
            *final(self) == (Settings { max_age, ..*old(self) }),
    {
        self.max_age = max_age;
    }

    pub fn set_smokers(&mut self, smokers: u32)
        ensures
            *final(self) == (Settings { smokers, ..*old(self) }),
    {
        self.smokers = smokers;
    }

    pub fn set_weed_smokers(&mut self, weed_smokers: u32)
        ensures
            *final(self) == (Settings { weed_smokers, ..*old(self) }),
    {
        self.weed_smokers = weed_smokers;
    }

    pub fn set_vapers(&mut self, vapers: u32)
        ensures
            *final(self) == (Settings { vapers, ..*old(self) }),
    {
        self.vapers = vapers;
    }

    pub fn set_drinkers(&mut self, drinkers: u32)
        ensures
            *final(self) == (Settings { drinkers, ..*old(self) }),
    {
        self.drinkers = drinkers;
    }

    pub fn set_sugar(&mut self, sugar: u32)
        ensures
            *final(self) == (Settings { sugar, ..*old(self) }),
    {
        self.sugar = sugar;
    }

    pub fn set_salt(&mut self, salt: u32)
        ensures
            *final(self) == (Settings { salt, ..*old(self) }),
    {
        self.salt = salt;
    }

    pub fn set_fat(&mut self, fat: u32)
        ensures
            *final(self) == (Settings { fat, ..*old(self) }),
    {
        self.fat = fat;
    }

    pub fn set_vitamins(&mut self, vitamins: u32)
        ensures
            *final(self) == (Settings { vitamins, ..*old(self) }),
    {
        self.vitamins = vitamins;
    }

    pub fn set_wealth_factor(&mut self, wealth_factor: i32)
        ensures
            *final(self) == (Settings { wealth_factor, ..*old(self) }),
    {
        self.wealth_factor = wealth_factor;
    }

    pub fn set_hard_drugger(&mut self, hard_drugger: u32)
        ensures
            *final(self) == (Settings { hard_drugger, ..*old(self) }),
    {
        self.hard_drugger = hard_drugger;
    }
}

} // verus!
