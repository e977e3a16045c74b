//! What a run is configured with: the population's diet and habits, the
//! horizon and the initial head count.
//!
//! Every level is an exact fixed-point number in millionths: `1_000_000`
//! stands for 1.0, that is 100% of a recommended intake or a habit that the
//! whole population has.

use vstd::prelude::*;

verus! {

/// One whole, in millionths.
pub const WHOLE: u32 = 1_000_000;

/// One half, in millionths.
pub const HALF: u32 = 500_000;

/// Mean intake of the population, each as a ratio to the recommended intake.
#[derive(Debug, Clone, Copy, PartialEq, Eq, Structural)]
pub struct Diet {
    pub calcium: u32,
    pub sugar: u32,
    pub solid_fats: u32,
    pub fibre: u32,
    pub salt: u32,
}

impl Diet {
    pub fn new(calcium: u32, sugar: u32, solid_fats: u32, fibre: u32, salt: u32) -> (diet: Diet)
        ensures
            diet == (Diet { calcium, sugar, solid_fats, fibre, salt }),
    {
        Diet { calcium, sugar, solid_fats, fibre, salt }
    }

    /// The diet of an average population: enough calcium, twice the sugar,
    /// one and a half times the solid fats and the salt, 60% of the fibre.
    pub open spec fn typical() -> Diet {
        Diet {
            calcium: 1_000_000,
            sugar: 2_000_000,
            solid_fats: 1_500_000,
            fibre: 600_000,
            salt: 1_500_000,
        }
    }
}

impl Default for Diet {
    fn default() -> (diet: Diet)
        ensures
            diet == Diet::typical(),
    {
        Diet {
            calcium: 1_000_000,
            sugar: 2_000_000,
            solid_fats: 1_500_000,
            fibre: 600_000,
            salt: 1_500_000,
        }
    }
}

/// Prevalence of each habit in the population, as a fraction of it.
#[derive(Debug, Clone, Copy, PartialEq, Eq, Structural)]
pub struct Habits {
    pub smoking: u32,
    pub alcohol: u32,
    pub binge_drinking: u32,
    pub vaping: u32,
    pub exercise: u32,
    pub sleep: u32,
    pub hydration: u32,
    pub anti_vaccination: u32,
    pub drugs: u32,
}

impl Habits {
    pub fn new(
        smoking: u32,
        alcohol: u32,
        binge_drinking: u32,
        vaping: u32,
        exercise: u32,
        sleep: u32,
        hydration: u32,
        anti_vaccination: u32,
        drugs: u32,
    ) -> (habits: Habits)
        ensures
            habits == (Habits {
                smoking,
                alcohol,
                binge_drinking,
                vaping,
                exercise,
                sleep,
                hydration,
                anti_vaccination,
                drugs,
            }),
    {
        Habits {
            smoking,
            alcohol,
            binge_drinking,
            vaping,
            exercise,
            sleep,
            hydration,
            anti_vaccination,
            drugs,
        }
    }

    /// The habits of an average population.
    pub open spec fn typical() -> Habits {
        Habits {
            smoking: 230_000,
            alcohol: 520_000,
            binge_drinking: 230_000,
            vaping: 50_000,
            exercise: 550_000,
            sleep: 630_000,
            hydration: 250_000,
            anti_vaccination: 50_000,
            drugs: 130_000,
        }
    }
}

impl Default for Habits {
    fn default() -> (habits: Habits)
        ensures
            habits == Habits::typical(),
    {
        Habits {
            smoking: 230_000,
            alcohol: 520_000,
            binge_drinking: 230_000,
            vaping: 50_000,
            exercise: 550_000,
            sleep: 630_000,
            hydration: 250_000,
            anti_vaccination: 50_000,
            drugs: 130_000,
        }
    }
}

/// The settings of one run. They do not change while it runs.
#[derive(Debug, Clone, Copy, PartialEq, Eq, Structural)]
pub struct SimulationConfig {
    pub diet_settings: Diet,
    pub habit_settings: Habits,
    pub years: u64,
    pub population: u64,
}

impl SimulationConfig {
    pub fn new(diet_settings: Diet, habit_settings: Habits, years: u64, population: u64) -> (config:
        SimulationConfig)
        ensures
            config == (SimulationConfig { diet_settings, habit_settings, years, population }),
    {
        SimulationConfig { diet_settings, habit_settings, years, population }
    }

    /// A century for 8.1 billion people of typical diet and habits.
    pub open spec fn typical() -> SimulationConfig {
        SimulationConfig {
            diet_settings: Diet::typical(),
            habit_settings: Habits::typical(),
            years: 100,
            population: 8_100_000_000,
        }
    }
}

impl Default for SimulationConfig {
    fn default() -> (config: SimulationConfig)
        ensures
            config == SimulationConfig::typical(),
    {
        SimulationConfig {
            diet_settings: Diet::default(),
            habit_settings: Habits::default(),
            years: 100,
            population: 8_100_000_000,
        }
    }
}

} // verus!
