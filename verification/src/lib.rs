//! Beanreadings: a year-stepped stochastic population engine.
//!
//! The engine estimates how the size of a population moves over a number of
//! simulated years under mortality, fertility and rare catastrophes. All of
//! its arithmetic is exact fixed-point arithmetic on integers; every draw comes
//! from one seeded random source that the engine owns.

pub mod age;
pub mod bean;
pub mod causes;
pub mod config;
pub mod disaster;
pub mod error;
pub mod factors;
pub mod fertility;
pub mod mortality;
pub mod normal;
pub mod random;
pub mod settings;
pub mod simulation;
pub mod text;

pub use age::{generate_age, AgeGenerator, LegacyAgeGenerator};
pub use bean::Bean;
pub use causes::Cause;
pub use config::{Diet, Habits, SimulationConfig};
pub use disaster::{Disaster, DisasterEvent, DisasterKind};
pub use error::SimulationError;
pub use factors::{Factor, Factors, Fat, Salt, Sugar, Vitamins, Wealth};
pub use fertility::{FertilityBand, FertilityTable};
pub use mortality::{CauseDraws, CauseOfDeath, Covariates, Jitters};
pub use normal::{NormalDistribution, QuantileTable};
pub use random::{Draw, RandomSource};
pub use settings::{ErrorCode, Settings};
pub use simulation::{Simulation, SimulationResult};
