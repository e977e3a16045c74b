use beanreadings::simulation::{add_births, age_median, decay_bonus, grow, rate};
use beanreadings::{
    Diet, FertilityBand, Habits, QuantileTable, Simulation, SimulationConfig, SimulationError,
};

/// Nine quantiles of the standard normal distribution, at the probabilities
/// 0.1 to 0.9, in millionths.
fn deciles() -> Vec<i64> {
    vec![-1_281_552, -841_621, -524_401, -253_347, 0, 253_347, 524_401, 841_621, 1_281_552]
}

fn config(years: u64, population: u64) -> SimulationConfig {
    SimulationConfig::new(Diet::default(), Habits::default(), years, population)
}

fn run(years: u64, population: u64, seed: u64) -> (Vec<u64>, Vec<String>) {
    let table = QuantileTable::new(deciles()).unwrap();
    let mut simulation = Simulation::new(config(years, population), table, seed);
    let result = simulation.simulate().unwrap();
    assert_eq!(result.get_log().len(), result.log_messages().len());
    assert_eq!(Some(&result.get_population()), result.get_population_curve().last());
    (result.get_population_curve(), result.log_messages())
}

#[test]
fn no_years_leave_the_initial_population_and_an_empty_log() {
    let (curve, log) = run(0, 1000, 1);
    assert_eq!(curve, vec![1000]);
    assert!(log.is_empty());
}

#[test]
fn the_curve_has_an_entry_for_the_start_and_for_each_year() {
    for years in [0u64, 1, 2, 5, 12] {
        let (curve, _) = run(years, 500, 9);
        assert_eq!(curve.len() as u64, years + 1);
        assert_eq!(curve[0], 500);
    }
}

#[test]
fn the_same_seed_gives_the_same_run() {
    let first = run(30, 2_000, 12_345);
    let second = run(30, 2_000, 12_345);
    assert_eq!(first, second);
    let other = run(30, 2_000, 54_321);
    assert_ne!(first.0, other.0);
}

#[test]
fn an_empty_population_stays_empty() {
    let (curve, _) = run(10, 0, 3);
    assert_eq!(curve, vec![0; 11]);
}

#[test]
fn a_year_at_most_doubles_the_grown_population() {
    let (curve, log) = run(40, 3_000, 2);
    for year in 0..40 {
        let before = curve[year] as u128;
        let after = curve[year + 1] as u128;
        assert!(after <= 2 * ((before * 105 + 99) / 100));
    }
    for message in &log {
        assert!(message.starts_with("Year "));
        assert!(message.ends_with("% of the population has died"));
    }
}

#[test]
fn catastrophes_are_logged_in_the_order_of_their_years() {
    let table = QuantileTable::new(deciles()).unwrap();
    let mut simulation = Simulation::new(config(300, 200), table, 8);
    let result = simulation.simulate().unwrap();
    let log = result.get_log();
    assert!(!log.is_empty());
    for pair in log.windows(2) {
        assert!(pair[0].year < pair[1].year);
    }
    for event in &log {
        assert!(event.year < 300);
        assert!(event.kind.least() <= event.deaths_pct && event.deaths_pct < event.kind.limit());
    }
    let messages = result.log_messages();
    for (event, message) in log.iter().zip(messages.iter()) {
        assert_eq!(&event.message(), message);
    }
}

#[test]
fn the_default_configuration_is_a_century_for_the_world() {
    let config = SimulationConfig::default();
    assert_eq!(config.years, 100);
    assert_eq!(config.population, 8_100_000_000);
    assert_eq!(config.diet_settings, Diet::default());
    assert_eq!(config.habit_settings, Habits::default());
    assert_eq!(Diet::default(), Diet::new(1_000_000, 2_000_000, 1_500_000, 600_000, 1_500_000));
    assert_eq!(
        Habits::default(),
        Habits::new(230_000, 520_000, 230_000, 50_000, 550_000, 630_000, 250_000, 50_000, 130_000)
    );
}

#[test]
fn malformed_tables_are_rejected_before_any_year_runs() {
    let bands = vec![FertilityBand { from_age: 15, until_age: 50, rate: 500 }];
    assert!(Simulation::configure(config(1, 10), deciles(), bands.clone(), 0).is_ok());
    assert!(matches!(
        Simulation::configure(config(1, 10), vec![], bands.clone(), 0),
        Err(SimulationError::InvalidConfiguration)
    ));
    assert!(matches!(
        Simulation::configure(config(1, 10), vec![1, 0], bands, 0),
        Err(SimulationError::InvalidConfiguration)
    ));
    let overlapping = vec![
        FertilityBand { from_age: 15, until_age: 30, rate: 500 },
        FertilityBand { from_age: 25, until_age: 40, rate: 500 },
    ];
    assert!(matches!(
        Simulation::configure(config(1, 10), deciles(), overlapping, 0),
        Err(SimulationError::InvalidConfiguration)
    ));
    let below_floor = vec![FertilityBand { from_age: 15, until_age: 30, rate: 9 }];
    assert!(matches!(
        Simulation::configure(config(1, 10), deciles(), below_floor, 0),
        Err(SimulationError::InvalidConfiguration)
    ));
}

#[test]
fn a_run_with_bands_of_its_own_uses_them() {
    // every woman gives birth: one band for all ages, at a rate of 1000 in 1000
    let bands = vec![FertilityBand { from_age: 0, until_age: 200, rate: 10_000 }];
    let mut fertile = Simulation::configure(config(1, 10_000), deciles(), bands, 5).unwrap();
    let curve = fertile.simulate().unwrap().get_population_curve();
    assert!(curve[1] > 14_000, "curve: {:?}", curve);
    let mut barren = Simulation::configure(config(1, 10_000), deciles(), vec![], 5).unwrap();
    let curve = barren.simulate().unwrap().get_population_curve();
    assert!(curve[1] <= 10_400, "curve: {:?}", curve);
}

#[test]
fn a_run_fails_when_no_age_can_be_drawn() {
    let table = QuantileTable::new(vec![-2_000_000, -1_600_000]).unwrap();
    let mut simulation = Simulation::new(config(3, 100), table, 1);
    assert!(matches!(simulation.simulate(), Err(SimulationError::SamplingExhausted)));
    // with nobody to draw an age for, the run goes through
    let table = QuantileTable::new(vec![-2_000_000, -1_600_000]).unwrap();
    let mut simulation = Simulation::new(config(3, 0), table, 1);
    assert_eq!(simulation.simulate().unwrap().get_population_curve(), vec![0; 4]);
}

#[test]
fn the_growth_bonus_fades_by_a_hundredth_a_year() {
    assert_eq!(decay_bonus(105), 104);
    assert_eq!(decay_bonus(101), 100);
    assert_eq!(decay_bonus(1), 0);
    assert_eq!(decay_bonus(0), 0);
}

#[test]
fn the_growth_bonus_multiplies_while_it_is_above_one() {
    assert_eq!(grow(1000, 104), 1040);
    assert_eq!(grow(1000, 101), 1010);
    assert_eq!(grow(1000, 100), 1000);
    assert_eq!(grow(1000, 99), 1000);
    assert_eq!(grow(1000, 0), 1000);
    assert_eq!(grow(1, 101), 2);
    assert_eq!(grow(99, 101), 100);
    assert_eq!(grow(0, 105), 0);
    assert_eq!(grow(8_100_000_000, 104), 8_424_000_000);
    assert_eq!(grow(u64::MAX, 101), u64::MAX);
    assert_eq!(grow(18_000_000_000_000_000_000, 102), 18_360_000_000_000_000_000);
    assert_eq!(grow(5, u32::MAX), 214_748_365);
}

#[test]
fn births_are_added_up_to_the_largest_head_count() {
    assert_eq!(add_births(1040, 60), 1100);
    assert_eq!(add_births(0, 0), 0);
    assert_eq!(add_births(u64::MAX - 1, 1), u64::MAX);
    assert_eq!(add_births(u64::MAX - 1, 2), u64::MAX);
    assert_eq!(add_births(u64::MAX, u64::MAX), u64::MAX);
}

#[test]
fn rates_are_counts_in_millionths_of_the_population() {
    assert_eq!(rate(0, 0), 0);
    assert_eq!(rate(5, 0), 0);
    assert_eq!(rate(0, 1000), 0);
    assert_eq!(rate(60, 1040), 57_692);
    assert_eq!(rate(1, 3), 333_333);
    assert_eq!(rate(1000, 1000), 1_000_000);
    assert_eq!(rate(999, 1), 999_000_000);
    assert_eq!(rate(u64::MAX, 1), u64::MAX as u128 * 1_000_000);
}

#[test]
fn the_median_age_rises_when_deaths_overtake_births() {
    assert_eq!(age_median(30_800_000, 57_692, 57_692), 30_800_000);
    assert_eq!(age_median(30_800_000, 57_692, 10_000), 30_800_000);
    assert_eq!(age_median(30_800_000, 10_000, 57_692), 30_800_476);
    assert_eq!(age_median(30_800_000, 0, 99), 30_800_000);
    assert_eq!(age_median(30_800_000, 0, 100), 30_800_001);
    assert_eq!(age_median(u64::MAX - 1, 0, 1_000), u64::MAX);
    assert_eq!(age_median(0, 0, u128::MAX), u64::MAX);
}
