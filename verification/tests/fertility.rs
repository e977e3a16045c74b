use beanreadings::fertility::{bears_child, birth_occurs, birth_pass, BirthDraws};
use beanreadings::{FertilityBand, FertilityTable, QuantileTable, RandomSource, SimulationError};

fn rates(table: &FertilityTable) -> Vec<u32> {
    (0..table.len()).map(|i| table.band(i).rate).collect()
}

#[test]
fn standard_table_has_seven_bands_from_fifteen_to_fifty() {
    let table = FertilityTable::standard();
    assert_eq!(table.len(), 7);
    assert_eq!(rates(&table), vec![350, 1050, 1450, 1250, 750, 350, 250]);
    for i in 0..7 {
        let band = table.band(i);
        assert_eq!(band.from_age, 15 + 5 * i as u32);
        assert_eq!(band.until_age, 20 + 5 * i as u32);
    }
}

#[test]
fn rates_fall_by_a_tenth_each_year() {
    let mut table = FertilityTable::standard();
    table.decay();
    assert_eq!(rates(&table), vec![349, 1049, 1449, 1249, 749, 349, 249]);
    table.decay();
    assert_eq!(rates(&table), vec![348, 1048, 1448, 1248, 748, 348, 248]);
    assert_eq!(table.band(0).from_age, 15);
    assert_eq!(table.band(6).until_age, 50);
}

#[test]
fn rates_never_rise_and_stop_at_the_floor() {
    let mut table = FertilityTable::standard();
    let mut before = rates(&table);
    for year in 1..=1500u32 {
        table.decay();
        let now = rates(&table);
        for (old, new) in before.iter().zip(now.iter()) {
            assert!(new <= old);
            assert!(*new >= 10);
        }
        assert_eq!(now[6], if year < 240 { 250 - year } else { 10 });
        before = now;
    }
    assert_eq!(before, vec![10; 7]);
}

#[test]
fn malformed_bands_are_rejected() {
    let band = |from_age, until_age, rate| FertilityBand { from_age, until_age, rate };
    assert!(FertilityTable::new(vec![]).is_ok());
    assert!(FertilityTable::new(vec![band(15, 20, 10)]).is_ok());
    assert!(FertilityTable::new(vec![band(15, 20, 350), band(20, 25, 1050)]).is_ok());
    assert!(FertilityTable::new(vec![band(15, 20, 350), band(30, 35, 1050)]).is_ok());
    let rejected = [
        vec![band(20, 20, 350)],
        vec![band(21, 20, 350)],
        vec![band(15, 20, 9)],
        vec![band(15, 20, 0)],
        vec![band(15, 20, 350), band(19, 25, 1050)],
        vec![band(20, 25, 350), band(15, 20, 1050)],
        vec![band(15, 20, 350), band(20, 25, 1050), band(24, 30, 10)],
        vec![band(15, 20, 350), band(20, 25, 1050), band(25, 25, 10)],
    ];
    for bands in rejected {
        assert!(matches!(FertilityTable::new(bands), Err(SimulationError::InvalidConfiguration)));
    }
}

#[test]
fn the_band_is_found_by_the_age_less_five() {
    let table = FertilityTable::standard();
    assert_eq!(table.rate_for(0), None);
    assert_eq!(table.rate_for(4), None);
    assert_eq!(table.rate_for(5), None);
    assert_eq!(table.rate_for(19), None);
    assert_eq!(table.rate_for(20), Some(350));
    assert_eq!(table.rate_for(24), Some(350));
    assert_eq!(table.rate_for(25), Some(1050));
    assert_eq!(table.rate_for(30), Some(1450));
    assert_eq!(table.rate_for(35), Some(1250));
    assert_eq!(table.rate_for(40), Some(750));
    assert_eq!(table.rate_for(45), Some(350));
    assert_eq!(table.rate_for(50), Some(250));
    assert_eq!(table.rate_for(54), Some(250));
    assert_eq!(table.rate_for(55), None);
    assert_eq!(table.rate_for(u32::MAX), None);
}

#[test]
fn a_birth_takes_a_draw_under_the_rate() {
    assert!(birth_occurs(350, 349));
    assert!(!birth_occurs(350, 350));
    assert!(!birth_occurs(0, 0));
    assert!(birth_occurs(u32::MAX, 9_999));
}

#[test]
fn only_women_of_an_age_in_a_band_give_birth() {
    let table = FertilityTable::standard();
    let woman = BirthDraws { female: true, age: 30, draw: 1_449 };
    assert!(bears_child(&table, &woman));
    assert!(!bears_child(&table, &BirthDraws { draw: 1_450, ..woman }));
    assert!(!bears_child(&table, &BirthDraws { female: false, ..woman }));
    assert!(!bears_child(&table, &BirthDraws { age: 60, draw: 0, ..woman }));
    assert!(!bears_child(&table, &BirthDraws { age: 3, draw: 0, ..woman }));
    assert!(bears_child(&table, &BirthDraws { age: 54, draw: 249, ..woman }));
}

#[test]
fn births_of_a_year_match_the_rate_of_the_band() {
    // every woman is 30 years old, so her rate is 145 in 1000
    let quantiles = QuantileTable::new(vec![0]).unwrap();
    let table = FertilityTable::standard();
    let mut source = RandomSource::from_seed(99);
    let births = birth_pass(100_000, 30_000_000, &table, &quantiles, &mut source).unwrap();
    // about half are women, of whom 14.5% give birth
    assert!(births > 6_700 && births < 7_800, "births: {}", births);
}

#[test]
fn nobody_is_born_outside_the_bands_or_in_an_empty_population() {
    let old = QuantileTable::new(vec![2_000_000]).unwrap();
    let table = FertilityTable::standard();
    let mut source = RandomSource::from_seed(4);
    assert_eq!(birth_pass(1_000, 30_000_000, &table, &old, &mut source), Ok(0));
    assert_eq!(birth_pass(0, 30_000_000, &table, &old, &mut source), Ok(0));
    let none = FertilityTable::new(vec![]).unwrap();
    let young = QuantileTable::new(vec![0]).unwrap();
    assert_eq!(birth_pass(1_000, 30_000_000, &none, &young, &mut source), Ok(0));
}

#[test]
fn birth_pass_fails_when_no_age_can_be_drawn() {
    let quantiles = QuantileTable::new(vec![-2_000_000]).unwrap();
    let table = FertilityTable::standard();
    let mut source = RandomSource::from_seed(4);
    assert_eq!(
        birth_pass(1_000, 30_000_000, &table, &quantiles, &mut source),
        Err(SimulationError::SamplingExhausted)
    );
}

#[test]
fn a_copy_of_a_table_has_the_same_bands() {
    let mut table = FertilityTable::standard();
    table.decay();
    let copy = table.clone();
    assert_eq!(rates(&copy), rates(&table));
    table.decay();
    assert_eq!(rates(&copy), vec![349, 1049, 1449, 1249, 749, 349, 249]);
}
