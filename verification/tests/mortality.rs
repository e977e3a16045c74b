use beanreadings::mortality::{
    apply_jitter, draw_causes, draw_jitters, fate_of, first_cause, mortality_pass, strikes,
    LifeDraws, CANCER_BASELINE, CARDIOVASCULAR_BASELINE, DIGESTIVE_BASELINE,
    LOWER_RESPIRATORY_BASELINE, RATE_DRAW_BOUND, RATE_PER_PERCENT, RESPIRATORY_BASELINE,
};
use beanreadings::{
    CauseDraws, CauseOfDeath, Covariates, Diet, Habits, Jitters, QuantileTable, RandomSource,
};

const ONE: u64 = 1_000_000;

fn level(covariate: u64) -> Covariates {
    Covariates {
        calcium: covariate,
        sugar: covariate,
        solid_fats: covariate,
        salt: covariate,
        fibre: covariate,
        smoking: covariate,
        alcohol: covariate,
        binge_drinking: covariate,
        vaping: covariate,
        exercise: covariate,
        sleep: covariate,
        hydration: covariate,
        anti_vaccination: covariate,
        drugs: covariate,
    }
}

fn no_draw_strikes() -> CauseDraws {
    CauseDraws {
        cardiovascular: RATE_DRAW_BOUND - 1,
        cancer: RATE_DRAW_BOUND - 1,
        respiratory: RATE_DRAW_BOUND - 1,
        digestive: RATE_DRAW_BOUND - 1,
        lower_respiratory: RATE_DRAW_BOUND - 1,
        neonatal: 99,
        dementia: 99,
    }
}

#[test]
fn baseline_cardiovascular_rate_is_a_fifth_of_a_percent() {
    assert_eq!(RATE_PER_PERCENT, 10_000_000);
    assert_eq!(CARDIOVASCULAR_BASELINE * 5, RATE_PER_PERCENT);
    assert_eq!(level(ONE).cardiovascular_rate(), CARDIOVASCULAR_BASELINE as i128);
    assert_eq!(level(ONE).cardiovascular_rate(), 2_000_000);
}

#[test]
fn baselines_of_the_other_causes() {
    let covariates = level(ONE);
    assert_eq!(covariates.cancer_rate(), 1_300_000);
    assert_eq!(covariates.respiratory_rate(), 500_000);
    assert_eq!(covariates.digestive_rate(), 200_000);
    assert_eq!(covariates.lower_respiratory_rate(), 100_000);
    assert_eq!(CANCER_BASELINE, 1_300_000);
    assert_eq!(RESPIRATORY_BASELINE, 500_000);
    assert_eq!(DIGESTIVE_BASELINE, 200_000);
    assert_eq!(LOWER_RESPIRATORY_BASELINE, 100_000);
}

#[test]
fn covariates_without_jitter_are_the_configured_means() {
    let diet = Diet::default();
    let habits = Habits::default();
    let covariates = Covariates::sample(&diet, &habits, &Jitters::none());
    assert_eq!(covariates.calcium, 1_000_000);
    assert_eq!(covariates.sugar, 2_000_000);
    assert_eq!(covariates.solid_fats, 1_500_000);
    assert_eq!(covariates.fibre, 600_000);
    assert_eq!(covariates.salt, 1_500_000);
    assert_eq!(covariates.smoking, 230_000);
    assert_eq!(covariates.alcohol, 520_000);
    assert_eq!(covariates.binge_drinking, 230_000);
    assert_eq!(covariates.vaping, 50_000);
    assert_eq!(covariates.exercise, 550_000);
    assert_eq!(covariates.sleep, 630_000);
    assert_eq!(covariates.hydration, 250_000);
    assert_eq!(covariates.anti_vaccination, 50_000);
    assert_eq!(covariates.drugs, 130_000);
    // 0.2 + 0.2 for sugar + 0.1 for solid fats + 0.05 for salt - 0.02 for low smoking
    assert_eq!(covariates.cardiovascular_rate(), 5_300_000);
    // 0.13 + 0.1 for solid fats + 0.05 for salt
    assert_eq!(covariates.cancer_rate(), 2_800_000);
    assert_eq!(covariates.respiratory_rate(), 500_000);
    // 0.02 + 0.05 for solid fats + 0.05 for salt
    assert_eq!(covariates.digestive_rate(), 1_200_000);
    assert_eq!(covariates.lower_respiratory_rate(), 100_000);
}

#[test]
fn jitter_moves_a_level_by_up_to_a_half() {
    assert_eq!(apply_jitter(1_000_000, 500_000), 1_000_000);
    assert_eq!(apply_jitter(1_000_000, 0), 500_000);
    assert_eq!(apply_jitter(1_000_000, 999_999), 1_499_999);
    assert_eq!(apply_jitter(230_000, 0), 270_000);
    assert_eq!(apply_jitter(230_000, 270_000), 0);
    assert_eq!(apply_jitter(230_000, 269_999), 1);
    assert_eq!(apply_jitter(0, 0), 500_000);
    assert_eq!(apply_jitter(u32::MAX, u32::MAX), 2 * (u32::MAX as u64) - 500_000);
}

#[test]
fn cardiovascular_rate_follows_each_covariate() {
    let mut c = level(ONE);
    c.sugar = 1_100_000;
    assert_eq!(c.cardiovascular_rate(), 2_200_000);
    let mut c = level(ONE);
    c.solid_fats = 1_500_000;
    assert_eq!(c.cardiovascular_rate(), 3_000_000);
    let mut c = level(ONE);
    c.salt = 1_500_000;
    assert_eq!(c.cardiovascular_rate(), 2_500_000);
    let mut c = level(ONE);
    c.fibre = 1_500_000;
    assert_eq!(c.cardiovascular_rate(), 1_500_000);
    let mut c = level(ONE);
    c.smoking = 1_250_000;
    assert_eq!(c.cardiovascular_rate(), 2_500_000);
    let mut c = level(ONE);
    c.binge_drinking = 1_050_000;
    assert_eq!(c.cardiovascular_rate(), 2_100_000);
    let mut c = level(ONE);
    c.vaping = 1_300_000;
    assert_eq!(c.cardiovascular_rate(), 2_300_000);
    let mut c = level(ONE);
    c.exercise = 1_300_000;
    assert_eq!(c.cardiovascular_rate(), 1_700_000);
    let mut c = level(ONE);
    c.drugs = 1_400_000;
    assert_eq!(c.cardiovascular_rate(), 2_800_000);
    let mut c = level(ONE);
    c.calcium = 5_000_000;
    c.hydration = 5_000_000;
    c.anti_vaccination = 5_000_000;
    assert_eq!(c.cardiovascular_rate(), 2_000_000);
}

#[test]
fn low_smoking_takes_a_flat_amount_and_alcohol_acts_otherwise() {
    let mut c = level(ONE);
    c.smoking = 999_999;
    c.alcohol = 1_400_000;
    assert_eq!(c.cardiovascular_rate(), 1_800_000);
    let mut c = level(ONE);
    c.smoking = 1_000_000;
    c.alcohol = 1_400_000;
    assert_eq!(c.cardiovascular_rate(), 2_400_000);
    let mut c = level(ONE);
    c.smoking = 1_000_000;
    c.alcohol = 600_000;
    assert_eq!(c.cardiovascular_rate(), 1_600_000);
    let mut c = level(ONE);
    c.smoking = 1_100_000;
    c.alcohol = 1_400_000;
    assert_eq!(c.cardiovascular_rate(), 2_600_000);
}

#[test]
fn short_sleep_adds_a_flat_amount() {
    let mut c = level(ONE);
    c.sleep = 499_999;
    assert_eq!(c.cardiovascular_rate(), 2_100_000);
    c.sleep = 500_000;
    assert_eq!(c.cardiovascular_rate(), 2_000_000);
}

#[test]
fn cardiovascular_rate_can_fall_below_zero() {
    let mut c = level(ONE);
    c.fibre = 40_000_000;
    c.exercise = 40_000_000;
    assert_eq!(c.cardiovascular_rate(), 2_000_000 - 39_000_000 - 39_000_000);
    assert!(!strikes(0, c.cardiovascular_rate()));
    let mut draws = no_draw_strikes();
    draws.cardiovascular = 0;
    assert_eq!(first_cause(30, &c, &draws), None);
}

#[test]
fn rates_hold_for_the_largest_covariates() {
    let c = level(u64::MAX);
    let above = u64::MAX as i128 - 1_000_000;
    assert_eq!(c.cardiovascular_rate(), 2_000_000 + 11 * above);
    assert_eq!(c.cancer_rate(), 1_300_000 + 9 * above);
    assert_eq!(c.respiratory_rate(), 500_000 + 3 * above);
    assert_eq!(c.digestive_rate(), 200_000 + 2 * above);
    assert_eq!(c.lower_respiratory_rate(), 100_000 + 2 * above);
}

#[test]
fn cancer_rate_follows_each_covariate() {
    let mut c = level(ONE);
    c.solid_fats = 1_100_000;
    c.salt = 1_100_000;
    c.smoking = 1_100_000;
    c.alcohol = 1_100_000;
    c.binge_drinking = 1_100_000;
    c.vaping = 1_100_000;
    assert_eq!(c.cancer_rate(), 1_300_000 + 200_000 + 100_000 + 200_000 + 100_000 + 200_000 + 100_000);
    assert_eq!(c.respiratory_rate(), 500_000 + 200_000 + 100_000);
    assert_eq!(c.digestive_rate(), 200_000 + 100_000 + 100_000);
    assert_eq!(c.lower_respiratory_rate(), 100_000 + 100_000 + 100_000);
    let mut c = level(ONE);
    c.sugar = 3_000_000;
    c.fibre = 3_000_000;
    c.exercise = 3_000_000;
    c.drugs = 3_000_000;
    assert_eq!(c.cancer_rate(), 1_300_000);
}

#[test]
fn a_draw_strikes_under_the_rate_only() {
    assert!(strikes(1_999_999, 2_000_000));
    assert!(!strikes(2_000_000, 2_000_000));
    assert!(!strikes(0, 0));
    assert!(!strikes(0, -1));
    assert!(strikes(u64::MAX, u64::MAX as i128 + 1));
}

#[test]
fn the_first_cause_that_strikes_wins() {
    let c = level(ONE);
    let mut draws = no_draw_strikes();
    assert_eq!(first_cause(30, &c, &draws), None);
    draws.lower_respiratory = 99_999;
    assert_eq!(first_cause(30, &c, &draws), Some(CauseOfDeath::LowerRespiratory));
    draws.digestive = 199_999;
    assert_eq!(first_cause(30, &c, &draws), Some(CauseOfDeath::Digestive));
    draws.respiratory = 499_999;
    assert_eq!(first_cause(30, &c, &draws), Some(CauseOfDeath::Respiratory));
    draws.cancer = 1_299_999;
    assert_eq!(first_cause(30, &c, &draws), Some(CauseOfDeath::Cancer));
    draws.cardiovascular = 1_999_999;
    assert_eq!(first_cause(30, &c, &draws), Some(CauseOfDeath::Cardiovascular));
    draws.cardiovascular = 2_000_000;
    assert_eq!(first_cause(30, &c, &draws), Some(CauseOfDeath::Cancer));
}

#[test]
fn neonatal_disease_and_dementia_depend_on_age() {
    let c = level(ONE);
    let mut draws = no_draw_strikes();
    draws.neonatal = 19;
    draws.dementia = 4;
    assert_eq!(first_cause(9, &c, &draws), Some(CauseOfDeath::Neonatal));
    assert_eq!(first_cause(10, &c, &draws), None);
    assert_eq!(first_cause(65, &c, &draws), None);
    assert_eq!(first_cause(66, &c, &draws), Some(CauseOfDeath::Dementia));
    draws.neonatal = 20;
    draws.dementia = 5;
    assert_eq!(first_cause(9, &c, &draws), None);
    assert_eq!(first_cause(66, &c, &draws), None);
    draws.neonatal = 0;
    draws.lower_respiratory = 0;
    assert_eq!(first_cause(1, &c, &draws), Some(CauseOfDeath::LowerRespiratory));
}

#[test]
fn fate_follows_from_the_draws_of_an_individual() {
    let diet = Diet::new(1_000_000, 1_000_000, 1_000_000, 1_000_000, 1_000_000);
    let habits = Habits::new(
        1_000_000, 1_000_000, 1_000_000, 1_000_000, 1_000_000, 1_000_000, 1_000_000, 1_000_000,
        1_000_000,
    );
    let mut draws = LifeDraws { age: 70, jitters: Jitters::none(), causes: no_draw_strikes() };
    assert_eq!(fate_of(&diet, &habits, &draws), None);
    draws.causes.dementia = 0;
    assert_eq!(fate_of(&diet, &habits, &draws), Some(CauseOfDeath::Dementia));
    draws.jitters.sugar = 999_999;
    draws.causes.cardiovascular = 2_999_997;
    assert_eq!(fate_of(&diet, &habits, &draws), Some(CauseOfDeath::Cardiovascular));
    draws.causes.cardiovascular = 2_999_998;
    assert_eq!(fate_of(&diet, &habits, &draws), Some(CauseOfDeath::Dementia));
}

#[test]
fn drawn_jitters_and_cause_draws_stay_below_their_bounds() {
    let mut source = RandomSource::from_seed(5);
    for _ in 0..200 {
        let j = draw_jitters(&mut source);
        for jitter in [
            j.calcium, j.sugar, j.solid_fats, j.salt, j.fibre, j.smoking, j.alcohol,
            j.binge_drinking, j.vaping, j.exercise, j.sleep, j.hydration, j.anti_vaccination,
            j.drugs,
        ] {
            assert!(jitter < 1_000_000);
        }
        let d = draw_causes(&mut source);
        for draw in [d.cardiovascular, d.cancer, d.respiratory, d.digestive, d.lower_respiratory] {
            assert!(draw < 1_000_000_000);
        }
        assert!(d.neonatal < 100);
        assert!(d.dementia < 100);
    }
}

#[test]
fn the_young_die_of_neonatal_disease_about_one_time_in_five() {
    let table = QuantileTable::new(vec![-1_275_000]).unwrap();
    let mut source = RandomSource::from_seed(2024);
    let diet = Diet::default();
    let habits = Habits::default();
    // every individual is 30.5 - 25.5 = 5 years old
    let deaths = mortality_pass(10_000, 30_500_000, &diet, &habits, &table, &mut source).unwrap();
    assert!(deaths > 1_700 && deaths < 2_400, "deaths: {}", deaths);
}

#[test]
fn nobody_dies_in_an_empty_population() {
    let table = QuantileTable::new(vec![0]).unwrap();
    let mut source = RandomSource::from_seed(1);
    let diet = Diet::default();
    let habits = Habits::default();
    assert_eq!(mortality_pass(0, 30_000_000, &diet, &habits, &table, &mut source), Ok(0));
}
