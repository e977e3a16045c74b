use beanreadings::age::{accept_age, candidate, AGE_ATTEMPTS};
use beanreadings::{generate_age, LegacyAgeGenerator, QuantileTable, RandomSource, SimulationError};
use errorfunctions::RealErrorFunctions;

/// The quantile of the standard normal distribution at `p`, by bisection on
/// its distribution function.
fn probit(p: f64) -> f64 {
    let mut low = -40.0_f64;
    let mut high = 40.0_f64;
    for _ in 0..200 {
        let middle = 0.5 * (low + high);
        let below = 0.5 * (1.0 + (middle / 2.0_f64.sqrt()).erf());
        if below < p {
            low = middle;
        } else {
            high = middle;
        }
    }
    0.5 * (low + high)
}

/// Quantiles at the probabilities `k / size`, in millionths. The first, at
/// probability zero, lies below every number.
fn standard_quantiles(size: usize) -> Vec<i64> {
    let mut entries = Vec::with_capacity(size);
    for k in 0..size {
        if k == 0 {
            entries.push(i64::MIN);
        } else {
            entries.push((probit(k as f64 / size as f64) * 1.0e6).round() as i64);
        }
    }
    entries
}

#[test]
fn test_legacy_distribution() {
    let table = QuantileTable::new(standard_quantiles(1024)).unwrap();
    let age_gen = LegacyAgeGenerator::new(35_000_000, table);
    let mut source = RandomSource::from_seed(35);

    let mut age_count = vec![0; 101];

    for _ in 0..1000 {
        let age = age_gen.generate_age(&mut source).unwrap();
        age_count[age as usize] += 1;
    }

    for (i, count) in age_count.iter().enumerate() {
        if *count != 0 {
            println!("Age: {} Count: {}", i, count);
        }
    }
}

#[test]
fn quantile_table_rejects_empty() {
    assert!(matches!(QuantileTable::new(vec![]), Err(SimulationError::InvalidConfiguration)));
}

#[test]
fn quantile_table_rejects_decreasing_entries() {
    assert!(matches!(
        QuantileTable::new(vec![-1_000_000, 0, -1, 1_000_000]),
        Err(SimulationError::InvalidConfiguration)
    ));
}

#[test]
fn quantile_table_takes_repeated_entries() {
    let table = QuantileTable::new(vec![-5, -5, 0, 7, 7]).unwrap();
    assert_eq!(table.len(), 5);
    assert_eq!(table.deviate(0), -5);
    assert_eq!(table.deviate(3), 7);
}

#[test]
fn candidate_scales_by_twenty_years() {
    assert_eq!(candidate(30_000_000, 0), 30_000_000);
    assert_eq!(candidate(30_000_000, 1_000_000), 50_000_000);
    assert_eq!(candidate(30_000_000, -1_500_000), 0);
    assert_eq!(candidate(30_000_000, -2_000_000), -10_000_000);
    assert_eq!(candidate(0, i64::MIN), 20 * (i64::MIN as i128));
    assert_eq!(candidate(u64::MAX, i64::MAX), u64::MAX as i128 + 20 * (i64::MAX as i128));
}

#[test]
fn accepted_ages_round_up() {
    assert_eq!(accept_age(0), None);
    assert_eq!(accept_age(-1), None);
    assert_eq!(accept_age(1), Some(1));
    assert_eq!(accept_age(1_000_000), Some(1));
    assert_eq!(accept_age(1_000_001), Some(2));
    assert_eq!(accept_age(30_800_000), Some(31));
    assert_eq!(accept_age(35_000_000), Some(35));
    assert_eq!(accept_age(i128::MAX), Some(u32::MAX));
    assert_eq!(accept_age(u32::MAX as i128 * 1_000_000), Some(u32::MAX));
    assert_eq!(accept_age((u32::MAX as i128 - 1) * 1_000_000), Some(u32::MAX - 1));
}

#[test]
fn single_entry_table_gives_one_age() {
    let table = QuantileTable::new(vec![250_000]).unwrap();
    let mut source = RandomSource::from_seed(1);
    for _ in 0..50 {
        assert_eq!(generate_age(30_400_000, &table, &mut source), Ok(36));
    }
}

#[test]
fn ages_come_from_the_table() {
    let table = QuantileTable::new(vec![-1_000_000, 0, 1_000_000]).unwrap();
    let mut source = RandomSource::from_seed(7);
    let mut seen = [false; 3];
    for _ in 0..200 {
        let age = generate_age(40_000_000, &table, &mut source).unwrap();
        match age {
            20 => seen[0] = true,
            40 => seen[1] = true,
            60 => seen[2] = true,
            other => panic!("age {} is not in the table", other),
        }
    }
    assert_eq!(seen, [true, true, true]);
}

#[test]
fn rejected_draws_are_made_again() {
    let table = QuantileTable::new(vec![-3_000_000, -2_000_000, 500_000]).unwrap();
    let mut source = RandomSource::from_seed(11);
    for _ in 0..100 {
        assert_eq!(generate_age(30_000_000, &table, &mut source), Ok(40));
    }
}

#[test]
fn sampling_gives_up_when_no_age_is_positive() {
    assert_eq!(AGE_ATTEMPTS, 1000);
    let table = QuantileTable::new(vec![-4_000_000, -3_000_000, -1_500_000]).unwrap();
    let mut source = RandomSource::from_seed(3);
    assert_eq!(
        generate_age(30_000_000, &table, &mut source),
        Err(SimulationError::SamplingExhausted)
    );
    let generator = LegacyAgeGenerator::new(30_000_000, table);
    assert_eq!(generator.median_age, 30_000_000);
    assert_eq!(generator.generate_age(&mut source), Err(SimulationError::SamplingExhausted));
}
