use life_universe_everything::population::Age;
use life_universe_everything::population::AgeGenderMap;
use life_universe_everything::population::Gender;
use life_universe_everything::population::Timeline;
use life_universe_everything::population::Year;
use life_universe_everything::simulator::ConfigurationError;
use life_universe_everything::simulator::Parameters;
use life_universe_everything::stability::trend;
use life_universe_everything::tables::birth_count;
use life_universe_everything::tables::death_probability;
use life_universe_everything::tables::initial_count;
use life_universe_everything::tables::male_share;
use life_universe_everything::tables::surviving;

fn standard(n_years: u16) -> Parameters {
    Parameters {
        initial_population: 10_000_000_000,
        n_years,
        max_age: Age(120),
        males_per_100_females: 105,
        target_total_fertility_rate: 2_064_060,
        infant_mortality_rate: 5_000,
    }
}

#[test]
fn initial_distribution_bands() {
    assert_eq!(initial_count(0, 120, 10_000_000_000), 83_333_333);
    assert_eq!(initial_count(20, 120, 10_000_000_000), 80_000_000);
    assert_eq!(initial_count(30, 120, 10_000_000_000), 68_333_333);
    assert_eq!(initial_count(60, 120, 10_000_000_000), 45_000_000);
    assert_eq!(initial_count(100, 120, 10_000_000_000), 8_035_714);
    assert_eq!(initial_count(121, 120, 10_000_000_000), 0);
}

#[test]
fn births_follow_rescaled_curve() {
    // At the nominal total rate, a woman of 27 gives birth with probability 0.13.
    assert_eq!(birth_count(27, 1_000_000, 2_525_000), 130_000);
    // Doubling the rate doubles the births.
    assert_eq!(birth_count(27, 1_000_000, 5_050_000), 260_000);
    assert_eq!(birth_count(10, 1_000_000, 2_525_000), 0);
    assert_eq!(birth_count(50, 1_000_000, 2_525_000), 0);
    assert_eq!(birth_count(47, 100, 2_525_000), 1);
    assert_eq!(birth_count(27, 1_000, 0), 0);
}

#[test]
fn deaths_follow_life_table() {
    assert_eq!(death_probability(1, Gender::Male, 120, 5_000), 390);
    assert_eq!(death_probability(1, Gender::Female, 120, 5_000), 300);
    assert_eq!(death_probability(0, Gender::Female, 120, 5_000), 5_000);
    assert_eq!(death_probability(110, Gender::Male, 120, 5_000), 436_220);
    assert_eq!(death_probability(120, Gender::Male, 120, 5_000), 1_000_000);
    assert_eq!(death_probability(121, Gender::Female, 120, 5_000), 1_000_000);
    assert_eq!(surviving(10_000, 390), 9_996);
    assert_eq!(surviving(1_000, 390), 1_000);
    assert_eq!(surviving(12_345, 1_000_000), 0);
    // Rounded deaths above the count clamp to zero.
    assert_eq!(surviving(3, 2_000_000), 0);
}

#[test]
fn newborn_split_by_sex_ratio() {
    assert_eq!(male_share(205, 105), 105);
    assert_eq!(male_share(1_000_000, 105), 512_195);
    assert_eq!(male_share(1, 105), 1);
    assert_eq!(male_share(0, 105), 0);
    let total: u64 = 10_000_000;
    let boys = male_share(total, 105);
    let exact = total as f64 * 105.0 / 205.0;
    assert!((boys as f64 - exact).abs() <= 0.5);
}

#[test]
fn age_gender_map_counts() {
    let map = AgeGenderMap { males: vec![1, 2, 3], females: vec![10, 20, 30] };
    assert_eq!(map.count(), 66);
    assert_eq!(map.count_gender(Gender::Male), 6);
    assert_eq!(map.count_gender(Gender::Female), 60);
    assert_eq!(map.count_age(Age(1)), 22);
    assert_eq!(map.count_age(Age(7)), 0);
    assert_eq!(map.count_age_gender(Age(2), Gender::Female), 30);
    let full = AgeGenderMap { males: vec![u64::MAX, 1], females: vec![] };
    assert_eq!(full.count(), u64::MAX);
}

#[test]
fn timeline_insert_and_lookup() {
    let mut t = Timeline::default();
    t.insert(Year(0), 5, 6);
    t.insert(Year(1), 7, 8);
    t.insert(Year(-1), 1, 2);
    t.insert(Year(0), 50, 60);
    assert_eq!(t.get_mf(Year(0)), (50, 60));
    assert_eq!(t.get_mf(Year(2)), (0, 0));
    assert_eq!(t.sum(Year(1)), 15);
    assert_eq!(t.sum(Year(9)), 0);
    assert_eq!(t.year_range(), (Year(-1), Year(1)));
    assert_eq!(
        t.iter_mf(),
        vec![(Year(-1), (1, 2)), (Year(0), (50, 60)), (Year(1), (7, 8))]
    );
}

#[test]
fn validation_names_the_field() {
    let mut p = standard(10);
    assert_eq!(p.validate(), Ok(()));
    p.max_age = Age(0);
    assert_eq!(p.validate(), Err(ConfigurationError::MaxAge));
    let mut q = standard(10);
    q.infant_mortality_rate = 1_000_001;
    assert_eq!(q.validate(), Err(ConfigurationError::InfantMortalityRate));
}

#[test]
fn short_run_has_empty_cohort_ledger() {
    let r = standard(50).run().unwrap();
    assert!(r.cohort_fertility.0.is_empty());
    assert_eq!(r.timeline.males.len(), 51);
    assert_eq!(r.timeline.year_range(), (Year(0), Year(50)));
}

#[test]
fn long_run_keeps_trimmed_cohorts() {
    let r = standard(250).run().unwrap();
    let years: Vec<i32> = r.cohort_fertility.0.iter().map(|(y, _)| y.0).collect();
    assert_eq!(years.len(), 51);
    assert_eq!(years[0], 100);
    assert_eq!(years[50], 150);
    for (_, cohort) in &r.cohort_fertility.0 {
        assert!(cohort.females > 0);
        assert!(cohort.births > 0);
    }
}

#[test]
fn nobody_above_max_age() {
    let r = standard(30).run().unwrap();
    assert_eq!(r.initial_population.count_age(Age(121)), 0);
    assert_eq!(r.final_population.count_age(Age(121)), 0);
    assert_eq!(r.final_population.count_age(Age(120)), 0);
    assert!(r.final_population.count_age(Age(119)) > 0);
}

#[test]
fn run_is_deterministic() {
    let a = standard(120).run().unwrap();
    let b = standard(120).run().unwrap();
    assert_eq!(a.final_population.males, b.final_population.males);
    assert_eq!(a.final_population.females, b.final_population.females);
    assert_eq!(a.timeline.males, b.timeline.males);
    assert_eq!(a.timeline.females, b.timeline.females);
    assert_eq!(a.cohort_fertility.0, b.cohort_fertility.0);
}

#[test]
fn aging_shifts_counts_up() {
    let mut p = standard(1);
    p.target_total_fertility_rate = 0;
    p.infant_mortality_rate = 0;
    let r = p.run().unwrap();
    for age in 1..=118u8 {
        let before = r.initial_population.count_age_gender(Age(age - 1), Gender::Male);
        let rate = death_probability(age as usize, Gender::Male, 120, 0);
        let after = r.final_population.count_age_gender(Age(age), Gender::Male);
        assert_eq!(after, surviving(before, rate));
    }
    assert_eq!(r.final_population.count_age_gender(Age(0), Gender::Female), 0);
}

#[test]
fn no_growth_without_fertility() {
    let mut p = standard(60);
    p.target_total_fertility_rate = 0;
    let r = p.run().unwrap();
    let totals: Vec<u64> = r.timeline.iter_mf().iter().map(|(_, (m, f))| m + f).collect();
    for w in totals.windows(2) {
        assert!(w[1] <= w[0]);
    }
    for age in 0..60u8 {
        assert_eq!(r.final_population.count_age(Age(age)), 0);
    }
}

#[test]
fn first_year_totals_and_newborns() {
    let p = standard(1);
    let r = p.run().unwrap();
    let (m0, f0) = r.timeline.get_mf(Year(0));
    assert_eq!(m0, r.initial_population.count_gender(Gender::Male));
    assert_eq!(f0, r.initial_population.count_gender(Gender::Female));
    let boys = r.final_population.count_age_gender(Age(0), Gender::Male);
    let girls = r.final_population.count_age_gender(Age(0), Gender::Female);
    assert!(boys > girls);
    let ratio = boys as f64 / (boys + girls) as f64;
    assert!((ratio - 105.0 / 205.0).abs() < 1e-4);
}

#[test]
fn trend_of_collapsing_timeline() {
    let mut t = Timeline::default();
    for (y, total) in [900u64, 800, 600, 290, 100, 50].iter().enumerate() {
        t.insert(Year(y as i32), total / 2, total / 2);
    }
    let r = trend(&t, 900);
    assert_eq!(r.end_year, Year(3));
    assert_eq!(r.end_total, 290);
    assert_eq!(r.halfway_year, Year(1));
    assert_eq!(r.halfway_total, 800);
}

#[test]
fn trend_of_steady_timeline() {
    let mut t = Timeline::default();
    for y in 0..11 {
        t.insert(Year(y), 500, 500 + y as u64);
    }
    let r = trend(&t, 1000);
    assert_eq!(r.end_year, Year(10));
    assert_eq!(r.halfway_year, Year(5));
    assert_eq!(r.end_total, 1010);
    assert_eq!(r.halfway_total, 1005);
}

#[test]
fn stability_trend_caps_the_rate() {
    let p = standard(40);
    assert_eq!(p.stability_trend(9_000_000).unwrap(), p.stability_trend(3_000_000).unwrap());
    assert_ne!(p.stability_trend(2_000_000).unwrap(), p.stability_trend(3_000_000).unwrap());
}

#[test]
fn oldest_band_spans_to_max_age() {
    // 9% over the 36 years 65..=100, halved.
    assert_eq!(initial_count(70, 100, 10_000_000_000), 12_500_000);
    assert_eq!(initial_count(100, 100, 10_000_000_000), 12_500_000);
    assert_eq!(initial_count(101, 100, 10_000_000_000), 0);
    assert_eq!(initial_count(80, 80, 10_000_000_000), 28_125_000);
}

#[test]
fn initial_total_matches_population() {
    for max_age in [70u8, 100, 120, 200, 254] {
        let mut p = standard(0);
        p.max_age = Age(max_age);
        let r = p.run().unwrap();
        let total = r.initial_population.count() as i128;
        let slack = 2 * (max_age as i128 + 2);
        assert!((10_000_000_000i128 - total).abs() <= slack, "{} {}", max_age, total);
    }
}

#[test]
fn run_rejects_invalid_parameters() {
    let mut p = standard(10);
    p.max_age = Age(0);
    assert!(matches!(p.run(), Err(ConfigurationError::MaxAge)));
    let mut q = standard(10);
    q.infant_mortality_rate = 2_000_000;
    assert!(matches!(q.run(), Err(ConfigurationError::InfantMortalityRate)));
    assert_eq!(q.stability_trend(2_000_000), Err(ConfigurationError::InfantMortalityRate));
}
