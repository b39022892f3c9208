use argmin::solver::neldermead::NelderMead;
use life_universe_everything::population::Age;
use life_universe_everything::population::Year;
use life_universe_everything::simulator::Parameters;

struct Stability(Parameters);

fn to_rate(x: f64) -> u32 {
    (x.clamp(0.0, 3.0) * 1e6).round() as u32
}

impl argmin::core::CostFunction for Stability {
    type Param = f64;
    type Output = f64;

    fn cost(&self, param: &f64) -> Result<f64, argmin::core::Error> {
        let t = self.0.stability_trend(to_rate(*param)).unwrap();
        let years = (t.end_year.0 - t.halfway_year.0) as f64;
        let slope = (t.end_total as f64 - t.halfway_total as f64) / years;
        Ok(slope * slope)
    }
}

#[test]
fn optimizer_finds_stable_fertility() {
    let parameters = Parameters {
        initial_population: 10_000_000_000,
        n_years: 2000,
        max_age: Age(120),
        males_per_100_females: 105,
        target_total_fertility_rate: 2_064_060,
        infant_mortality_rate: 5_000,
    };
    let tfr = parameters.target_total_fertility_rate as f64 / 1e6;
    let solver = NelderMead::new(vec![tfr - 0.05, tfr + 0.05]);
    let res = argmin::core::Executor::new(Stability(parameters), solver)
        .configure(|state| state.max_iters(10_000))
        .run()
        .unwrap();
    let best = res.state.best_param.unwrap();
    let mut solved = parameters;
    solved.target_total_fertility_rate = to_rate(best);
    assert!(solved.target_total_fertility_rate >= 2_000_000);
    assert!(solved.target_total_fertility_rate <= 2_200_000);
    let result = solved.run().unwrap();
    let final_total = result.final_population.count() as f64;
    let halfway_total = result.timeline.sum(Year(1000)) as f64;
    assert!((final_total - halfway_total).abs() <= 0.001 * halfway_total);
    // The population settles at about 12.79 billion: the initial age
    // distribution is younger than the stable one and carries it upwards.
    assert!(final_total > 12_700_000_000.0 && final_total < 12_900_000_000.0);
}
