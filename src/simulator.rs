//! The cohort simulation: the yearly transition as a mathematical model, the
//! engine that carries it out in place, and the driver `Parameters::run`.
use vstd::prelude::*;
pub use crate::population::Age;
pub use crate::population::AgeGenderMap;
pub use crate::population::CohortData;
pub use crate::population::CohortFertility;
pub use crate::population::Count;
pub use crate::population::Gender;
pub use crate::population::Timeline;
pub use crate::population::Year;
use crate::population::saturate;
use crate::population::seq_total;
use crate::population::lemma_saturate_add;
use crate::tables::RATE_SCALE;
use crate::tables::birth_count;
use crate::tables::births_at;
use crate::tables::death_probability;
use crate::tables::death_rate;
use crate::tables::initial_count;
use crate::tables::initial_count_spec;
use crate::tables::male_newborns;
use crate::tables::male_share;
use crate::tables::surviving;
use crate::tables::survivors;

verus! {

/// The inputs of one simulation. Rates are in millionths: a total fertility
/// rate of 2.06406 is `2_064_060`, an infant mortality of 0.005 is `5_000`.
#[derive(Clone, Copy, Debug, PartialEq, Eq, Structural)]
pub struct Parameters {
    pub initial_population: Count,
    pub n_years: u16,
    pub max_age: Age,
    pub males_per_100_females: u8,
    pub target_total_fertility_rate: u32,
    pub infant_mortality_rate: u32,
}

/// A parameter outside the range in which the model means anything.
#[derive(Clone, Copy, Debug, PartialEq, Eq, Structural)]
pub enum ConfigurationError {
    /// `max_age` is zero.
    MaxAge,
    /// `infant_mortality_rate` is above one.
    InfantMortalityRate,
}

/// The outcome of one simulation.
pub struct SimulationResult {
    pub initial_population: AgeGenderMap,
    pub final_population: AgeGenderMap,
    pub cohort_fertility: CohortFertility,
    pub timeline: Timeline,
}

/// Males by age, females by age, and the cohort ledger indexed by birth year
/// plus `ledger_offset`.
pub type ModelState = (Seq<u64>, Seq<u64>, Seq<CohortData>);

/// Age buckets held: ages `0..=max_age`, and one more that receives those who
/// age past `max_age` until the death step removes them.
pub open spec fn bucket_count(p: Parameters) -> nat {
    p.max_age.0 as nat + 2
}

/// Mothers are at most `max_age + 1` years old, so cohorts born that long
/// before year 0 are the earliest that the ledger needs.
pub open spec fn ledger_offset(p: Parameters) -> int {
    p.max_age.0 as int + 1
}

pub open spec fn ledger_len(p: Parameters) -> nat {
    p.n_years as nat + p.max_age.0 as nat + 1
}

pub open spec fn initial_counts(p: Parameters) -> Seq<u64> {
    Seq::new(
        bucket_count(p),
        |a: int| initial_count_spec(a, p.max_age.0 as int, p.initial_population as int) as u64,
    )
}

pub open spec fn empty_ledger(n: nat) -> Seq<CohortData> {
    Seq::new(n, |i: int| CohortData { females: 0, births: 0 })
}

/// Everyone one year older: the count at each age moves to the next age, the
/// newborn bucket is empty, and the topmost bucket's count leaves.
pub open spec fn aged(s: Seq<u64>) -> Seq<u64> {
    Seq::new(
        s.len(),
        |a: int|
            if a == 0 {
                0u64
            } else {
                s[a - 1]
            },
    )
}

/// Births to the women of ages below `n`.
pub open spec fn births_before(females: Seq<u64>, tfr: int, n: int) -> int
    decreases n,
{
    if n <= 0 {
        0
    } else {
        births_before(females, tfr, n - 1) + births_at(n - 1, females[n - 1] as int, tfr)
    }
}

/// All births of a year, saturated.
pub open spec fn newborns(females: Seq<u64>, tfr: int) -> int {
    saturate(births_before(females, tfr, females.len() as int))
}

/// The ledger after adding, to each mother's own birth cohort, the births of
/// the mothers of ages below `n`; `birth_index` is the ledger index of this year.
pub open spec fn ledger_births_before(
    ledger: Seq<CohortData>,
    females: Seq<u64>,
    tfr: int,
    birth_index: int,
    n: int,
) -> Seq<CohortData> {
    Seq::new(
        ledger.len(),
        |i: int|
            CohortData {
                females: ledger[i].females,
                births: if 0 <= birth_index - i < n {
                    saturate(
                        ledger[i].births + births_at(
                            birth_index - i,
                            females[birth_index - i] as int,
                            tfr,
                        ),
                    ) as u64
                } else {
                    ledger[i].births
                },
            },
    )
}

/// The ledger after a year's births: each mother's cohort gains her
/// children, and this year's cohort gains its female newborns.
pub open spec fn ledger_after_births(
    ledger: Seq<CohortData>,
    females: Seq<u64>,
    tfr: int,
    birth_index: int,
    female_newborns: int,
) -> Seq<CohortData> {
    let l = ledger_births_before(ledger, females, tfr, birth_index, females.len() as int);
    l.update(
        birth_index,
        CohortData {
            females: saturate(l[birth_index].females + female_newborns) as u64,
            births: l[birth_index].births,
        },
    )
}

/// Each bucket after its expected deaths.
pub open spec fn survivors_seq(s: Seq<u64>, gender: Gender, max_age: int, infant: int) -> Seq<
    u64,
> {
    Seq::new(
        s.len(),
        |a: int| survivors(s[a] as int, death_rate(a, gender, max_age, infant)) as u64,
    )
}

/// One simulated year, `year`: aging, then births, then deaths.
pub open spec fn step(p: Parameters, s: ModelState, year: int) -> ModelState {
    let males = aged(s.0);
    let females = aged(s.1);
    let total = newborns(females, p.target_total_fertility_rate as int);
    let boys = male_newborns(total, p.males_per_100_females as int);
    let max_age = p.max_age.0 as int;
    let infant = p.infant_mortality_rate as int;
    (
        survivors_seq(males.update(0, boys as u64), Gender::Male, max_age, infant),
        survivors_seq(females.update(0, (total - boys) as u64), Gender::Female, max_age, infant),
        ledger_after_births(
            s.2,
            females,
            p.target_total_fertility_rate as int,
            year + ledger_offset(p),
            total - boys,
        ),
    )
}

/// The state after `k` simulated years.
pub open spec fn state_after(p: Parameters, k: nat) -> ModelState
    decreases k,
{
    if k == 0 {
        (initial_counts(p), initial_counts(p), empty_ledger(ledger_len(p)))
    } else {
        step(p, state_after(p, (k - 1) as nat), k - 1)
    }
}

/// Number of cohorts whose whole fertile life lies inside the simulated
/// years: those born in `100..=n_years - 100`.
pub open spec fn window_len(p: Parameters) -> nat {
    if p.n_years >= 200 {
        (p.n_years - 199) as nat
    } else {
        0
    }
}

/// The cohorts born in `100..=n_years - 100`, in year order.
pub open spec fn trimmed_ledger(p: Parameters) -> Seq<(Year, CohortData)> {
    Seq::new(
        window_len(p),
        |i: int|
            (
                Year((100 + i) as i32),
                state_after(p, p.n_years as nat).2[100 + i + ledger_offset(p)],
            ),
    )
}

/// Total of one gender after `k` years, as the timeline records it.
pub open spec fn male_total(p: Parameters, k: nat) -> u64 {
    saturate(seq_total(state_after(p, k).0)) as u64
}

pub open spec fn female_total(p: Parameters, k: nat) -> u64 {
    saturate(seq_total(state_after(p, k).1)) as u64
}

impl SimulationResult {
    /// This is exactly the result of simulating `p`.
    pub open spec fn is_run_of(&self, p: Parameters) -> bool {
        &&& self.initial_population.males@ == initial_counts(p)
        &&& self.initial_population.females@ == initial_counts(p)
        &&& self.final_population.males@ == state_after(p, p.n_years as nat).0
        &&& self.final_population.females@ == state_after(p, p.n_years as nat).1
        &&& self.cohort_fertility.0@ == trimmed_ledger(p)
        &&& self.cohort_fertility.wf()
        &&& self.timeline.wf()
        &&& self.timeline.first_year == Year(0)
        &&& self.timeline.males@ == Seq::new(
            p.n_years as nat + 1,
            |k: int| male_total(p, k as nat),
        )
        &&& self.timeline.females@ == Seq::new(
            p.n_years as nat + 1,
            |k: int| female_total(p, k as nat),
        )
    }
}

impl Parameters {
    /// Rejects the parameters on which the model means nothing.
    pub open spec fn validation(&self) -> Result<(), ConfigurationError> {
        if self.max_age.0 == 0 {
            Err(ConfigurationError::MaxAge)
        } else if self.infant_mortality_rate > RATE_SCALE {
            Err(ConfigurationError::InfantMortalityRate)
        } else {
            Ok(())
        }
    }

    pub fn validate(&self) -> (r: Result<(), ConfigurationError>)
        ensures
            r == self.validation(),
    {
        if self.max_age.0 == 0 {
            Err(ConfigurationError::MaxAge)
        } else if self.infant_mortality_rate as u64 > RATE_SCALE {
            Err(ConfigurationError::InfantMortalityRate)
        } else {
            Ok(())
        }
    }
}

impl Parameters {
    /// Rejects invalid parameters with `validate`'s error; otherwise simulates
    /// `n_years` years from the initial population: the initial and final
    /// snapshots, the male and female totals of years `0..=n_years`, and the
    /// ledger of the cohorts born in `100..=n_years - 100`.
    pub fn run(self) -> (r: Result<SimulationResult, ConfigurationError>)
        ensures
            self.validation() is Err ==> r == Err::<SimulationResult, ConfigurationError>(
                self.validation()->Err_0,
            ),
            self.validation() is Ok ==> r is Ok && r->Ok_0.is_run_of(self),
    {
        match self.validate() {
            Err(e) => Err(e),
            Ok(()) => Ok(self.simulate()),
        }
    }

    /// The simulation itself, on any parameters.
    fn simulate(self) -> (r: SimulationResult)
        ensures
            r.is_run_of(self),
    {
        let mut population = PopulationSimulator::new(self);
        let initial_population = population.map.duplicate();
        let mut timeline = Timeline::default();
        let m = population.map.count_gender(Gender::Male);
        let f = population.map.count_gender(Gender::Female);
        timeline.insert(Year(0), m, f);
        assert(timeline.males@ =~= Seq::new(1, |k: int| male_total(self, k as nat)));
        assert(timeline.females@ =~= Seq::new(1, |k: int| female_total(self, k as nat)));
        let mut year: u16 = 0;
        while year < self.n_years
            invariant
                population.wf(),
                population.parameters == self,
                year <= self.n_years,
                population.state() == state_after(self, year as nat),
                timeline.wf(),
                timeline.first_year == Year(0),
                timeline.males@ == Seq::new(year as nat + 1, |k: int| male_total(self, k as nat)),
                timeline.females@ == Seq::new(
                    year as nat + 1,
                    |k: int| female_total(self, k as nat),
                ),
            decreases self.n_years - year,
        {
            population.propagate_age();
            assert(population.map.males@[0] == 0 && population.map.females@[0] == 0);
            population.handle_births(year);
            population.handle_deaths();
            assert(population.state() == state_after(self, year as nat + 1));
            let m = population.map.count_gender(Gender::Male);
            let f = population.map.count_gender(Gender::Female);
            timeline.insert(Year(year as i32 + 1), m, f);
            year = year + 1;
            assert(timeline.males@ =~= Seq::new(
                year as nat + 1,
                |k: int| male_total(self, k as nat),
            ));
            assert(timeline.females@ =~= Seq::new(
                year as nat + 1,
                |k: int| female_total(self, k as nat),
            ));
        }
        let ghost last = state_after(self, self.n_years as nat);
        let offset = self.max_age.0 as usize + 1;
        let mut cohorts: Vec<(Year, CohortData)> = Vec::new();
        let mut y: u16 = 100;
        while y as u32 + 100 <= self.n_years as u32
            invariant
                population.wf(),
                population.parameters == self,
                population.state() == last,
                last == state_after(self, self.n_years as nat),
                offset == ledger_offset(self),
                100 <= y,
                y as int - 100 <= window_len(self),
                cohorts@ =~= trimmed_ledger(self).take(y - 100),
            decreases self.n_years - y,
        {
            cohorts.push((Year(y as i32), population.cohort_fertility[y as usize + offset]));
            y = y + 1;
        }
        assert(cohorts@ =~= trimmed_ledger(self));
        SimulationResult {
            initial_population,
            final_population: population.map,
            cohort_fertility: CohortFertility(cohorts),
            timeline,
        }
    }
}

/// The state of one run, owned and changed in place by its yearly steps.
struct PopulationSimulator {
    map: AgeGenderMap,
    cohort_fertility: Vec<CohortData>,
    parameters: Parameters,
}

impl PopulationSimulator {
    spec fn wf(&self) -> bool {
        &&& self.map.males@.len() == bucket_count(self.parameters)
        &&& self.map.females@.len() == bucket_count(self.parameters)
        &&& self.cohort_fertility@.len() == ledger_len(self.parameters)
    }

    spec fn state(&self) -> ModelState {
        (self.map.males@, self.map.females@, self.cohort_fertility@)
    }

    fn new(parameters: Parameters) -> (r: PopulationSimulator)
        ensures
            r.wf(),
            r.parameters == parameters,
            r.state() == state_after(parameters, 0),
    {
        let max_age = parameters.max_age.0 as usize;
        let mut counts: Vec<Count> = Vec::new();
        let mut age: usize = 0;
        while age <= max_age + 1
            invariant
                max_age == parameters.max_age.0,
                age <= max_age + 2,
                counts@ =~= initial_counts(parameters).take(age as int),
            decreases max_age + 2 - age,
        {
            counts.push(initial_count(age, max_age, parameters.initial_population));
            age = age + 1;
        }
        let n = parameters.n_years as usize + max_age + 1;
        let mut ledger: Vec<CohortData> = Vec::new();
        let mut i: usize = 0;
        while i < n
            invariant
                i <= n,
                ledger@ =~= empty_ledger(n as nat).take(i as int),
            decreases n - i,
        {
            ledger.push(CohortData { females: 0, births: 0 });
            i = i + 1;
        }
        assert(counts@ =~= initial_counts(parameters));
        assert(ledger@ =~= empty_ledger(ledger_len(parameters)));
        PopulationSimulator {
            map: AgeGenderMap { males: counts.clone(), females: counts },
            cohort_fertility: ledger,
            parameters,
        }
    }

    /// Moves every count one age up, from the top down so that each bucket is
    /// read before it is overwritten.
    fn propagate_age(&mut self)
        requires
            old(self).wf(),
        ensures
            final(self).wf(),
            final(self).parameters == old(self).parameters,
            final(self).cohort_fertility@ == old(self).cohort_fertility@,
            final(self).map.males@ == aged(old(self).map.males@),
            final(self).map.females@ == aged(old(self).map.females@),
    {
        let ghost om = self.map.males@;
        let ghost of = self.map.females@;
        let top = self.parameters.max_age.0 as usize + 1;
        let mut k: usize = top;
        while k > 0
            invariant
                self.wf(),
                self.parameters == old(self).parameters,
                self.cohort_fertility@ == old(self).cohort_fertility@,
                top == self.parameters.max_age.0 + 1,
                om.len() == top + 1,
                of.len() == top + 1,
                k <= top,
                forall|a: int| k < a <= top ==> #[trigger] self.map.males@[a] == om[a - 1],
                forall|a: int| k < a <= top ==> #[trigger] self.map.females@[a] == of[a - 1],
                forall|a: int| 0 <= a < k ==> #[trigger] self.map.males@[a] == om[a],
                forall|a: int| 0 <= a < k ==> #[trigger] self.map.females@[a] == of[a],
                k == top ==> self.map.males@[k as int] == om[k as int] && self.map.females@[k as int]
                    == of[k as int],
                k < top ==> self.map.males@[k as int] == 0 && self.map.females@[k as int] == 0,
            decreases k,
        {
            let a = k - 1;
            let m = self.map.males[a];
            self.map.males.set(a + 1, m);
            self.map.males.set(a, 0);
            let f = self.map.females[a];
            self.map.females.set(a + 1, f);
            self.map.females.set(a, 0);
            k = a;
        }
        assert(self.map.males@ =~= aged(om));
        assert(self.map.females@ =~= aged(of));
    }

    /// The births of `year`: each fertile age bucket's expected births go to
    /// the mother's own birth cohort and into the year's newborns, which are
    /// split into boys and girls and enter the age-0 buckets.
    fn handle_births(&mut self, year: u16)
        requires
            old(self).wf(),
            year < old(self).parameters.n_years,
        ensures
            final(self).wf(),
            final(self).parameters == old(self).parameters,
            ({
                let p = old(self).parameters;
                let total = newborns(old(self).map.females@, p.target_total_fertility_rate as int);
                let boys = male_newborns(total, p.males_per_100_females as int);
                &&& 0 <= boys <= total <= u64::MAX
                &&& final(self).map.males@ == old(self).map.males@.update(
                    0,
                    saturate(old(self).map.males@[0] + boys) as u64,
                )
                &&& final(self).map.females@ == old(self).map.females@.update(
                    0,
                    saturate(old(self).map.females@[0] + (total - boys)) as u64,
                )
                &&& final(self).cohort_fertility@ == ledger_after_births(
                    old(self).cohort_fertility@,
                    old(self).map.females@,
                    p.target_total_fertility_rate as int,
                    year + ledger_offset(p),
                    total - boys,
                )
            }),
    {
        let ghost ol = self.cohort_fertility@;
        let ghost females = self.map.females@;
        let tfr = self.parameters.target_total_fertility_rate;
        let birth_index: usize = year as usize + self.parameters.max_age.0 as usize + 1;
        let mut total: u64 = 0;
        let mut age: usize = 0;
        while age < self.map.females.len()
            invariant
                self.wf(),
                self.parameters == old(self).parameters,
                self.map == old(self).map,
                females == self.map.females@,
                tfr == self.parameters.target_total_fertility_rate,
                birth_index == year + ledger_offset(self.parameters),
                year < self.parameters.n_years,
                age <= females.len(),
                total == saturate(births_before(females, tfr as int, age as int)),
                self.cohort_fertility@ == ledger_births_before(
                    ol,
                    females,
                    tfr as int,
                    birth_index as int,
                    age as int,
                ),
            decreases females.len() - age,
        {
            let b = birth_count(age, self.map.females[age], tfr);
            let i = birth_index - age;
            let d = self.cohort_fertility[i];
            self.cohort_fertility.set(
                i,
                CohortData { females: d.females, births: d.births.saturating_add(b) },
            );
            proof {
                lemma_births_before_nonneg(females, tfr as int, age as int);
                lemma_saturate_add(births_before(females, tfr as int, age as int), b as int);
            }
            total = total.saturating_add(b);
            age = age + 1;
            assert(self.cohort_fertility@ =~= ledger_births_before(
                ol,
                females,
                tfr as int,
                birth_index as int,
                age as int,
            ));
        }
        let boys = male_share(total, self.parameters.males_per_100_females);
        let girls = total - boys;
        let d = self.cohort_fertility[birth_index];
        self.cohort_fertility.set(
            birth_index,
            CohortData { females: d.females.saturating_add(girls), births: d.births },
        );
        let m0 = self.map.males[0];
        self.map.males.set(0, m0.saturating_add(boys));
        let f0 = self.map.females[0];
        self.map.females.set(0, f0.saturating_add(girls));
    }

    /// The deaths of the year: each bucket loses its expected deaths.
    fn handle_deaths(&mut self)
        requires
            old(self).wf(),
        ensures
            final(self).wf(),
            final(self).parameters == old(self).parameters,
            final(self).cohort_fertility@ == old(self).cohort_fertility@,
            final(self).map.males@ == survivors_seq(
                old(self).map.males@,
                Gender::Male,
                old(self).parameters.max_age.0 as int,
                old(self).parameters.infant_mortality_rate as int,
            ),
            final(self).map.females@ == survivors_seq(
                old(self).map.females@,
                Gender::Female,
                old(self).parameters.max_age.0 as int,
                old(self).parameters.infant_mortality_rate as int,
            ),
    {
        let ghost om = self.map.males@;
        let ghost of = self.map.females@;
        let max_age = self.parameters.max_age.0 as usize;
        let infant = self.parameters.infant_mortality_rate;
        let mut age: usize = 0;
        while age < self.map.males.len()
            invariant
                self.wf(),
                self.parameters == old(self).parameters,
                self.cohort_fertility@ == old(self).cohort_fertility@,
                max_age == self.parameters.max_age.0,
                infant == self.parameters.infant_mortality_rate,
                om.len() == self.map.males@.len(),
                of.len() == self.map.females@.len(),
                age <= om.len(),
                forall|a: int|
                    0 <= a < age ==> #[trigger] self.map.males@[a] == survivors_seq(
                        om,
                        Gender::Male,
                        max_age as int,
                        infant as int,
                    )[a],
                forall|a: int|
                    0 <= a < age ==> #[trigger] self.map.females@[a] == survivors_seq(
                        of,
                        Gender::Female,
                        max_age as int,
                        infant as int,
                    )[a],
                forall|a: int| age <= a < om.len() ==> #[trigger] self.map.males@[a] == om[a],
                forall|a: int| age <= a < of.len() ==> #[trigger] self.map.females@[a] == of[a],
            decreases om.len() - age,
        {
            let m = self.map.males[age];
            let pm = death_probability(age, Gender::Male, max_age, infant);
            self.map.males.set(age, surviving(m, pm));
            let f = self.map.females[age];
            let pf = death_probability(age, Gender::Female, max_age, infant);
            self.map.females.set(age, surviving(f, pf));
            age = age + 1;
        }
        assert(self.map.males@ =~= survivors_seq(om, Gender::Male, max_age as int, infant as int));
        assert(self.map.females@ =~= survivors_seq(
            of,
            Gender::Female,
            max_age as int,
            infant as int,
        ));
    }
}

proof fn lemma_births_before_nonneg(females: Seq<u64>, tfr: int, n: int)
    requires
        tfr >= 0,
    ensures
        births_before(females, tfr, n) >= 0,
    decreases n,
{
    if n > 0 {
        lemma_births_before_nonneg(females, tfr, n - 1);
    }
}

} // verus!
