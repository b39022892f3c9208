//! Laws of the yearly transition, proved over the model in `simulator`.
use vstd::prelude::*;
use vstd::arithmetic::div_mod::lemma_fundamental_div_mod;
use crate::population::count_at;
use crate::population::seq_total;
use crate::simulator::Parameters;
use crate::simulator::SimulationResult;
use crate::simulator::aged;
use crate::population::CohortData;
use crate::simulator::births_before;
use crate::simulator::ledger_after_births;
use crate::simulator::ledger_births_before;
use crate::simulator::bucket_count;
use crate::simulator::newborns;
use crate::simulator::state_after;
use crate::simulator::step;
use crate::simulator::survivors_seq;
use crate::simulator::trimmed_ledger;
use crate::tables::NOMINAL_TFR_PER_MILLE;
use crate::tables::RATE_SCALE;
use crate::tables::births_at;
use crate::tables::nominal_fertility;
use crate::tables::round_div;
use crate::tables::death_rate;
use crate::tables::male_newborns;
use crate::tables::survivors;

verus! {

/// Aging moves each count one age up: before the year's births and deaths,
/// the count at age `a + 1` is last year's count at age `a`, for every age
/// `a` below `max_age`, for both genders.
pub proof fn lemma_aging_shifts(p: Parameters, k: nat, a: int)
    requires
        0 <= a < p.max_age.0,
    ensures
        aged(state_after(p, k).0)[a + 1] == state_after(p, k).0[a],
        aged(state_after(p, k).1)[a + 1] == state_after(p, k).1[a],
{
    lemma_state_shape(p, k);
}

/// Every state holds one bucket per age `0..=max_age + 1`.
pub proof fn lemma_state_shape(p: Parameters, k: nat)
    ensures
        state_after(p, k).0.len() == bucket_count(p),
        state_after(p, k).1.len() == bucket_count(p),
    decreases k,
{
    if k > 0 {
        lemma_state_shape(p, (k - 1) as nat);
    }
}

/// A certain death leaves nobody.
proof fn lemma_certain_death(c: int)
    requires
        c >= 0,
    ensures
        survivors(c, RATE_SCALE as int) == 0,
{
    let s = RATE_SCALE as int;
    assert((2 * (c * s) + s) / (2 * s) == c) by (nonlinear_arith)
        requires
            s == 1_000_000,
            c >= 0,
    {
        assert(2 * (c * s) + s == c * (2 * s) + s);
    }
}

/// Nobody is older than `max_age` in any simulated year; from the first
/// year's deaths on, nobody is `max_age` years old either.
pub proof fn lemma_ceiling(p: Parameters, k: nat)
    ensures
        forall|a: int|
            a > p.max_age.0 ==> count_at(state_after(p, k).0, a) == 0 && count_at(
                state_after(p, k).1,
                a,
            ) == 0,
        k > 0 ==> state_after(p, k).0[p.max_age.0 as int] == 0 && state_after(p, k).1[p.max_age.0 as int] == 0,
{
    lemma_state_shape(p, k);
    let top = p.max_age.0 as int + 1;
    if k > 0 {
        let prev = state_after(p, (k - 1) as nat);
        lemma_state_shape(p, (k - 1) as nat);
        let s = step(p, prev, k - 1);
        assert(s == state_after(p, k));
        let ma = p.max_age.0 as int;
        let infant = p.infant_mortality_rate as int;
        assert forall|a: int| ma <= a <= top implies s.0[a] == 0 && s.1[a] == 0 by {
            let total = newborns(aged(prev.1), p.target_total_fertility_rate as int);
            let boys = male_newborns(total, p.males_per_100_females as int);
            let m = aged(prev.0).update(0, boys as u64);
            let f = aged(prev.1).update(0, (total - boys) as u64);
            assert(death_rate(a, crate::population::Gender::Male, ma, infant) == RATE_SCALE);
            assert(death_rate(a, crate::population::Gender::Female, ma, infant) == RATE_SCALE);
            lemma_certain_death(m[a] as int);
            lemma_certain_death(f[a] as int);
        }
    }
}

/// Of `total` newborns with `m` males per 100 females, the boys differ from
/// the exact share `total * m / (m + 100)` by at most one half; the male
/// fraction of a year's newborns therefore tends to `m / (m + 100)` as the
/// number of newborns grows.
pub proof fn lemma_sex_ratio(total: nat, m: nat)
    ensures
        2 * (m + 100) * male_newborns(total as int, m as int) <= 2 * total * m + (m + 100),
        2 * (m + 100) * male_newborns(total as int, m as int) > 2 * total * m - (m + 100),
{
    let d = (m + 100) as int;
    let x = 2 * (total * m) + d;
    lemma_fundamental_div_mod(x, 2 * d);
    let q = x / (2 * d);
    let r = x % (2 * d);
    assert(0 <= r < 2 * d) by {
        vstd::arithmetic::div_mod::lemma_mod_bound(x, 2 * d);
    }
    assert(male_newborns(total as int, m as int) == q);
    assert(2 * d * q == 2 * (m + 100) * q) by (nonlinear_arith)
        requires
            d == m + 100,
    ;
    assert(2 * total * m == 2 * (total * m)) by (nonlinear_arith);
}

/// With a fertility rate of zero nobody is born.
pub proof fn lemma_no_births_without_fertility(females: Seq<u64>, n: int)
    ensures
        births_before(females, 0, n) == 0,
    decreases n,
{
    if n > 0 {
        lemma_no_births_without_fertility(females, n - 1);
        let x = nominal_fertility(n - 1) * 0 * females[n - 1];
        assert(x == 0);
        assert(round_div(x, NOMINAL_TFR_PER_MILLE * RATE_SCALE) == 0);
        assert(births_at(n - 1, females[n - 1] as int, 0) == 0);
    }
}

proof fn lemma_total_prepend_zero(t: Seq<u64>)
    ensures
        seq_total(seq![0u64] + t) == seq_total(t),
    decreases t.len(),
{
    let u = seq![0u64] + t;
    if t.len() > 0 {
        assert(u.drop_last() =~= seq![0u64] + t.drop_last());
        assert(u.last() == t.last());
        lemma_total_prepend_zero(t.drop_last());
        assert(seq_total(u) == seq_total(u.drop_last()) + u.last());
    } else {
        assert(u.drop_last() =~= Seq::<u64>::empty());
        assert(seq_total(u) == seq_total(u.drop_last()) + u.last());
        assert(seq_total(t) == 0);
    }
}

/// Aging removes exactly those in the topmost bucket and adds nobody.
pub proof fn lemma_aging_total(s: Seq<u64>)
    requires
        s.len() > 0,
    ensures
        seq_total(aged(s)) == seq_total(s) - s.last(),
{
    assert(aged(s) =~= seq![0u64] + s.drop_last());
    lemma_total_prepend_zero(s.drop_last());
}

/// Aging neither adds nor removes anyone while the topmost bucket is empty.
pub proof fn lemma_aging_conserves_total(s: Seq<u64>)
    requires
        s.len() > 0,
        s.last() == 0,
    ensures
        seq_total(aged(s)) == seq_total(s),
{
    lemma_aging_total(s);
}

/// With a fertility rate of zero, a year's births change nothing in the
/// ledger: no cohort gains births, and this year's cohort gains no girls.
pub proof fn lemma_zero_fertility_ledger(
    ledger: Seq<CohortData>,
    females: Seq<u64>,
    birth_index: int,
)
    requires
        0 <= birth_index < ledger.len(),
    ensures
        ledger_after_births(ledger, females, 0, birth_index, 0) == ledger,
{
    let l = ledger_births_before(ledger, females, 0, birth_index, females.len() as int);
    assert forall|i: int| 0 <= i < ledger.len() implies #[trigger] l[i] == ledger[i] by {
        let a = birth_index - i;
        if 0 <= a < females.len() {
            let x = nominal_fertility(a) * 0 * females[a];
            assert(x == 0);
            assert(round_div(x, NOMINAL_TFR_PER_MILLE * RATE_SCALE) == 0);
            assert(births_at(a, females[a] as int, 0) == 0);
        }
    }
    assert(ledger_after_births(ledger, females, 0, birth_index, 0) =~= ledger);
}

/// With a fertility rate of zero, a year's aging and births leave each
/// gender's total as it was: the population changes only through deaths.
pub proof fn lemma_conservation_without_births(p: Parameters, k: nat)
    requires
        p.target_total_fertility_rate == 0,
    ensures
        ({
            let s = state_after(p, k);
            let next = step(p, s, k as int);
            &&& newborns(aged(s.1), 0) == 0
            &&& seq_total(aged(s.0)) == seq_total(s.0)
            &&& seq_total(aged(s.1)) == seq_total(s.1)
            &&& next.0 == survivors_seq(
                aged(s.0),
                crate::population::Gender::Male,
                p.max_age.0 as int,
                p.infant_mortality_rate as int,
            )
            &&& next.1 == survivors_seq(
                aged(s.1),
                crate::population::Gender::Female,
                p.max_age.0 as int,
                p.infant_mortality_rate as int,
            )
        }),
{
    let s = state_after(p, k);
    lemma_state_shape(p, k);
    lemma_ceiling(p, k);
    let top = p.max_age.0 as int + 1;
    assert(count_at(s.0, top) == 0 && count_at(s.1, top) == 0);
    lemma_aging_conserves_total(s.0);
    lemma_aging_conserves_total(s.1);
    lemma_no_births_without_fertility(aged(s.1), aged(s.1).len() as int);
    let d = p.males_per_100_females as int + 100;
    assert(d / (2 * d) == 0) by (nonlinear_arith)
        requires
            d > 0,
    ;
    assert(male_newborns(0, p.males_per_100_females as int) == 0);
    assert(aged(s.0).update(0, 0u64) =~= aged(s.0));
    assert(aged(s.1).update(0, 0u64) =~= aged(s.1));
}

/// Running the same parameters twice gives the same result.
pub proof fn lemma_run_deterministic(p: Parameters, r1: &SimulationResult, r2: &SimulationResult)
    requires
        r1.is_run_of(p),
        r2.is_run_of(p),
    ensures
        r1.initial_population.males@ == r2.initial_population.males@,
        r1.initial_population.females@ == r2.initial_population.females@,
        r1.final_population.males@ == r2.final_population.males@,
        r1.final_population.females@ == r2.final_population.females@,
        r1.cohort_fertility.0@ == r2.cohort_fertility.0@,
        r1.timeline.first_year == r2.timeline.first_year,
        r1.timeline.males@ == r2.timeline.males@,
        r1.timeline.females@ == r2.timeline.females@,
{
}

/// A run shorter than 200 years covers no cohort's whole fertile life, so
/// its cohort-fertility ledger is empty.
pub proof fn lemma_short_run_has_no_cohorts(p: Parameters)
    requires
        p.n_years < 200,
    ensures
        trimmed_ledger(p).len() == 0,
{
}

} // verus!
