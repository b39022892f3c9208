//! The fixed demographic tables: the initial age distribution, the nominal
//! fertility curve and the life tables, with the rounding rules that turn
//! them into whole counts.
use vstd::prelude::*;
use crate::population::Gender;
use crate::population::saturate;

verus! {

/// Rates (probabilities and the fertility rate) are counted in millionths.
pub const RATE_SCALE: u64 = 1_000_000;

/// Sum of the nominal fertility curve over every age, in thousandths.
pub const NOMINAL_TFR_PER_MILLE: u64 = 2525;

/// `a / b` rounded to the nearest integer, halves rounded up.
pub open spec fn round_div(a: int, b: int) -> int {
    (2 * a + b) / (2 * b)
}

/// Percent of the initial population that lies in the age band of `age`.
pub open spec fn band_percent(age: int) -> int {
    if age <= 14 {
        25
    } else if age <= 24 {
        16
    } else if age <= 54 {
        41
    } else if age <= 64 {
        9
    } else {
        9
    }
}

/// Number of years over which the band of `age` spreads its share; the
/// oldest band runs from 65 to `max_age`.
pub open spec fn band_width(age: int, max_age: int) -> int {
    if age <= 14 {
        15
    } else if age <= 24 {
        10
    } else if age <= 54 {
        30
    } else if age <= 64 {
        10
    } else {
        max_age - 64
    }
}

/// Initial count of each gender at `age`: half of the band's share of
/// `population`, spread evenly over the band's years, truncated; none above `max_age`.
pub open spec fn initial_count_spec(age: int, max_age: int, population: int) -> int {
    if age > max_age {
        0
    } else {
        population * band_percent(age) / (200 * band_width(age, max_age))
    }
}

pub fn initial_count(age: usize, max_age: usize, population: u64) -> (r: u64)
    ensures
        r == initial_count_spec(age as int, max_age as int, population as int),
        r <= population,
{
    if age > max_age {
        return 0;
    }
    let (percent, width): (u128, u128) = if age <= 14 {
        (25, 15)
    } else if age <= 24 {
        (16, 10)
    } else if age <= 54 {
        (41, 30)
    } else if age <= 64 {
        (9, 10)
    } else {
        (9, (max_age - 64) as u128)
    };
    let pop = population as u128;
    proof {
        assert(200 * width <= 200 * 0xffff_ffff_ffff_ffff_u128);
        assert(pop * percent <= pop * (200 * width)) by (nonlinear_arith)
            requires
                percent <= 200 * width,
        ;
        assert(pop * percent / (200 * width) <= pop) by (nonlinear_arith)
            requires
                pop * percent <= pop * (200 * width),
                width > 0,
        ;
    }
    ((pop * percent) / (200 * width)) as u64
}

/// Nominal yearly birth probability of a woman of `age`, in thousandths.
pub open spec fn nominal_fertility(age: int) -> int {
    if 15 <= age <= 19 {
        40
    } else if 20 <= age <= 24 {
        100
    } else if 25 <= age <= 29 {
        130
    } else if 30 <= age <= 34 {
        120
    } else if 35 <= age <= 39 {
        80
    } else if 40 <= age <= 44 {
        30
    } else if 45 <= age <= 49 {
        5
    } else {
        0
    }
}

pub fn nominal_fertility_per_mille(age: usize) -> (r: u64)
    ensures
        r == nominal_fertility(age as int),
        r <= 130,
{
    if 15 <= age && age <= 19 {
        40
    } else if 20 <= age && age <= 24 {
        100
    } else if 25 <= age && age <= 29 {
        130
    } else if 30 <= age && age <= 34 {
        120
    } else if 35 <= age && age <= 39 {
        80
    } else if 40 <= age && age <= 44 {
        30
    } else if 45 <= age && age <= 49 {
        5
    } else {
        0
    }
}

/// Sum of the nominal curve over the ages below `n`.
pub open spec fn nominal_sum(n: int) -> int
    decreases n,
{
    if n <= 0 {
        0
    } else {
        nominal_sum(n - 1) + nominal_fertility(n - 1)
    }
}

proof fn lemma_nominal_sum_flat(lo: int, hi: int, c: int)
    requires
        0 <= lo <= hi,
        forall|a: int| lo <= a < hi ==> nominal_fertility(a) == c,
    ensures
        nominal_sum(hi) == nominal_sum(lo) + c * (hi - lo),
    decreases hi - lo,
{
    if hi > lo {
        lemma_nominal_sum_flat(lo, hi - 1, c);
        assert(nominal_fertility(hi - 1) == c);
        assert(c * (hi - lo) == c * (hi - 1 - lo) + c) by (nonlinear_arith);
        assert(nominal_sum(hi) == nominal_sum(hi - 1) + nominal_fertility(hi - 1));
    } else {
        assert(c * (hi - lo) == 0) by (nonlinear_arith)
            requires
                hi == lo,
        ;
    }
}

/// `NOMINAL_TFR_PER_MILLE` is the nominal curve summed over every age an
/// `Age` can hold.
pub proof fn lemma_nominal_total()
    ensures
        nominal_sum(256) == NOMINAL_TFR_PER_MILLE,
{
    lemma_nominal_sum_flat(0, 15, 0);
    lemma_nominal_sum_flat(15, 20, 40);
    lemma_nominal_sum_flat(20, 25, 100);
    lemma_nominal_sum_flat(25, 30, 130);
    lemma_nominal_sum_flat(30, 35, 120);
    lemma_nominal_sum_flat(35, 40, 80);
    lemma_nominal_sum_flat(40, 45, 30);
    lemma_nominal_sum_flat(45, 50, 5);
    lemma_nominal_sum_flat(50, 256, 0);
}

/// Expected births in a year to `females` women of `age` when the total
/// fertility rate is `tfr` millionths: the nominal curve, rescaled so that it
/// sums to `tfr`, times the women, rounded and saturated.
pub open spec fn births_at(age: int, females: int, tfr: int) -> int {
    saturate(
        round_div(
            nominal_fertility(age) * tfr * females,
            NOMINAL_TFR_PER_MILLE * RATE_SCALE,
        ),
    )
}

pub fn birth_count(age: usize, females: u64, tfr: u32) -> (r: u64)
    ensures
        r == births_at(age as int, females as int, tfr as int),
{
    let n = nominal_fertility_per_mille(age) as u128;
    let t = tfr as u128;
    let f = females as u128;
    proof {
        assert(n * t <= 130 * 0xffff_ffff) by (nonlinear_arith)
            requires
                n <= 130,
                t <= 0xffff_ffff,
        ;
        assert(n * t * f <= 130 * 0xffff_ffff * 0xffff_ffff_ffff_ffff) by (nonlinear_arith)
            requires
                n * t <= 130 * 0xffff_ffff,
                f <= 0xffff_ffff_ffff_ffff,
        ;
    }
    let den: u128 = 2_525_000_000;
    assert(den == NOMINAL_TFR_PER_MILLE * RATE_SCALE);
    let b = (2 * (n * t * f) + den) / (2 * den);
    if b > u64::MAX as u128 {
        u64::MAX
    } else {
        b as u64
    }
}

/// Yearly death probability in millionths. Age 0 takes the given infant
/// mortality; every age from `max_age` up dies with certainty.
pub open spec fn death_rate(age: int, gender: Gender, max_age: int, infant: int) -> int {
    if age >= max_age {
        RATE_SCALE as int
    } else if age == 0 {
        infant
    } else {
        match gender {
            Gender::Male => male_death_rate(age),
            Gender::Female => female_death_rate(age),
        }
    }
}

pub open spec fn male_death_rate(age: int) -> int {
    if age <= 1 {
        390
    } else if age <= 4 {
        200
    } else if age <= 9 {
        130
    } else if age <= 14 {
        100
    } else if age <= 19 {
        220
    } else if age <= 24 {
        740
    } else if age <= 29 {
        970
    } else if age <= 34 {
        1070
    } else if age <= 39 {
        1270
    } else if age <= 44 {
        1740
    } else if age <= 49 {
        2610
    } else if age <= 54 {
        4220
    } else if age <= 59 {
        6890
    } else if age <= 64 {
        11350
    } else if age <= 69 {
        18710
    } else if age <= 74 {
        30660
    } else if age <= 79 {
        50270
    } else if age <= 84 {
        80960
    } else if age <= 89 {
        132570
    } else if age <= 94 {
        207550
    } else if age <= 99 {
        312340
    } else {
        436220
    }
}

pub open spec fn female_death_rate(age: int) -> int {
    if age <= 1 {
        300
    } else if age <= 4 {
        150
    } else if age <= 9 {
        100
    } else if age <= 14 {
        80
    } else if age <= 19 {
        180
    } else if age <= 24 {
        600
    } else if age <= 29 {
        800
    } else if age <= 34 {
        900
    } else if age <= 39 {
        1100
    } else if age <= 44 {
        1500
    } else if age <= 49 {
        2200
    } else if age <= 54 {
        3500
    } else if age <= 59 {
        5700
    } else if age <= 64 {
        9400
    } else if age <= 69 {
        15500
    } else if age <= 74 {
        25400
    } else if age <= 79 {
        41600
    } else if age <= 84 {
        67000
    } else if age <= 89 {
        109700
    } else if age <= 94 {
        171000
    } else if age <= 99 {
        255000
    } else {
        360000
    }
}

fn male_rate(age: usize) -> (r: u32)
    ensures
        r == male_death_rate(age as int),
{
    if age <= 1 {
        390
    } else if age <= 4 {
        200
    } else if age <= 9 {
        130
    } else if age <= 14 {
        100
    } else if age <= 19 {
        220
    } else if age <= 24 {
        740
    } else if age <= 29 {
        970
    } else if age <= 34 {
        1070
    } else if age <= 39 {
        1270
    } else if age <= 44 {
        1740
    } else if age <= 49 {
        2610
    } else if age <= 54 {
        4220
    } else if age <= 59 {
        6890
    } else if age <= 64 {
        11350
    } else if age <= 69 {
        18710
    } else if age <= 74 {
        30660
    } else if age <= 79 {
        50270
    } else if age <= 84 {
        80960
    } else if age <= 89 {
        132570
    } else if age <= 94 {
        207550
    } else if age <= 99 {
        312340
    } else {
        436220
    }
}

fn female_rate(age: usize) -> (r: u32)
    ensures
        r == female_death_rate(age as int),
{
    if age <= 1 {
        300
    } else if age <= 4 {
        150
    } else if age <= 9 {
        100
    } else if age <= 14 {
        80
    } else if age <= 19 {
        180
    } else if age <= 24 {
        600
    } else if age <= 29 {
        800
    } else if age <= 34 {
        900
    } else if age <= 39 {
        1100
    } else if age <= 44 {
        1500
    } else if age <= 49 {
        2200
    } else if age <= 54 {
        3500
    } else if age <= 59 {
        5700
    } else if age <= 64 {
        9400
    } else if age <= 69 {
        15500
    } else if age <= 74 {
        25400
    } else if age <= 79 {
        41600
    } else if age <= 84 {
        67000
    } else if age <= 89 {
        109700
    } else if age <= 94 {
        171000
    } else if age <= 99 {
        255000
    } else {
        360000
    }
}

pub fn death_probability(age: usize, gender: Gender, max_age: usize, infant: u32) -> (r: u32)
    ensures
        r == death_rate(age as int, gender, max_age as int, infant as int),
{
    if age >= max_age {
        RATE_SCALE as u32
    } else if age == 0 {
        infant
    } else {
        match gender {
            Gender::Male => male_rate(age),
            Gender::Female => female_rate(age),
        }
    }
}

/// What is left of `count` after the expected deaths at `rate` millionths,
/// rounded; never below zero.
pub open spec fn survivors(count: int, rate: int) -> int {
    let deaths = round_div(count * rate, RATE_SCALE as int);
    if deaths >= count {
        0
    } else {
        count - deaths
    }
}

pub fn surviving(count: u64, rate: u32) -> (r: u64)
    ensures
        r == survivors(count as int, rate as int),
{
    let c = count as u128;
    let p = rate as u128;
    proof {
        assert(c * p <= 0xffff_ffff_ffff_ffff * 0xffff_ffff) by (nonlinear_arith)
            requires
                c <= 0xffff_ffff_ffff_ffff,
                p <= 0xffff_ffff,
        ;
    }
    let scale = RATE_SCALE as u128;
    let deaths = (2 * (c * p) + scale) / (2 * scale);
    if deaths >= c {
        0
    } else {
        (c - deaths) as u64
    }
}

/// Of `total` newborns, the male ones: `total * m / (m + 100)` rounded, for
/// `m` males per 100 females.
pub open spec fn male_newborns(total: int, m: int) -> int {
    round_div(total * m, m + 100)
}

pub fn male_share(total: u64, m: u8) -> (r: u64)
    ensures
        r == male_newborns(total as int, m as int),
        r <= total,
{
    let t = total as u128;
    let mm = m as u128;
    let den = mm + 100;
    proof {
        assert(t * mm <= 0xffff_ffff_ffff_ffff * 255) by (nonlinear_arith)
            requires
                t <= 0xffff_ffff_ffff_ffff,
                mm <= 255,
        ;
        assert((2 * (t * mm) + den) / (2 * den) <= t) by (nonlinear_arith)
            requires
                den == mm + 100,
        {
            assert(2 * (t * mm) + den < (t + 1) * (2 * den));
        }
    }
    ((2 * (t * mm) + den) / (2 * den)) as u64
}

} // verus!
