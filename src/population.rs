//! The value types of the model: ages, years, per-age population snapshots,
//! the cohort-fertility ledger and the yearly timeline.
use vstd::prelude::*;

verus! {

/// A population count.
pub type Count = u64;

/// A calendar year of the simulation; year 0 is its start, earlier years are negative.
#[derive(Clone, Copy, Debug, PartialEq, Eq, Structural, PartialOrd, Ord, Hash)]
pub struct Year(pub i32);

/// An age in whole years.
#[derive(Clone, Copy, Debug, PartialEq, Eq, Structural, PartialOrd, Ord, Hash)]
pub struct Age(pub u8);

#[derive(Clone, Copy, Debug, PartialEq, Eq, Structural, PartialOrd, Ord, Hash)]
pub enum Gender {
    Male,
    Female,
}

/// The value `x`, clamped to what a `Count` can hold.
pub open spec fn saturate(x: int) -> int {
    if x > u64::MAX as int {
        u64::MAX as int
    } else {
        x
    }
}

/// The sum of all counts in `s`.
pub open spec fn seq_total(s: Seq<u64>) -> int
    decreases s.len(),
{
    if s.len() == 0 {
        0
    } else {
        seq_total(s.drop_last()) + s.last()
    }
}

/// The count at index `age` of `s`, or zero where `s` has no such index.
pub open spec fn count_at(s: Seq<u64>, age: int) -> int {
    if 0 <= age < s.len() {
        s[age] as int
    } else {
        0
    }
}

pub proof fn lemma_seq_total_nonneg(s: Seq<u64>)
    ensures
        seq_total(s) >= 0,
    decreases s.len(),
{
    if s.len() > 0 {
        lemma_seq_total_nonneg(s.drop_last());
    }
}

/// Saturating accumulation is saturation of the exact sum.
pub proof fn lemma_saturate_add(x: int, y: int)
    requires
        x >= 0,
        y >= 0,
    ensures
        saturate(saturate(x) + y) == saturate(x + y),
{
}

/// The saturated sum of the counts in `s`.
pub fn saturating_total(s: &Vec<Count>) -> (r: Count)
    ensures
        r == saturate(seq_total(s@)),
{
    let mut acc: u64 = 0;
    let mut i: usize = 0;
    while i < s.len()
        invariant
            i <= s.len(),
            acc == saturate(seq_total(s@.take(i as int))),
        decreases s.len() - i,
    {
        proof {
            assert(s@.take(i as int + 1).drop_last() =~= s@.take(i as int));
            lemma_seq_total_nonneg(s@.take(i as int));
            lemma_saturate_add(seq_total(s@.take(i as int)), s@[i as int] as int);
        }
        acc = acc.saturating_add(s[i]);
        i = i + 1;
    }
    assert(s@.take(i as int) =~= s@);
    acc
}

/// Population counts by age, one sequence per gender, indexed by age.
pub struct AgeGenderMap {
    pub males: Vec<Count>,
    pub females: Vec<Count>,
}

impl AgeGenderMap {
    /// The counts by age of one gender.
    pub open spec fn of_gender(&self, gender: Gender) -> Seq<u64> {
        match gender {
            Gender::Male => self.males@,
            Gender::Female => self.females@,
        }
    }

    /// The whole population, saturated.
    pub fn count(&self) -> (r: Count)
        ensures
            r == saturate(seq_total(self.males@) + seq_total(self.females@)),
    {
        let m = saturating_total(&self.males);
        let f = saturating_total(&self.females);
        proof {
            lemma_seq_total_nonneg(self.males@);
            lemma_seq_total_nonneg(self.females@);
        }
        m.saturating_add(f)
    }

    /// The population of one gender, saturated.
    pub fn count_gender(&self, gender: Gender) -> (r: Count)
        ensures
            r == saturate(seq_total(self.of_gender(gender))),
    {
        match gender {
            Gender::Male => saturating_total(&self.males),
            Gender::Female => saturating_total(&self.females),
        }
    }

    /// The population of one age, both genders, saturated; zero for an age that is not held.
    pub fn count_age(&self, age: Age) -> (r: Count)
        ensures
            r == saturate(count_at(self.males@, age.0 as int) + count_at(self.females@, age.0 as int)),
    {
        let m = self.count_age_gender(age, Gender::Male);
        let f = self.count_age_gender(age, Gender::Female);
        m.saturating_add(f)
    }

    /// The population of one age and gender; zero for an age that is not held.
    pub fn count_age_gender(&self, age: Age, gender: Gender) -> (r: Count)
        ensures
            r == count_at(self.of_gender(gender), age.0 as int),
    {
        let a = age.0 as usize;
        match gender {
            Gender::Male => if a < self.males.len() {
                self.males[a]
            } else {
                0
            },
            Gender::Female => if a < self.females.len() {
                self.females[a]
            } else {
                0
            },
        }
    }

    /// A copy of the snapshot.
    pub(crate) fn duplicate(&self) -> (r: AgeGenderMap)
        ensures
            r.males@ == self.males@,
            r.females@ == self.females@,
    {
        AgeGenderMap { males: self.males.clone(), females: self.females.clone() }
    }
}

/// What one birth cohort contributed: its female newborns, and the children
/// those women bore over the years the simulation covered.
#[derive(Clone, Copy, Debug, PartialEq, Eq, Structural)]
pub struct CohortData {
    pub females: Count,
    pub births: Count,
}

/// The cohort-fertility ledger: one entry per birth year, in increasing year order.
pub struct CohortFertility(pub Vec<(Year, CohortData)>);

impl CohortFertility {
    /// Each birth year appears once, in increasing order.
    pub open spec fn wf(&self) -> bool {
        forall|i: int, j: int| 0 <= i < j < self.0@.len() ==> self.0@[i].0.0 < self.0@[j].0.0
    }
}

/// Male and female population totals per year, over a contiguous range of
/// years that starts at `first_year`.
pub struct Timeline {
    pub first_year: Year,
    pub males: Vec<Count>,
    pub females: Vec<Count>,
}

impl View for Timeline {
    type V = Map<int, (u64, u64)>;

    /// Year to (males, females), for each year held.
    open spec fn view(&self) -> Map<int, (u64, u64)> {
        Map::new(
            |y: int| self.first_year.0 <= y < self.first_year.0 + self.males@.len(),
            |y: int| (self.males@[y - self.first_year.0], self.females@[y - self.first_year.0]),
        )
    }
}

impl Default for Timeline {
    fn default() -> (r: Timeline)
        ensures
            r.wf(),
            r.males@.len() == 0,
            r@ == Map::<int, (u64, u64)>::empty(),
    {
        let r = Timeline { first_year: Year(0), males: Vec::new(), females: Vec::new() };
        assert(r@ =~= Map::<int, (u64, u64)>::empty());
        r
    }
}

impl Timeline {
    /// Both genders hold one count per year, and the last year fits an `i32`.
    pub open spec fn wf(&self) -> bool {
        &&& self.males@.len() == self.females@.len()
        &&& self.first_year.0 + self.males@.len() <= i32::MAX as int + 1
    }

    /// The number of years held.
    pub open spec fn len(&self) -> nat {
        self.males@.len()
    }

    /// Records the totals of `year`. The range of years stays contiguous, so a
    /// year may be added only next to the range, or replace one inside it.
    pub fn insert(&mut self, year: Year, males: Count, females: Count)
        requires
            old(self).wf(),
            old(self).len() == 0 || old(self).first_year.0 - 1 <= year.0 <= old(self).first_year.0
                + old(self).len(),
        ensures
            final(self).wf(),
            final(self)@ == old(self)@.insert(year.0 as int, (males, females)),
            old(self).len() == 0 ==> {
                &&& final(self).first_year == year
                &&& final(self).males@ == seq![males]
                &&& final(self).females@ == seq![females]
            },
            old(self).len() > 0 && year.0 == old(self).first_year.0 + old(self).len() ==> {
                &&& final(self).first_year == old(self).first_year
                &&& final(self).males@ == old(self).males@.push(males)
                &&& final(self).females@ == old(self).females@.push(females)
            },
    {
        let len = self.males.len();
        if len == 0 {
            self.first_year = year;
            self.males.push(males);
            self.females.push(females);
            assert(self@ =~= old(self)@.insert(year.0 as int, (males, females)));
        } else if year.0 as i64 == self.first_year.0 as i64 + len as i64 {
            self.males.push(males);
            self.females.push(females);
            assert(self@ =~= old(self)@.insert(year.0 as int, (males, females)));
        } else if year.0 < self.first_year.0 {
            self.males.insert(0, males);
            self.females.insert(0, females);
            self.first_year = year;
            assert(self@ =~= old(self)@.insert(year.0 as int, (males, females)));
        } else {
            let i = (year.0 as i64 - self.first_year.0 as i64) as usize;
            self.males.set(i, males);
            self.females.set(i, females);
            assert(self@ =~= old(self)@.insert(year.0 as int, (males, females)));
        }
    }

    /// The totals of `year`, or zeros for a year that is not held.
    pub fn get_mf(&self, year: Year) -> (r: (Count, Count))
        requires
            self.wf(),
        ensures
            r == (if self@.contains_key(year.0 as int) {
                self@[year.0 as int]
            } else {
                (0u64, 0u64)
            }),
    {
        let first = self.first_year.0 as i64;
        let y = year.0 as i64;
        if first <= y && y < first + self.males.len() as i64 {
            let i = (y - first) as usize;
            (self.males[i], self.females[i])
        } else {
            (0, 0)
        }
    }

    /// Males and females of `year` together, saturated; zero for a year that is not held.
    pub fn sum(&self, year: Year) -> (r: Count)
        requires
            self.wf(),
        ensures
            r == (if self@.contains_key(year.0 as int) {
                saturate(self@[year.0 as int].0 + self@[year.0 as int].1)
            } else {
                0
            }),
    {
        let (m, f) = self.get_mf(year);
        m.saturating_add(f)
    }

    /// The first and the last year held.
    pub fn year_range(&self) -> (r: (Year, Year))
        requires
            self.wf(),
            self.len() > 0,
        ensures
            self@.contains_key(r.0.0 as int),
            self@.contains_key(r.1.0 as int),
            forall|y: int| #[trigger] self@.contains_key(y) ==> r.0.0 <= y <= r.1.0,
    {
        let last = (self.first_year.0 as i64 + self.males.len() as i64 - 1) as i32;
        (self.first_year, Year(last))
    }

    /// Every year held with its totals, in increasing year order.
    pub fn iter_mf(&self) -> (r: Vec<(Year, (Count, Count))>)
        requires
            self.wf(),
        ensures
            r@.len() == self.len(),
            forall|i: int|
                0 <= i < r@.len() ==> #[trigger] r@[i].0.0 == self.first_year.0 + i && self@[r@[i].0.0 as int] == r@[i].1,
    {
        let mut r: Vec<(Year, (Count, Count))> = Vec::new();
        let mut i: usize = 0;
        while i < self.males.len()
            invariant
                self.wf(),
                i <= self.males@.len(),
                r@.len() == i,
                forall|j: int|
                    0 <= j < i ==> #[trigger] r@[j].0.0 == self.first_year.0 + j && self@[r@[j].0.0 as int] == r@[j].1,
            decreases self.males@.len() - i,
        {
            let y = (self.first_year.0 as i64 + i as i64) as i32;
            r.push((Year(y), (self.males[i], self.females[i])));
            i = i + 1;
        }
        r
    }
}

} // verus!
