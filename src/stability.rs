//! What the search for a stable fertility rate measures: how fast the
//! population changes over the second half of its run, up to the year it
//! collapses to a third of its start or, failing that, the last year.
use vstd::prelude::*;
use crate::population::Count;
use crate::population::Timeline;
use crate::population::Year;
use crate::population::saturate;
use crate::simulator::ConfigurationError;
use crate::simulator::Parameters;
use crate::simulator::female_total;
use crate::simulator::male_total;

verus! {

/// The highest fertility rate that the search tries, in millionths.
pub const MAX_FERTILITY_RATE: u32 = 3_000_000;

/// The population's change between two years of a timeline.
#[derive(Clone, Copy, Debug, PartialEq, Eq, Structural)]
pub struct Trend {
    pub halfway_year: Year,
    pub end_year: Year,
    pub halfway_total: Count,
    pub end_total: Count,
}

/// The total of both genders at index `j`, saturated.
pub open spec fn total_at(males: Seq<u64>, females: Seq<u64>, j: int) -> int {
    saturate(males[j] + females[j])
}

impl Trend {
    /// `self` measures the timeline that starts at `first` with these totals:
    /// the end is the first year whose total is at most a third of
    /// `initial_population`, else the last year; the halfway year is half the
    /// years from the first to the end; each total is the timeline's (zero
    /// where a year is not held).
    pub open spec fn is_trend_of(
        &self,
        first: int,
        males: Seq<u64>,
        females: Seq<u64>,
        initial_population: int,
    ) -> bool {
        let e = self.end_year.0 - first;
        let h = self.halfway_year.0 - first;
        let low = initial_population / 3;
        &&& 0 <= e < males.len()
        &&& forall|j: int| 0 <= j < e ==> #[trigger] total_at(males, females, j) > low
        &&& total_at(males, females, e) <= low || e == males.len() - 1
        &&& self.end_total == total_at(males, females, e)
        &&& self.halfway_year.0 == e / 2
        &&& self.halfway_total == (if 0 <= h < males.len() {
            total_at(males, females, h)
        } else {
            0
        })
    }
}

/// Measures the trend of a non-empty timeline.
pub fn trend(timeline: &Timeline, initial_population: Count) -> (r: Trend)
    requires
        timeline.wf(),
        timeline.len() > 0,
    ensures
        r.is_trend_of(
            timeline.first_year.0 as int,
            timeline.males@,
            timeline.females@,
            initial_population as int,
        ),
{
    let low = initial_population / 3;
    let n = timeline.males.len();
    let mut e: usize = 0;
    while e + 1 < n && timeline.males[e].saturating_add(timeline.females[e]) > low
        invariant
            timeline.wf(),
            n == timeline.males@.len(),
            e < n,
            forall|j: int|
                0 <= j < e ==> #[trigger] total_at(timeline.males@, timeline.females@, j) > low,
        decreases n - e,
    {
        e = e + 1;
    }
    let first = timeline.first_year.0;
    let end_year = Year((first as i64 + e as i64) as i32);
    let halfway_year = Year((e / 2) as i32);
    let end_total = timeline.males[e].saturating_add(timeline.females[e]);
    let halfway_total = timeline.sum(halfway_year);
    Trend { halfway_year, end_year, halfway_total, end_total }
}

/// `p` with its fertility rate replaced by `rate`, capped at `MAX_FERTILITY_RATE`.
pub open spec fn with_rate(p: Parameters, rate: int) -> Parameters {
    Parameters {
        target_total_fertility_rate: if rate > MAX_FERTILITY_RATE {
            MAX_FERTILITY_RATE
        } else {
            rate as u32
        },
        ..p
    }
}

impl Parameters {
    /// Rejects invalid parameters with `validate`'s error; otherwise
    /// simulates them with the fertility rate `rate` (capped at
    /// `MAX_FERTILITY_RATE`) and measures the trend of the resulting timeline.
    pub fn stability_trend(self, rate: u32) -> (r: Result<Trend, ConfigurationError>)
        ensures
            self.validation() is Err ==> r == Err::<Trend, ConfigurationError>(
                self.validation()->Err_0,
            ),
            self.validation() is Ok ==> r is Ok && ({
                let q = with_rate(self, rate as int);
                r->Ok_0.is_trend_of(
                    0,
                    Seq::new(q.n_years as nat + 1, |k: int| male_total(q, k as nat)),
                    Seq::new(q.n_years as nat + 1, |k: int| female_total(q, k as nat)),
                    self.initial_population as int,
                )
            }),
    {
        let mut q = self;
        q.target_total_fertility_rate = if rate > MAX_FERTILITY_RATE {
            MAX_FERTILITY_RATE
        } else {
            rate
        };
        assert(q == with_rate(self, rate as int));
        match q.run() {
            Err(e) => Err(e),
            Ok(result) => Ok(trend(&result.timeline, q.initial_population)),
        }
    }
}

} // verus!
