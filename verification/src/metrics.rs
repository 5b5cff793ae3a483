//! The metrics recorder: elapsed time per stage, in pipeline order, plus the
//! derived row counts that fall out of the aggregate and filter stages.

use vstd::prelude::*;
use crate::pipeline::Stage;

verus! {

/// One recorded timing: a stage and how long it ran, in hundredths of a second.
#[derive(Clone, Copy, Debug, PartialEq, Eq, Structural)]
pub struct StageTiming {
    pub stage: Stage,
    pub elapsed_centis: u32,
}

/// A metric value: an elapsed time in hundredths of a second, or a plain count.
#[derive(Clone, Copy, Debug, PartialEq, Eq, Structural)]
pub enum MetricValue {
    Centiseconds(u64),
    Count(u64),
}

/// One named metric, as handed to the presentation layer.
#[derive(Debug)]
pub struct MetricEntry {
    pub name: String,
    pub value: MetricValue,
}

impl View for MetricEntry {
    type V = (Seq<char>, MetricValue);

    open spec fn view(&self) -> (Seq<char>, MetricValue) {
        (self.name@, self.value)
    }
}

/// The mathematical content of a `Metrics` value.
#[verifier::ext_equal]
pub struct MetricsModel {
    pub timings: Seq<StageTiming>,
    pub rows_processed: Option<u64>,
    pub long_trips_count: Option<u64>,
    pub expensive_trips_count: Option<u64>,
}

/// The name under which a stage's elapsed time is reported.
pub open spec fn metric_key(stage: Stage) -> Seq<char> {
    match stage {
        Stage::Load => "load_time"@,
        Stage::Clean => "clean_time"@,
        Stage::Aggregate => "aggregate_time"@,
        Stage::SortFilter => "sort_filter_time"@,
        Stage::Save => "save_time"@,
    }
}

/// Timings are well formed when they sit in pipeline order from the first
/// stage on: the timing at index `i` belongs to the stage of rank `i`.
pub open spec fn timings_wf(timings: Seq<StageTiming>) -> bool {
    forall|i: int| 0 <= i < timings.len() ==> #[trigger] timings[i].stage.rank() == i
}

/// Sum of the recorded elapsed times, in hundredths of a second.
pub open spec fn total_centis(timings: Seq<StageTiming>) -> int
    decreases timings.len(),
{
    if timings.len() == 0 {
        0
    } else {
        total_centis(timings.drop_last()) + timings.last().elapsed_centis
    }
}

pub proof fn lemma_timings_wf_len(timings: Seq<StageTiming>)
    requires
        timings_wf(timings),
    ensures
        timings.len() <= 5,
{
    if timings.len() > 5 {
        assert(timings[5].stage.rank() == 5);
    }
}

pub proof fn lemma_total_centis_bound(timings: Seq<StageTiming>)
    ensures
        0 <= total_centis(timings) <= timings.len() * 0xffff_ffff,
    decreases timings.len(),
{
    if timings.len() > 0 {
        lemma_total_centis_bound(timings.drop_last());
    }
}

/// The view of one timing as a named metric.
pub open spec fn timing_view(t: StageTiming) -> (Seq<char>, MetricValue) {
    (metric_key(t.stage), MetricValue::Centiseconds(t.elapsed_centis as u64))
}

pub open spec fn timing_views(timings: Seq<StageTiming>) -> Seq<(Seq<char>, MetricValue)> {
    timings.map_values(|t: StageTiming| timing_view(t))
}

pub open spec fn count_views(name: Seq<char>, count: Option<u64>) -> Seq<
    (Seq<char>, MetricValue),
> {
    match count {
        Some(n) => seq![(name, MetricValue::Count(n))],
        None => Seq::empty(),
    }
}

/// The full metrics mapping, in presentation order: one entry per recorded
/// stage, then the total, then whichever derived counts were produced.
pub open spec fn entry_views(m: MetricsModel) -> Seq<(Seq<char>, MetricValue)> {
    timing_views(m.timings) + seq![
        ("total_time"@, MetricValue::Centiseconds(total_centis(m.timings) as u64)),
    ] + count_views("rows_processed"@, m.rows_processed) + count_views(
        "long_trips_count"@,
        m.long_trips_count,
    ) + count_views("expensive_trips_count"@, m.expensive_trips_count)
}

/// Recorder for one pipeline run. Populated stage by stage, in order; read
/// back as a whole once the run is over.
pub struct Metrics {
    timings: Vec<StageTiming>,
    rows_processed: Option<u64>,
    long_trips_count: Option<u64>,
    expensive_trips_count: Option<u64>,
}

impl View for Metrics {
    type V = MetricsModel;

    closed spec fn view(&self) -> MetricsModel {
        MetricsModel {
            timings: self.timings@,
            rows_processed: self.rows_processed,
            long_trips_count: self.long_trips_count,
            expensive_trips_count: self.expensive_trips_count,
        }
    }
}

impl Metrics {
    pub fn new() -> (r: Metrics)
        ensures
            r@ == (MetricsModel {
                timings: Seq::empty(),
                rows_processed: None,
                long_trips_count: None,
                expensive_trips_count: None,
            }),
    {
        let r = Metrics {
            timings: Vec::new(),
            rows_processed: None,
            long_trips_count: None,
            expensive_trips_count: None,
        };
        proof {
            assert(r@ =~= MetricsModel {
                timings: Seq::empty(),
                rows_processed: None,
                long_trips_count: None,
                expensive_trips_count: None,
            });
        }
        r
    }

    pub fn record(&mut self, stage: Stage, elapsed_centis: u32)
        ensures
            final(self)@ == (MetricsModel {
                timings: old(self)@.timings.push(StageTiming { stage, elapsed_centis }),
                ..old(self)@
            }),
    {
        self.timings.push(StageTiming { stage, elapsed_centis });
    }

    pub fn set_rows_processed(&mut self, n: u64)
        ensures
            final(self)@ == (MetricsModel { rows_processed: Some(n), ..old(self)@ }),
    {
        self.rows_processed = Some(n);
    }

    pub fn set_long_trips_count(&mut self, n: u64)
        ensures
            final(self)@ == (MetricsModel { long_trips_count: Some(n), ..old(self)@ }),
    {
        self.long_trips_count = Some(n);
    }

    pub fn set_expensive_trips_count(&mut self, n: u64)
        ensures
            final(self)@ == (MetricsModel { expensive_trips_count: Some(n), ..old(self)@ }),
    {
        self.expensive_trips_count = Some(n);
    }

    /// The stage name a timing is reported under.
    pub fn metric_key_str(stage: Stage) -> (r: &'static str)
        ensures
            r@ == metric_key(stage),
    {
        match stage {
            Stage::Load => "load_time",
            Stage::Clean => "clean_time",
            Stage::Aggregate => "aggregate_time",
            Stage::SortFilter => "sort_filter_time",
            Stage::Save => "save_time",
        }
    }

    /// The whole mapping, in presentation order.
    pub fn to_entries(&self) -> (r: Vec<MetricEntry>)
        requires
            timings_wf(self@.timings),
        ensures
            r@.map_values(|e: MetricEntry| e@) == entry_views(self@),
    {
        proof {
            lemma_timings_wf_len(self@.timings);
        }
        let mut entries: Vec<MetricEntry> = Vec::new();
        let mut total: u64 = 0;
        let mut i: usize = 0;
        while i < self.timings.len()
            invariant
                timings_wf(self@.timings),
                self@.timings.len() <= 5,
                i <= self@.timings.len(),
                entries@.len() == i,
                forall|j: int| 0 <= j < i ==> #[trigger] entries@[j]@ == timing_view(
                    self@.timings[j],
                ),
                total == total_centis(self@.timings.take(i as int)),
            decreases self@.timings.len() - i,
        {
            let t = self.timings[i];
            proof {
                lemma_total_centis_bound(self@.timings.take(i as int));
                assert(self@.timings.take(i as int + 1).drop_last() =~= self@.timings.take(
                    i as int,
                ));
            }
            entries.push(
                MetricEntry {
                    name: String::from_str(Self::metric_key_str(t.stage)),
                    value: MetricValue::Centiseconds(t.elapsed_centis as u64),
                },
            );
            total = total + t.elapsed_centis as u64;
            i = i + 1;
        }
        proof {
            assert(self@.timings.take(self@.timings.len() as int) =~= self@.timings);
        }
        entries.push(
            MetricEntry {
                name: String::from_str("total_time"),
                value: MetricValue::Centiseconds(total),
            },
        );
        match self.rows_processed {
            Some(n) => entries.push(
                MetricEntry { name: String::from_str("rows_processed"), value: MetricValue::Count(n) },
            ),
            None => (),
        }
        match self.long_trips_count {
            Some(n) => entries.push(
                MetricEntry {
                    name: String::from_str("long_trips_count"),
                    value: MetricValue::Count(n),
                },
            ),
            None => (),
        }
        match self.expensive_trips_count {
            Some(n) => entries.push(
                MetricEntry {
                    name: String::from_str("expensive_trips_count"),
                    value: MetricValue::Count(n),
                },
            ),
            None => (),
        }
        proof {
            assert(entries@.map_values(|e: MetricEntry| e@) =~= entry_views(self@));
        }
        entries
    }
}

} // verus!
