//! The staged pipeline runner: five named stages run strictly in order over a
//! dataset handle held by the caller, with elapsed time recorded per stage.

use vstd::prelude::*;
use vstd::string::*;
use crate::metrics::Metrics;
use crate::metrics::MetricsModel;
use crate::metrics::MetricEntry;
use crate::metrics::StageTiming;
use crate::metrics::entry_views;
use crate::metrics::timings_wf;

verus! {

/// The five transformation stages, in pipeline order.
#[derive(Clone, Copy, Debug, PartialEq, Eq, Structural)]
pub enum Stage {
    Load,
    Clean,
    Aggregate,
    SortFilter,
    Save,
}

/// Where a pipeline run stands: stages advance the state strictly in sequence,
/// and the first failure moves it to `Failed` for good.
#[derive(Clone, Copy, Debug, PartialEq, Eq, Structural)]
pub enum PipelineState {
    Uninitialized,
    Loaded,
    Cleaned,
    Aggregated,
    Filtered,
    Saved,
    Failed,
}

impl Stage {
    /// Position of the stage in pipeline order.
    pub open spec fn rank(self) -> int {
        match self {
            Stage::Load => 0,
            Stage::Clean => 1,
            Stage::Aggregate => 2,
            Stage::SortFilter => 3,
            Stage::Save => 4,
        }
    }
}

/// The state a stage may only be entered from.
pub open spec fn requisite_state(stage: Stage) -> PipelineState {
    match stage {
        Stage::Load => PipelineState::Uninitialized,
        Stage::Clean => PipelineState::Loaded,
        Stage::Aggregate => PipelineState::Cleaned,
        Stage::SortFilter => PipelineState::Aggregated,
        Stage::Save => PipelineState::Filtered,
    }
}

/// What the sort-and-filter stage reports back: the surviving row count and
/// the two ad hoc counts that fall out of its criteria.
#[derive(Clone, Copy, Debug, PartialEq, Eq, Structural)]
pub struct FilterSummary {
    pub rows: u64,
    pub long_trips: u64,
    pub expensive_trips: u64,
}

/// How a stage call can go wrong, tagged so that the caller can tell which
/// stage and why.
#[derive(Debug, PartialEq, Eq)]
pub enum PipelineError {
    /// The input path named no file; nothing was attempted.
    FileNotFound { path: String },
    /// A stage was invoked while the pipeline was not in its requisite state.
    OutOfOrder { stage: Stage, state: PipelineState },
    /// The engine failed inside a transformation stage.
    StageFailure { stage: Stage, cause: String },
    /// The engine failed while writing the results out.
    WriteFailure { cause: String },
}

/// The short name an error tags a stage with.
pub open spec fn stage_label(stage: Stage) -> Seq<char> {
    match stage {
        Stage::Load => "load"@,
        Stage::Clean => "clean"@,
        Stage::Aggregate => "aggregate"@,
        Stage::SortFilter => "sort_filter"@,
        Stage::Save => "save"@,
    }
}

/// The one-line message an error prints as.
pub open spec fn spec_message(e: PipelineError) -> Seq<char> {
    match e {
        PipelineError::FileNotFound { path } => "❌ Data file not found: "@ + path@,
        PipelineError::OutOfOrder { stage, state } => "Pipeline stage "@ + stage_label(stage)
            + " called out of order"@,
        PipelineError::StageFailure { stage, cause } => "❌ Error during "@ + stage_label(stage)
            + " stage: "@ + cause@,
        PipelineError::WriteFailure { cause } => "❌ Error writing results: "@ + cause@,
    }
}

impl PipelineError {
    /// The short name the error tags its stage with.
    pub fn stage_label_str(stage: Stage) -> (r: &'static str)
        ensures
            r@ == stage_label(stage),
    {
        match stage {
            Stage::Load => "load",
            Stage::Clean => "clean",
            Stage::Aggregate => "aggregate",
            Stage::SortFilter => "sort_filter",
            Stage::Save => "save",
        }
    }

    /// The error as a one-line, user-facing message.
    pub fn message(&self) -> (r: String)
        ensures
            r@ == spec_message(*self),
    {
        match self {
            PipelineError::FileNotFound { path } => {
                let mut s = String::from_str("❌ Data file not found: ");
                s.append(path.as_str());
                s
            },
            PipelineError::OutOfOrder { stage, state: _ } => {
                let mut s = String::from_str("Pipeline stage ");
                s.append(Self::stage_label_str(*stage));
                s.append(" called out of order");
                s
            },
            PipelineError::StageFailure { stage, cause } => {
                let mut s = String::from_str("❌ Error during ");
                s.append(Self::stage_label_str(*stage));
                s.append(" stage: ");
                s.append(cause.as_str());
                s
            },
            PipelineError::WriteFailure { cause } => {
                let mut s = String::from_str("❌ Error writing results: ");
                s.append(cause.as_str());
                s
            },
        }
    }
}

/// The mathematical content of a `Pipeline` value.
#[verifier::ext_equal]
pub struct PipelineModel {
    pub state: PipelineState,
    /// Row count of the dataset handle, once one exists.
    pub rows: Option<u64>,
    pub metrics: MetricsModel,
    pub failed_stage: Option<Stage>,
}

/// How many timings a run that stands in `state` has recorded; `Failed` runs
/// have anywhere from one to five.
pub open spec fn recorded_count(state: PipelineState) -> int {
    match state {
        PipelineState::Uninitialized => 0,
        PipelineState::Loaded => 1,
        PipelineState::Cleaned => 2,
        PipelineState::Aggregated => 3,
        PipelineState::Filtered => 4,
        PipelineState::Saved => 5,
        PipelineState::Failed => -1,
    }
}

pub open spec fn has_dataset(state: PipelineState) -> bool {
    match state {
        PipelineState::Loaded
        | PipelineState::Cleaned
        | PipelineState::Aggregated
        | PipelineState::Filtered
        | PipelineState::Saved => true,
        _ => false,
    }
}

/// Well-formedness of a pipeline: timings sit in pipeline order and agree
/// with the state, a failed stage is named exactly when the run failed, and a
/// run that holds a dataset knows its row count.
pub open spec fn spec_wf(m: PipelineModel) -> bool {
    &&& timings_wf(m.metrics.timings)
    &&& (m.state == PipelineState::Failed ==> 1 <= m.metrics.timings.len() <= 5)
    &&& (m.state != PipelineState::Failed ==> m.metrics.timings.len() == recorded_count(m.state))
    &&& (m.failed_stage is Some <==> m.state == PipelineState::Failed)
    &&& (has_dataset(m.state) ==> m.rows is Some && m.metrics.rows_processed is Some)
    &&& (m.state == PipelineState::Filtered || m.state == PipelineState::Saved
        ==> m.metrics.long_trips_count is Some && m.metrics.expensive_trips_count is Some)
}

/// The model a fresh pipeline starts from.
pub open spec fn init_model() -> PipelineModel {
    PipelineModel {
        state: PipelineState::Uninitialized,
        rows: None,
        metrics: MetricsModel {
            timings: Seq::empty(),
            rows_processed: None,
            long_trips_count: None,
            expensive_trips_count: None,
        },
        failed_stage: None,
    }
}

/// Record a stage's elapsed time; nothing else moves.
pub open spec fn record_step(m: PipelineModel, stage: Stage, elapsed_centis: u32) -> PipelineModel {
    PipelineModel {
        metrics: MetricsModel {
            timings: m.metrics.timings.push(StageTiming { stage, elapsed_centis }),
            ..m.metrics
        },
        ..m
    }
}

/// A stage that failed: its time is still recorded, the run moves to
/// `Failed`, and the stage is remembered.
pub open spec fn fail_step(m: PipelineModel, stage: Stage, elapsed_centis: u32) -> PipelineModel {
    PipelineModel {
        state: PipelineState::Failed,
        failed_stage: Some(stage),
        ..record_step(m, stage, elapsed_centis)
    }
}

pub open spec fn load_step(m: PipelineModel, elapsed_centis: u32, outcome: Result<u64, String>) -> PipelineModel {
    match outcome {
        Ok(n) => {
            let m1 = record_step(m, Stage::Load, elapsed_centis);
            PipelineModel {
                state: PipelineState::Loaded,
                rows: Some(n),
                metrics: MetricsModel { rows_processed: Some(n), ..m1.metrics },
                ..m1
            }
        },
        Err(_) => fail_step(m, Stage::Load, elapsed_centis),
    }
}

pub open spec fn clean_step(m: PipelineModel, elapsed_centis: u32, outcome: Result<u64, String>) -> PipelineModel {
    match outcome {
        Ok(n) => PipelineModel {
            state: PipelineState::Cleaned,
            rows: Some(n),
            ..record_step(m, Stage::Clean, elapsed_centis)
        },
        Err(_) => fail_step(m, Stage::Clean, elapsed_centis),
    }
}

pub open spec fn aggregate_step(m: PipelineModel, elapsed_centis: u32, outcome: Result<u64, String>) -> PipelineModel {
    match outcome {
        Ok(n) => PipelineModel {
            state: PipelineState::Aggregated,
            rows: Some(n),
            ..record_step(m, Stage::Aggregate, elapsed_centis)
        },
        Err(_) => fail_step(m, Stage::Aggregate, elapsed_centis),
    }
}

pub open spec fn filter_step(
    m: PipelineModel,
    elapsed_centis: u32,
    outcome: Result<FilterSummary, String>,
) -> PipelineModel {
    match outcome {
        Ok(f) => {
            let m1 = record_step(m, Stage::SortFilter, elapsed_centis);
            PipelineModel {
                state: PipelineState::Filtered,
                rows: Some(f.rows),
                metrics: MetricsModel {
                    long_trips_count: Some(f.long_trips),
                    expensive_trips_count: Some(f.expensive_trips),
                    ..m1.metrics
                },
                ..m1
            }
        },
        Err(_) => fail_step(m, Stage::SortFilter, elapsed_centis),
    }
}

pub open spec fn save_step(m: PipelineModel, elapsed_centis: u32, outcome: Result<(), String>) -> PipelineModel {
    match outcome {
        Ok(_) => PipelineModel {
            state: PipelineState::Saved,
            ..record_step(m, Stage::Save, elapsed_centis)
        },
        Err(_) => fail_step(m, Stage::Save, elapsed_centis),
    }
}

proof fn lemma_timings_wf_push(timings: Seq<StageTiming>, t: StageTiming)
    requires
        timings_wf(timings),
        t.stage.rank() == timings.len(),
    ensures
        timings_wf(timings.push(t)),
{
    let pushed = timings.push(t);
    assert forall|i: int| 0 <= i < pushed.len() implies #[trigger] pushed[i].stage.rank() == i by {
        if i < timings.len() {
            assert(pushed[i] == timings[i]);
        }
    }
}

/// Law: a full run whose middle stages leave the row count alone hands the
/// very count that `load` produced through to the saved result. Each middle
/// stage reports the count it received — a no-op transformation — and the run
/// ends `Saved` with that count intact.
pub proof fn lemma_round_trip_preserves_rows(
    m: PipelineModel,
    n: u64,
    f: FilterSummary,
    e1: u32,
    e2: u32,
    e3: u32,
    e4: u32,
    e5: u32,
)
    requires
        spec_wf(m),
        m.state == PipelineState::Uninitialized,
        f.rows == n,
    ensures
        ({
            let done = save_step(
                filter_step(
                    aggregate_step(
                        clean_step(
                            load_step(m, e1, Ok::<u64, String>(n)),
                            e2,
                            Ok::<u64, String>(n),
                        ),
                        e3,
                        Ok::<u64, String>(n),
                    ),
                    e4,
                    Ok::<FilterSummary, String>(f),
                ),
                e5,
                Ok::<(), String>(()),
            );
            done.state == PipelineState::Saved && done.rows == Some(n) && spec_wf(done)
        }),
{
    let m1 = load_step(m, e1, Ok::<u64, String>(n));
    lemma_timings_wf_push(m.metrics.timings, StageTiming { stage: Stage::Load, elapsed_centis: e1 });
    let m2 = clean_step(m1, e2, Ok::<u64, String>(n));
    lemma_timings_wf_push(
        m1.metrics.timings,
        StageTiming { stage: Stage::Clean, elapsed_centis: e2 },
    );
    let m3 = aggregate_step(m2, e3, Ok::<u64, String>(n));
    lemma_timings_wf_push(
        m2.metrics.timings,
        StageTiming { stage: Stage::Aggregate, elapsed_centis: e3 },
    );
    let m4 = filter_step(m3, e4, Ok::<FilterSummary, String>(f));
    lemma_timings_wf_push(
        m3.metrics.timings,
        StageTiming { stage: Stage::SortFilter, elapsed_centis: e4 },
    );
    let m5 = save_step(m4, e5, Ok::<(), String>(()));
    lemma_timings_wf_push(
        m4.metrics.timings,
        StageTiming { stage: Stage::Save, elapsed_centis: e5 },
    );
}

/// Law: a stage that fails still leaves its elapsed time in the metrics
/// mapping. Every stage's failing branch is `fail_step`, so this covers each
/// of the five stages.
pub proof fn lemma_failed_stage_still_timed(m: PipelineModel, stage: Stage, elapsed_centis: u32)
    requires
        spec_wf(m),
        m.state == requisite_state(stage),
    ensures
        ({
            let failed = fail_step(m, stage, elapsed_centis);
            &&& failed.state == PipelineState::Failed
            &&& crate::metrics::entry_views(failed.metrics).contains(
                (
                    crate::metrics::metric_key(stage),
                    crate::metrics::MetricValue::Centiseconds(elapsed_centis as u64),
                ),
            )
            &&& spec_wf(failed)
        }),
{
    let failed = fail_step(m, stage, elapsed_centis);
    lemma_timings_wf_push(m.metrics.timings, StageTiming { stage, elapsed_centis });
    let idx = m.metrics.timings.len() as int;
    assert(crate::metrics::entry_views(failed.metrics)[idx] == (
        crate::metrics::metric_key(stage),
        crate::metrics::MetricValue::Centiseconds(elapsed_centis as u64),
    ));
}

/// The pipeline runner: tracks where the run stands, the row count of the
/// current dataset handle, and the metrics recorded so far. The caller does
/// the engine's work for each stage and hands the outcome in; the runner
/// decides, in a fixed order, what that outcome means.
pub struct Pipeline {
    state: PipelineState,
    rows: Option<u64>,
    metrics: Metrics,
    failed_stage: Option<Stage>,
}

impl View for Pipeline {
    type V = PipelineModel;

    closed spec fn view(&self) -> PipelineModel {
        PipelineModel {
            state: self.state,
            rows: self.rows,
            metrics: self.metrics@,
            failed_stage: self.failed_stage,
        }
    }
}

impl Pipeline {
    pub fn new() -> (r: Pipeline)
        ensures
            r@ == init_model(),
            spec_wf(r@),
    {
        let r = Pipeline {
            state: PipelineState::Uninitialized,
            rows: None,
            metrics: Metrics::new(),
            failed_stage: None,
        };
        proof {
            assert(r@ =~= init_model());
        }
        r
    }

    pub fn current_state(&self) -> (s: PipelineState)
        ensures
            s == self@.state,
    {
        self.state
    }

    /// Row count of the dataset handle the pipeline currently holds.
    pub fn current_rows(&self) -> (r: Option<u64>)
        ensures
            r == self@.rows,
    {
        self.rows
    }

    /// The stage the run failed in, if it failed.
    pub fn failed_stage(&self) -> (r: Option<Stage>)
        ensures
            r == self@.failed_stage,
    {
        self.failed_stage
    }

    /// Whether `stage` may be entered now; callers check this before doing a
    /// stage's work, so that an out-of-order call never starts any.
    pub fn can_run(&self, stage: Stage) -> (r: bool)
        ensures
            r == (self@.state == requisite_state(stage)),
    {
        match stage {
            Stage::Load => self.state == PipelineState::Uninitialized,
            Stage::Clean => self.state == PipelineState::Loaded,
            Stage::Aggregate => self.state == PipelineState::Cleaned,
            Stage::SortFilter => self.state == PipelineState::Aggregated,
            Stage::Save => self.state == PipelineState::Filtered,
        }
    }

    /// Load: the engine read the input and reports how many rows it holds, or
    /// why it could not.
    pub fn load_data(&mut self, elapsed_centis: u32, outcome: Result<u64, String>) -> (r: Result<
        (),
        PipelineError,
    >)
        requires
            spec_wf(old(self)@),
        ensures
            spec_wf(final(self)@),
            old(self)@.state != requisite_state(Stage::Load) ==> final(self)@ == old(self)@ && r
                == Err::<(), PipelineError>(
                PipelineError::OutOfOrder { stage: Stage::Load, state: old(self)@.state },
            ),
            old(self)@.state == requisite_state(Stage::Load) ==> {
                &&& final(self)@ == load_step(old(self)@, elapsed_centis, outcome)
                &&& (outcome is Ok ==> r is Ok)
                &&& (outcome matches Err(c) ==> r == Err::<(), PipelineError>(
                    PipelineError::StageFailure { stage: Stage::Load, cause: c },
                ))
            },
    {
        if !(self.state == PipelineState::Uninitialized) {
            return Err(PipelineError::OutOfOrder { stage: Stage::Load, state: self.state });
        }
        proof {
            lemma_timings_wf_push(
                self@.metrics.timings,
                StageTiming { stage: Stage::Load, elapsed_centis },
            );
        }
        self.metrics.record(Stage::Load, elapsed_centis);
        match outcome {
            Ok(n) => {
                self.state = PipelineState::Loaded;
                self.rows = Some(n);
                self.metrics.set_rows_processed(n);
                Ok(())
            },
            Err(cause) => {
                self.state = PipelineState::Failed;
                self.failed_stage = Some(Stage::Load);
                Err(PipelineError::StageFailure { stage: Stage::Load, cause })
            },
        }
    }

    /// Clean: the engine dropped invalid rows and reports how many remain.
    pub fn clean_data(&mut self, elapsed_centis: u32, outcome: Result<u64, String>) -> (r: Result<
        (),
        PipelineError,
    >)
        requires
            spec_wf(old(self)@),
        ensures
            spec_wf(final(self)@),
            old(self)@.state != requisite_state(Stage::Clean) ==> final(self)@ == old(self)@ && r
                == Err::<(), PipelineError>(
                PipelineError::OutOfOrder { stage: Stage::Clean, state: old(self)@.state },
            ),
            old(self)@.state == requisite_state(Stage::Clean) ==> {
                &&& final(self)@ == clean_step(old(self)@, elapsed_centis, outcome)
                &&& (outcome is Ok ==> r is Ok)
                &&& (outcome matches Err(c) ==> r == Err::<(), PipelineError>(
                    PipelineError::StageFailure { stage: Stage::Clean, cause: c },
                ))
            },
    {
        if !(self.state == PipelineState::Loaded) {
            return Err(PipelineError::OutOfOrder { stage: Stage::Clean, state: self.state });
        }
        proof {
            lemma_timings_wf_push(
                self@.metrics.timings,
                StageTiming { stage: Stage::Clean, elapsed_centis },
            );
        }
        self.metrics.record(Stage::Clean, elapsed_centis);
        match outcome {
            Ok(n) => {
                self.state = PipelineState::Cleaned;
                self.rows = Some(n);
                Ok(())
            },
            Err(cause) => {
                self.state = PipelineState::Failed;
                self.failed_stage = Some(Stage::Clean);
                Err(PipelineError::StageFailure { stage: Stage::Clean, cause })
            },
        }
    }

    /// Aggregate: the engine grouped the data and reports the result's rows.
    pub fn aggregate_data(&mut self, elapsed_centis: u32, outcome: Result<u64, String>) -> (r:
        Result<(), PipelineError>)
        requires
            spec_wf(old(self)@),
        ensures
            spec_wf(final(self)@),
            old(self)@.state != requisite_state(Stage::Aggregate) ==> final(self)@ == old(self)@
                && r == Err::<(), PipelineError>(
                PipelineError::OutOfOrder { stage: Stage::Aggregate, state: old(self)@.state },
            ),
            old(self)@.state == requisite_state(Stage::Aggregate) ==> {
                &&& final(self)@ == aggregate_step(old(self)@, elapsed_centis, outcome)
                &&& (outcome is Ok ==> r is Ok)
                &&& (outcome matches Err(c) ==> r == Err::<(), PipelineError>(
                    PipelineError::StageFailure { stage: Stage::Aggregate, cause: c },
                ))
            },
    {
        if !(self.state == PipelineState::Cleaned) {
            return Err(PipelineError::OutOfOrder { stage: Stage::Aggregate, state: self.state });
        }
        proof {
            lemma_timings_wf_push(
                self@.metrics.timings,
                StageTiming { stage: Stage::Aggregate, elapsed_centis },
            );
        }
        self.metrics.record(Stage::Aggregate, elapsed_centis);
        match outcome {
            Ok(n) => {
                self.state = PipelineState::Aggregated;
                self.rows = Some(n);
                Ok(())
            },
            Err(cause) => {
                self.state = PipelineState::Failed;
                self.failed_stage = Some(Stage::Aggregate);
                Err(PipelineError::StageFailure { stage: Stage::Aggregate, cause })
            },
        }
    }

    /// Sort and filter: the engine reports the surviving rows and the two ad
    /// hoc counts its criteria produced.
    pub fn sort_and_filter(
        &mut self,
        elapsed_centis: u32,
        outcome: Result<FilterSummary, String>,
    ) -> (r: Result<(), PipelineError>)
        requires
            spec_wf(old(self)@),
        ensures
            spec_wf(final(self)@),
            old(self)@.state != requisite_state(Stage::SortFilter) ==> final(self)@ == old(self)@
                && r == Err::<(), PipelineError>(
                PipelineError::OutOfOrder { stage: Stage::SortFilter, state: old(self)@.state },
            ),
            old(self)@.state == requisite_state(Stage::SortFilter) ==> {
                &&& final(self)@ == filter_step(old(self)@, elapsed_centis, outcome)
                &&& (outcome is Ok ==> r is Ok)
                &&& (outcome matches Err(c) ==> r == Err::<(), PipelineError>(
                    PipelineError::StageFailure { stage: Stage::SortFilter, cause: c },
                ))
            },
    {
        if !(self.state == PipelineState::Aggregated) {
            return Err(PipelineError::OutOfOrder { stage: Stage::SortFilter, state: self.state });
        }
        proof {
            lemma_timings_wf_push(
                self@.metrics.timings,
                StageTiming { stage: Stage::SortFilter, elapsed_centis },
            );
        }
        self.metrics.record(Stage::SortFilter, elapsed_centis);
        match outcome {
            Ok(f) => {
                self.state = PipelineState::Filtered;
                self.rows = Some(f.rows);
                self.metrics.set_long_trips_count(f.long_trips);
                self.metrics.set_expensive_trips_count(f.expensive_trips);
                Ok(())
            },
            Err(cause) => {
                self.state = PipelineState::Failed;
                self.failed_stage = Some(Stage::SortFilter);
                Err(PipelineError::StageFailure { stage: Stage::SortFilter, cause })
            },
        }
    }

    /// Save: the engine wrote the result files, or reports why it could not;
    /// a failure here is a `WriteFailure`.
    pub fn save_results(&mut self, elapsed_centis: u32, outcome: Result<(), String>) -> (r: Result<
        (),
        PipelineError,
    >)
        requires
            spec_wf(old(self)@),
        ensures
            spec_wf(final(self)@),
            old(self)@.state != requisite_state(Stage::Save) ==> final(self)@ == old(self)@ && r
                == Err::<(), PipelineError>(
                PipelineError::OutOfOrder { stage: Stage::Save, state: old(self)@.state },
            ),
            old(self)@.state == requisite_state(Stage::Save) ==> {
                &&& final(self)@ == save_step(old(self)@, elapsed_centis, outcome)
                &&& (outcome is Ok ==> r is Ok)
                &&& (outcome matches Err(c) ==> r == Err::<(), PipelineError>(
                    PipelineError::WriteFailure { cause: c },
                ))
            },
    {
        if !(self.state == PipelineState::Filtered) {
            return Err(PipelineError::OutOfOrder { stage: Stage::Save, state: self.state });
        }
        proof {
            lemma_timings_wf_push(
                self@.metrics.timings,
                StageTiming { stage: Stage::Save, elapsed_centis },
            );
        }
        self.metrics.record(Stage::Save, elapsed_centis);
        match outcome {
            Ok(_) => {
                self.state = PipelineState::Saved;
                Ok(())
            },
            Err(cause) => {
                self.state = PipelineState::Failed;
                self.failed_stage = Some(Stage::Save);
                Err(PipelineError::WriteFailure { cause })
            },
        }
    }

    /// The recorded metrics, readable once the run is over — after `save`
    /// succeeded or any stage failed.
    pub fn get_metrics(&self) -> (r: Vec<MetricEntry>)
        requires
            spec_wf(self@),
            self@.state == PipelineState::Saved || self@.state == PipelineState::Failed,
        ensures
            r@.map_values(|e: MetricEntry| e@) == entry_views(self@.metrics),
    {
        self.metrics.to_entries()
    }
}

} // verus!

