use polars_etl::metrics::MetricValue;
use polars_etl::pipeline::FilterSummary;
use polars_etl::pipeline::Pipeline;
use polars_etl::pipeline::PipelineError;
use polars_etl::pipeline::PipelineState;
use polars_etl::pipeline::Stage;

fn no_op_filter(rows: u64) -> FilterSummary {
    FilterSummary { rows, long_trips: 0, expensive_trips: 0 }
}

#[test]
fn round_trip_preserves_row_count() {
    let mut etl = Pipeline::new();
    assert!(etl.load_data(12, Ok(100)).is_ok());
    assert!(etl.clean_data(8, Ok(100)).is_ok());
    assert!(etl.aggregate_data(4, Ok(100)).is_ok());
    assert!(etl.sort_and_filter(3, Ok(no_op_filter(100))).is_ok());
    assert!(etl.save_results(1, Ok(())).is_ok());
    assert_eq!(etl.current_state(), PipelineState::Saved);
    assert_eq!(etl.current_rows(), Some(100));
}

#[test]
fn stage_before_predecessor_fails_fast() {
    let mut etl = Pipeline::new();
    let r = etl.clean_data(1, Ok(5));
    assert_eq!(
        r,
        Err(PipelineError::OutOfOrder { stage: Stage::Clean, state: PipelineState::Uninitialized })
    );
    assert_eq!(etl.current_state(), PipelineState::Uninitialized);
    assert_eq!(etl.current_rows(), None);

    assert!(etl.load_data(2, Ok(10)).is_ok());
    let r = etl.sort_and_filter(1, Ok(no_op_filter(10)));
    assert_eq!(
        r,
        Err(PipelineError::OutOfOrder { stage: Stage::SortFilter, state: PipelineState::Loaded })
    );
    let r = etl.save_results(1, Ok(()));
    assert_eq!(
        r,
        Err(PipelineError::OutOfOrder { stage: Stage::Save, state: PipelineState::Loaded })
    );
    // the out-of-order calls moved nothing
    assert_eq!(etl.current_state(), PipelineState::Loaded);
    assert_eq!(etl.current_rows(), Some(10));
}

#[test]
fn no_stage_runs_after_a_failure() {
    let mut etl = Pipeline::new();
    assert!(etl.load_data(2, Ok(10)).is_ok());
    let r = etl.clean_data(1, Err("corrupt chunk".to_string()));
    assert_eq!(
        r,
        Err(PipelineError::StageFailure {
            stage: Stage::Clean,
            cause: "corrupt chunk".to_string()
        })
    );
    assert_eq!(etl.current_state(), PipelineState::Failed);
    assert_eq!(etl.failed_stage(), Some(Stage::Clean));
    assert!(!etl.can_run(Stage::Aggregate));
    let r = etl.aggregate_data(1, Ok(10));
    assert_eq!(
        r,
        Err(PipelineError::OutOfOrder { stage: Stage::Aggregate, state: PipelineState::Failed })
    );
}

#[test]
fn failed_stage_is_still_timed() {
    let mut etl = Pipeline::new();
    assert!(etl.load_data(7, Ok(10)).is_ok());
    let _ = etl.clean_data(9, Err("null column".to_string()));
    let entries = etl.get_metrics();
    let clean = entries.iter().find(|e| e.name == "clean_time").expect("clean_time recorded");
    assert_eq!(clean.value, MetricValue::Centiseconds(9));
    // the totals line is present as well, summing both recorded stages
    let total = entries.iter().find(|e| e.name == "total_time").expect("total_time present");
    assert_eq!(total.value, MetricValue::Centiseconds(16));
}

#[test]
fn load_failure_is_timed_and_tagged() {
    let mut etl = Pipeline::new();
    let r = etl.load_data(5, Err("no such file".to_string()));
    assert_eq!(
        r,
        Err(PipelineError::StageFailure { stage: Stage::Load, cause: "no such file".to_string() })
    );
    assert_eq!(etl.failed_stage(), Some(Stage::Load));
    let entries = etl.get_metrics();
    assert_eq!(entries[0].name, "load_time");
    assert_eq!(entries[0].value, MetricValue::Centiseconds(5));
    assert_eq!(entries[1].name, "total_time");
    assert_eq!(entries[1].value, MetricValue::Centiseconds(5));
    assert_eq!(entries.len(), 2);
}

#[test]
fn save_failure_is_a_write_failure() {
    let mut etl = Pipeline::new();
    assert!(etl.load_data(1, Ok(3)).is_ok());
    assert!(etl.clean_data(1, Ok(3)).is_ok());
    assert!(etl.aggregate_data(1, Ok(3)).is_ok());
    assert!(etl.sort_and_filter(1, Ok(no_op_filter(3))).is_ok());
    let r = etl.save_results(1, Err("disk full".to_string()));
    assert_eq!(r, Err(PipelineError::WriteFailure { cause: "disk full".to_string() }));
    assert_eq!(etl.current_state(), PipelineState::Failed);
    assert_eq!(etl.failed_stage(), Some(Stage::Save));
}

#[test]
fn hundred_row_scenario() {
    // 100 rows in; cleaning drops rows with a null pickup time; aggregation
    // groups by a column with three distinct values.
    let mut etl = Pipeline::new();
    assert!(etl.load_data(12, Ok(100)).is_ok());
    assert_eq!(etl.current_rows(), Some(100));
    assert!(etl.clean_data(8, Ok(97)).is_ok());
    assert!(etl.current_rows().unwrap() <= 100);
    assert!(etl.aggregate_data(4, Ok(3)).is_ok());
    assert_eq!(etl.current_rows(), Some(3));
}

#[test]
fn metrics_come_out_in_pipeline_order() {
    let mut etl = Pipeline::new();
    assert!(etl.load_data(120, Ok(1000)).is_ok());
    assert!(etl.clean_data(80, Ok(990)).is_ok());
    assert!(etl.aggregate_data(40, Ok(12)).is_ok());
    assert!(
        etl.sort_and_filter(30, Ok(FilterSummary { rows: 12, long_trips: 4, expensive_trips: 2 }))
            .is_ok()
    );
    assert!(etl.save_results(10, Ok(())).is_ok());
    let entries = etl.get_metrics();
    let names: Vec<&str> = entries.iter().map(|e| e.name.as_str()).collect();
    assert_eq!(
        names,
        vec![
            "load_time",
            "clean_time",
            "aggregate_time",
            "sort_filter_time",
            "save_time",
            "total_time",
            "rows_processed",
            "long_trips_count",
            "expensive_trips_count",
        ]
    );
    assert_eq!(entries[5].value, MetricValue::Centiseconds(280));
    assert_eq!(entries[6].value, MetricValue::Count(1000));
    assert_eq!(entries[7].value, MetricValue::Count(4));
    assert_eq!(entries[8].value, MetricValue::Count(2));
}

#[test]
fn can_run_follows_the_state_machine() {
    let mut etl = Pipeline::new();
    assert!(etl.can_run(Stage::Load));
    assert!(!etl.can_run(Stage::Clean));
    assert!(etl.load_data(1, Ok(5)).is_ok());
    assert!(!etl.can_run(Stage::Load));
    assert!(etl.can_run(Stage::Clean));
    assert!(!etl.can_run(Stage::Save));
}

#[test]
fn error_messages_read_as_one_line() {
    let e = PipelineError::FileNotFound { path: "../data/taxi.csv".to_string() };
    assert_eq!(e.message(), "❌ Data file not found: ../data/taxi.csv");
    let e = PipelineError::OutOfOrder { stage: Stage::Clean, state: PipelineState::Uninitialized };
    assert_eq!(e.message(), "Pipeline stage clean called out of order");
    let e = PipelineError::StageFailure { stage: Stage::Aggregate, cause: "boom".to_string() };
    assert_eq!(e.message(), "❌ Error during aggregate stage: boom");
    let e = PipelineError::WriteFailure { cause: "disk full".to_string() };
    assert_eq!(e.message(), "❌ Error writing results: disk full");
}
