use polars_etl::format::console_lines;
use polars_etl::format::format_centis;
use polars_etl::format::title_case_key;
use polars_etl::format::u64_to_decimal;
use polars_etl::metrics::MetricValue;
use polars_etl::payload::run_benchmark;
use polars_etl::payload::get_comparison_info;
use polars_etl::payload::health_check;
use polars_etl::payload::records_per_second;
use polars_etl::payload::BenchmarkQuery;
use polars_etl::pipeline::FilterSummary;
use polars_etl::pipeline::Pipeline;

#[test]
fn decimal_rendering() {
    assert_eq!(u64_to_decimal(0), "0");
    assert_eq!(u64_to_decimal(7), "7");
    assert_eq!(u64_to_decimal(10), "10");
    assert_eq!(u64_to_decimal(12748986), "12748986");
}

#[test]
fn two_decimal_seconds() {
    assert_eq!(format_centis(280), "2.80");
    assert_eq!(format_centis(5), "0.05");
    assert_eq!(format_centis(100), "1.00");
    assert_eq!(format_centis(0), "0.00");
    assert_eq!(format_centis(12345), "123.45");
}

#[test]
fn metric_names_are_title_cased() {
    assert_eq!(title_case_key("load_time"), "Load Time");
    assert_eq!(title_case_key("sort_filter_time"), "Sort Filter Time");
    assert_eq!(title_case_key("total_time"), "Total Time");
    assert_eq!(title_case_key(""), "");
    assert_eq!(title_case_key("already Upper"), "Already Upper");
}

#[test]
fn console_summary_shows_timings_only() {
    let mut etl = Pipeline::new();
    assert!(etl.load_data(120, Ok(1000)).is_ok());
    assert!(etl.clean_data(80, Ok(990)).is_ok());
    assert!(etl.aggregate_data(40, Ok(12)).is_ok());
    assert!(
        etl.sort_and_filter(30, Ok(FilterSummary { rows: 12, long_trips: 4, expensive_trips: 2 }))
            .is_ok()
    );
    assert!(etl.save_results(10, Ok(())).is_ok());
    let lines = console_lines(&etl.get_metrics());
    assert_eq!(
        lines,
        vec![
            "Load Time: 1.20s",
            "Clean Time: 0.80s",
            "Aggregate Time: 0.40s",
            "Sort Filter Time: 0.30s",
            "Save Time: 0.10s",
            "Total Time: 2.80s",
        ]
    );
}

#[test]
fn benchmark_payload_reports_the_demonstration_rows() {
    let r = run_benchmark(&BenchmarkQuery { sample_size: None });
    let rows = r.metrics.iter().find(|e| e.name == "rows_processed").expect("rows_processed");
    assert_eq!(rows.value, MetricValue::Count(12748986));
}

#[test]
fn benchmark_payload_is_the_fixed_demonstration_set() {
    // the advertised numbers do not depend on the sample size parameter
    let r = run_benchmark(&BenchmarkQuery { sample_size: Some(1000) });
    let pairs: Vec<(&str, MetricValue)> =
        r.metrics.iter().map(|e| (e.name.as_str(), e.value)).collect();
    assert_eq!(
        pairs,
        vec![
            ("load_time", MetricValue::Centiseconds(120)),
            ("clean_time", MetricValue::Centiseconds(80)),
            ("aggregate_time", MetricValue::Centiseconds(40)),
            ("sort_filter_time", MetricValue::Centiseconds(30)),
            ("save_time", MetricValue::Centiseconds(10)),
            ("total_time", MetricValue::Centiseconds(280)),
            ("rows_processed", MetricValue::Count(12748986)),
            ("long_trips_count", MetricValue::Count(45632)),
            ("expensive_trips_count", MetricValue::Count(123456)),
        ]
    );
    assert_eq!(r.message, "✅ Polars ETL benchmark completed successfully with blazing speed!");
    assert_eq!(
        r.performance_summary,
        "🚀 Polars processed 12.7M taxi records in just 2.8s - that's 4553209 records/second! \
         This demonstrates Rust's superior performance for data-intensive workloads."
    );
    assert_eq!(r.dataset_info.name, "NYC Yellow Taxi Data (January 2015)");
    assert_eq!(r.dataset_info.rows, 12748986);
    assert_eq!(r.dataset_info.size_mb, "~2.1 GB");
    assert_eq!(r.dataset_info.columns, 19);
}

#[test]
fn records_per_second_rounds_down() {
    assert_eq!(records_per_second(12748986, 280), 4553209);
    assert_eq!(records_per_second(100, 100), 100);
    assert_eq!(records_per_second(1, 300), 0);
}

#[test]
fn health_payload_lists_the_endpoints() {
    let h = health_check();
    assert_eq!(h.status, "healthy");
    assert_eq!(h.service, "Polars ETL Benchmark API");
    assert_eq!(h.version, "1.0.0");
    assert_eq!(
        h.description,
        "High-performance data processing with Rust and Polars - showcasing 5-8x speedup over Python Pandas"
    );
    assert_eq!(
        h.endpoints,
        vec!["GET /", "GET /health", "GET /benchmark", "GET /benchmark?sample_size=1000"]
    );
}

#[test]
fn comparison_payload_is_the_static_story() {
    let c = get_comparison_info();
    assert_eq!(c.benchmark_info.dataset, "NYC Yellow Taxi Data (January 2015)");
    assert_eq!(c.benchmark_info.total_records, "12.7M+");
    assert_eq!(c.benchmark_info.file_size, "~2.1 GB");
    assert_eq!(
        c.benchmark_info.operations_tested,
        vec![
            "CSV Loading & Parsing",
            "Data Cleaning & Validation",
            "Complex Aggregations",
            "Multi-condition Filtering",
            "Large-scale Sorting",
        ]
    );
    assert_eq!(c.performance_advantages.polars_rust.multi_threading, "Uses all CPU cores");
    assert_eq!(c.performance_advantages.polars_rust.memory_safety, "Zero-cost abstractions");
    assert_eq!(c.performance_advantages.polars_rust.simd_optimization, "Vectorized operations");
    assert_eq!(c.performance_advantages.polars_rust.lazy_evaluation, "Query optimization");
    assert_eq!(c.performance_advantages.polars_rust.typical_speedup, "5-8x faster than Pandas");
    assert_eq!(c.performance_advantages.pandas_python.single_threaded, "Limited by GIL");
    assert_eq!(c.performance_advantages.pandas_python.memory_overhead, "Garbage collection costs");
    assert_eq!(c.performance_advantages.pandas_python.eager_evaluation, "Immediate execution");
    assert_eq!(c.deployment.platform, "Shuttle.rs");
    assert_eq!(c.deployment.language, "Rust");
    assert_eq!(c.deployment.framework, "Axum + Polars");
}
