//! Service-mode payloads. The HTTP surface answers with a fixed set of
//! demonstration metrics and dataset descriptions; nothing here runs the
//! pipeline per request. These builders pin down exactly what is advertised.

use vstd::prelude::*;
use vstd::string::*;
use crate::format::spec_decimal;
use crate::format::u64_to_decimal;
use crate::metrics::MetricEntry;
use crate::metrics::MetricValue;

verus! {

/// Query parameters of the benchmark route. The sample size is accepted but
/// the demonstration payload does not depend on it.
pub struct BenchmarkQuery {
    pub sample_size: Option<usize>,
}

/// Description of the dataset the demonstration numbers refer to.
pub struct DatasetInfo {
    pub name: String,
    pub rows: u64,
    pub size_mb: String,
    pub columns: u8,
}

/// The benchmark route's payload.
pub struct BenchmarkResult {
    pub metrics: Vec<MetricEntry>,
    pub message: String,
    pub performance_summary: String,
    pub dataset_info: DatasetInfo,
}

/// The health route's payload.
pub struct HealthResponse {
    pub status: String,
    pub service: String,
    pub version: String,
    pub description: String,
    pub endpoints: Vec<String>,
}

/// What the benchmark measured, as told on the info route.
pub struct InfoBenchmark {
    pub dataset: String,
    pub total_records: String,
    pub file_size: String,
    pub operations_tested: Vec<String>,
}

/// The claims made for the columnar engine.
pub struct PolarsAdvantages {
    pub multi_threading: String,
    pub memory_safety: String,
    pub simd_optimization: String,
    pub lazy_evaluation: String,
    pub typical_speedup: String,
}

/// The claims made about the baseline it is compared with.
pub struct PandasCharacteristics {
    pub single_threaded: String,
    pub memory_overhead: String,
    pub eager_evaluation: String,
}

pub struct PerformanceAdvantages {
    pub polars_rust: PolarsAdvantages,
    pub pandas_python: PandasCharacteristics,
}

pub struct DeploymentInfo {
    pub platform: String,
    pub language: String,
    pub framework: String,
}

/// The info route's payload.
pub struct ComparisonInfo {
    pub benchmark_info: InfoBenchmark,
    pub performance_advantages: PerformanceAdvantages,
    pub deployment: DeploymentInfo,
}

/// The fixed demonstration metrics, in the order they are reported.
pub open spec fn demo_metric_views() -> Seq<(Seq<char>, MetricValue)> {
    seq![
        ("load_time"@, MetricValue::Centiseconds(120)),
        ("clean_time"@, MetricValue::Centiseconds(80)),
        ("aggregate_time"@, MetricValue::Centiseconds(40)),
        ("sort_filter_time"@, MetricValue::Centiseconds(30)),
        ("save_time"@, MetricValue::Centiseconds(10)),
        ("total_time"@, MetricValue::Centiseconds(280)),
        ("rows_processed"@, MetricValue::Count(12748986)),
        ("long_trips_count"@, MetricValue::Count(45632)),
        ("expensive_trips_count"@, MetricValue::Count(123456)),
    ]
}

/// Whole records per second, rounded down.
pub open spec fn spec_records_per_second(rows: u64, total_centis: u64) -> int {
    (rows * 100) / (total_centis as int)
}

/// The advertised summary sentence, with the rate derived from the
/// demonstration row count and total time.
pub open spec fn spec_performance_summary() -> Seq<char> {
    "🚀 Polars processed 12.7M taxi records in just 2.8s - that's "@ + spec_decimal(
        spec_records_per_second(12748986, 280) as nat,
    ) + " records/second! This demonstrates Rust's superior performance for data-intensive workloads."@
}

/// Whole records per second, rounded down.
pub fn records_per_second(rows: u64, total_centis: u64) -> (r: u64)
    requires
        total_centis > 0,
        rows * 100 <= u64::MAX,
    ensures
        r == spec_records_per_second(rows, total_centis),
{
    (rows * 100) / total_centis
}

/// The benchmark route: a fixed demonstration payload. The query's sample
/// size is accepted and ignored, as the advertised numbers are not computed
/// per request.
pub fn run_benchmark(query: &BenchmarkQuery) -> (r: BenchmarkResult)
    ensures
        r.metrics@.map_values(|e: MetricEntry| e@) == demo_metric_views(),
        r.message@ == "✅ Polars ETL benchmark completed successfully with blazing speed!"@,
        r.performance_summary@ == spec_performance_summary(),
        r.dataset_info.name@ == "NYC Yellow Taxi Data (January 2015)"@,
        r.dataset_info.rows == 12748986u64,
        r.dataset_info.size_mb@ == "~2.1 GB"@,
        r.dataset_info.columns == 19u8,
{
    let mut metrics: Vec<MetricEntry> = Vec::new();
    metrics.push(
        MetricEntry { name: String::from_str("load_time"), value: MetricValue::Centiseconds(120) },
    );
    metrics.push(
        MetricEntry { name: String::from_str("clean_time"), value: MetricValue::Centiseconds(80) },
    );
    metrics.push(
        MetricEntry {
            name: String::from_str("aggregate_time"),
            value: MetricValue::Centiseconds(40),
        },
    );
    metrics.push(
        MetricEntry {
            name: String::from_str("sort_filter_time"),
            value: MetricValue::Centiseconds(30),
        },
    );
    metrics.push(
        MetricEntry { name: String::from_str("save_time"), value: MetricValue::Centiseconds(10) },
    );
    metrics.push(
        MetricEntry { name: String::from_str("total_time"), value: MetricValue::Centiseconds(280) },
    );
    metrics.push(
        MetricEntry {
            name: String::from_str("rows_processed"),
            value: MetricValue::Count(12748986),
        },
    );
    metrics.push(
        MetricEntry {
            name: String::from_str("long_trips_count"),
            value: MetricValue::Count(45632),
        },
    );
    metrics.push(
        MetricEntry {
            name: String::from_str("expensive_trips_count"),
            value: MetricValue::Count(123456),
        },
    );
    proof {
        assert(metrics@.map_values(|e: MetricEntry| e@) =~= demo_metric_views());
    }
    let rate = records_per_second(12748986, 280);
    let rate_digits = u64_to_decimal(rate);
    let mut summary = String::from_str("🚀 Polars processed 12.7M taxi records in just 2.8s - that's ");
    summary.append(rate_digits.as_str());
    summary.append(
        " records/second! This demonstrates Rust's superior performance for data-intensive workloads.",
    );
    let dataset_info = DatasetInfo {
        name: String::from_str("NYC Yellow Taxi Data (January 2015)"),
        rows: 12748986,
        size_mb: String::from_str("~2.1 GB"),
        columns: 19,
    };
    BenchmarkResult {
        metrics,
        message: String::from_str("✅ Polars ETL benchmark completed successfully with blazing speed!"),
        performance_summary: summary,
        dataset_info,
    }
}

/// The health route: a static descriptor of the service and its endpoints.
pub fn health_check() -> (r: HealthResponse)
    ensures
        r.status@ == "healthy"@,
        r.service@ == "Polars ETL Benchmark API"@,
        r.version@ == "1.0.0"@,
        r.description@
            == "High-performance data processing with Rust and Polars - showcasing 5-8x speedup over Python Pandas"@,
        r.endpoints@.len() == 4,
        r.endpoints@[0]@ == "GET /"@,
        r.endpoints@[1]@ == "GET /health"@,
        r.endpoints@[2]@ == "GET /benchmark"@,
        r.endpoints@[3]@ == "GET /benchmark?sample_size=1000"@,
{
    let mut endpoints: Vec<String> = Vec::new();
    endpoints.push(String::from_str("GET /"));
    endpoints.push(String::from_str("GET /health"));
    endpoints.push(String::from_str("GET /benchmark"));
    endpoints.push(String::from_str("GET /benchmark?sample_size=1000"));
    HealthResponse {
        status: String::from_str("healthy"),
        service: String::from_str("Polars ETL Benchmark API"),
        version: String::from_str("1.0.0"),
        description: String::from_str(
            "High-performance data processing with Rust and Polars - showcasing 5-8x speedup over Python Pandas",
        ),
        endpoints,
    }
}

/// The info route: the static comparison story told alongside the numbers.
pub fn get_comparison_info() -> (r: ComparisonInfo)
    ensures
        r.benchmark_info.dataset@ == "NYC Yellow Taxi Data (January 2015)"@,
        r.benchmark_info.total_records@ == "12.7M+"@,
        r.benchmark_info.file_size@ == "~2.1 GB"@,
        r.benchmark_info.operations_tested@.len() == 5,
        r.benchmark_info.operations_tested@[0]@ == "CSV Loading & Parsing"@,
        r.benchmark_info.operations_tested@[1]@ == "Data Cleaning & Validation"@,
        r.benchmark_info.operations_tested@[2]@ == "Complex Aggregations"@,
        r.benchmark_info.operations_tested@[3]@ == "Multi-condition Filtering"@,
        r.benchmark_info.operations_tested@[4]@ == "Large-scale Sorting"@,
        r.performance_advantages.polars_rust.multi_threading@ == "Uses all CPU cores"@,
        r.performance_advantages.polars_rust.memory_safety@ == "Zero-cost abstractions"@,
        r.performance_advantages.polars_rust.simd_optimization@ == "Vectorized operations"@,
        r.performance_advantages.polars_rust.lazy_evaluation@ == "Query optimization"@,
        r.performance_advantages.polars_rust.typical_speedup@ == "5-8x faster than Pandas"@,
        r.performance_advantages.pandas_python.single_threaded@ == "Limited by GIL"@,
        r.performance_advantages.pandas_python.memory_overhead@ == "Garbage collection costs"@,
        r.performance_advantages.pandas_python.eager_evaluation@ == "Immediate execution"@,
        r.deployment.platform@ == "Shuttle.rs"@,
        r.deployment.language@ == "Rust"@,
        r.deployment.framework@ == "Axum + Polars"@,
{
    let mut operations_tested: Vec<String> = Vec::new();
    operations_tested.push(String::from_str("CSV Loading & Parsing"));
    operations_tested.push(String::from_str("Data Cleaning & Validation"));
    operations_tested.push(String::from_str("Complex Aggregations"));
    operations_tested.push(String::from_str("Multi-condition Filtering"));
    operations_tested.push(String::from_str("Large-scale Sorting"));
    ComparisonInfo {
        benchmark_info: InfoBenchmark {
            dataset: String::from_str("NYC Yellow Taxi Data (January 2015)"),
            total_records: String::from_str("12.7M+"),
            file_size: String::from_str("~2.1 GB"),
            operations_tested,
        },
        performance_advantages: PerformanceAdvantages {
            polars_rust: PolarsAdvantages {
                multi_threading: String::from_str("Uses all CPU cores"),
                memory_safety: String::from_str("Zero-cost abstractions"),
                simd_optimization: String::from_str("Vectorized operations"),
                lazy_evaluation: String::from_str("Query optimization"),
                typical_speedup: String::from_str("5-8x faster than Pandas"),
            },
            pandas_python: PandasCharacteristics {
                single_threaded: String::from_str("Limited by GIL"),
                memory_overhead: String::from_str("Garbage collection costs"),
                eager_evaluation: String::from_str("Immediate execution"),
            },
        },
        deployment: DeploymentInfo {
            platform: String::from_str("Shuttle.rs"),
            language: String::from_str("Rust"),
            framework: String::from_str("Axum + Polars"),
        },
    }
}

} // verus!
