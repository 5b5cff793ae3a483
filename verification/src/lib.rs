//! A staged ETL benchmark harness: five named stages (load, clean, aggregate,
//! sort/filter, save) run strictly in sequence over a dataset handle, with
//! elapsed time recorded per stage, a console summary, and the static
//! payloads of the benchmark's HTTP surface.

pub mod format;
pub mod metrics;
pub mod payload;
pub mod pipeline;
