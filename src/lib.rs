//! Screen-activity capture pipeline: frame fingerprints, near-duplicate
//! suppression, the per-stage decision machines and the storage layout rules.
pub mod capture;
pub mod comparer;
pub mod continuous;
pub mod dedup;
pub mod images;
pub mod metrics;
pub mod monitor;
pub mod pipeline;
pub mod raster;
pub mod storage_task;
pub mod store;
