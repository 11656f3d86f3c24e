//! Host resource metrics and upload acceptance: the decisions behind a small
//! monitoring service, stated and proved over plain values.
//!
//! Reported quantities are exact: sizes in bytes (a gigabyte is
//! `BYTES_PER_GB` bytes), usage as a fraction of two integers.

pub mod cpu;
pub mod metrics;
pub mod storage;
pub mod text;
pub mod upload;

pub use cpu::{CpuSampler, SamplerAction, SETTLING_DELAY_MS};
pub use metrics::{
    memory_report, percent_of, MemoryReport, Percent, BYTES_PER_GB,
};
pub use storage::{disk_report, storage_report, DiskFilter, DiskReport, Volume};
pub use upload::{
    UploadError, UploadPlan, UploadPolicy, DEFAULT_BASE_NAME, DEFAULT_EXTENSION,
    FIELD_SIZE_LIMIT, FILE_SIZE_LIMIT, UPLOAD_MODE, UPLOAD_ROOT,
};
