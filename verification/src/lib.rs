//! Resource modeling and bottleneck analysis for a file-transfer server.
//!
//! Given a hardware/workload profile (RAM, CPU cores, network bandwidth,
//! disk type, average file size, connection counts, complexity class), the
//! crate derives a recommended metaspace/heap/direct-memory budget, per-resource
//! capacity ceilings, the overall bottleneck with a sustainable-connection
//! estimate, and categorical risk/safety labels for simulated load scenarios.
//!
//! All computation is exact integer arithmetic over fixed sub-units
//! (milli-GB for memory budgets, milli-KB for per-connection memory,
//! parts per million for safety ratios), so every result is a pure,
//! deterministic function of the profile, and every formula is stated
//! and proved as a contract.

pub mod analysis;
pub mod args;
pub mod budget;
pub mod config;
pub mod laws;
pub mod utils;

pub use analysis::performance::PerformanceReport;
pub use analysis::{calculate_metaspace, calculate_safety, SafetyAnalysis, Scenario};
pub use args::Args;
pub use budget::MemoryBudget;
pub use config::{get_disk_configs, DiskConfig};
