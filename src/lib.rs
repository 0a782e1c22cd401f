//! Navigation, caching and data-loading engine for a terminal dashboard that
//! browses CI owners, repositories, workflows, runs, jobs, logs and runners.

pub mod text;
pub mod paths;
pub mod types;
pub mod navigation;
pub mod clock;
pub mod error;
pub mod store;
pub mod log;
pub mod grouping;
pub mod favorites;
pub mod sync;
pub mod lists;
pub mod workflows;
pub mod runners;
pub mod analyze;
pub mod loader;
pub mod dashboard;
pub mod client;
