//! Orchestration logic for running integration tests inside ephemeral
//! virtual machines: named VM configurations, runtime display options,
//! a test registry with ordered filtering, per-test outcome aggregation,
//! and the pipeline state machine that sequences VM boot, provisioning,
//! the network side channel, test execution and guaranteed teardown.

pub mod args;
pub mod config;
pub mod context;
pub mod decimal;
pub mod errors;
pub mod hosts;
pub mod paths;
pub mod pipeline;
pub mod registry;
pub mod store;
pub mod summary;
