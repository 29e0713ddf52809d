//! Core of an agent framework for long-running, failure-prone external
//! operations: a lifecycle controller that guarantees the control plane
//! learns each run's outcome, a checkpointed create/destroy provisioning
//! contract with classified failures, a bounded wait/poll primitive, and
//! the pure derivations the concrete cluster provider relies on.

pub mod channel;
pub mod cluster_config;
pub mod codec;
pub mod dns;
pub mod errors;
pub mod history;
pub mod lifecycle;
pub mod memo;
pub mod provision;
pub mod results;
pub mod selftest;
pub mod text;
pub mod waiting;
pub mod workload;
