//! Pipelines of provisioning and command stages, built declaratively and
//! driven one stage at a time by a fail-fast runner.

pub mod catalog;
pub mod environment;
pub mod laws;
pub mod pipeline;
pub mod runner;
pub mod stage;
