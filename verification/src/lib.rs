//! Measurement runtime for energy and resource telemetry: a typed metric
//! registry, a registry of pipeline elements, the values that flow through
//! the pipeline, and helpers for wrap-prone counters.

pub mod counter_diff;
pub mod units;
pub mod resources;
pub mod metrics;
pub mod measurement;
pub mod pipeline;
pub mod registry;
pub mod plugin;
pub mod k8s_probe;
pub mod runtime;
pub mod relay;
pub mod config;
