//! Benchmark harness logic for shared-memory and memory-mapped ring transports.

pub mod averages;
pub mod backend;
pub mod bench;
pub mod bench_log;
pub mod child_env;
pub mod competitors;
pub mod coordination;
pub mod decimal;
pub mod discovery;
pub mod double;
pub mod env_config;
pub mod event_consumer;
pub mod events;
pub mod frames;
pub mod handover;
pub mod host;
pub mod json_text;
pub mod latency;
pub mod launch;
pub mod layout_validation;
pub mod liveness;
pub mod metric;
pub mod naming;
pub mod output_dir;
pub mod pacing;
pub mod pingpong;
pub mod process;
pub mod repeatability;
pub mod report;
pub mod reporting;
pub mod results;
pub mod runner;
pub mod scenarios;
pub mod signal_counters;
pub mod signal_latency;
pub mod sizing;
pub mod suites;
pub mod summary;
pub mod table;
pub mod text;
