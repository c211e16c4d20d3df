//! Security posture assessment: collected host configuration is evaluated
//! against CIS Benchmark and NIST controls.
pub mod analyzers;
pub mod cli;
pub mod collectors;
pub mod error;
pub mod models;
pub mod num;
pub mod output;
pub mod platform;
pub mod runner;
pub mod table;
pub mod text;
