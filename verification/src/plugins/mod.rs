//! Supervised plugins: their configuration, logs and life cycle.
pub mod config;
pub mod errors;
pub mod logs;
pub mod record_laws;
pub mod supervisor;
