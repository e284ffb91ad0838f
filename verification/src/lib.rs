//! A minimal process-supervision utility: PID bookkeeping for a single
//! companion backend process, and construction of best-effort,
//! platform-aware kill commands for that process and its descendants.

pub mod killer;
pub mod registry;
pub mod supervisor;
