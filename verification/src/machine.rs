//! The unit-machine vocabulary, the effects engine and the per-unit
//! scheduler.
pub mod actor;
pub mod effects;
pub mod http;
pub mod types;
