//! Verified core of a small host-metrics reporter.
//!
//! The library owns everything that can be stated and proved: the two-point
//! sampling arithmetic that turns cumulative network counters into byte
//! rates, the fixed-point rendering of byte quantities, the parsing of an
//! OS release descriptor and of a port configuration value, the JSON
//! encoding of a metrics record, and the per-connection streaming session
//! state machine.  Reading the operating system and moving bytes over a
//! socket are left to a thin unverified shell around this crate.

pub mod config;
pub mod digits;
pub mod fmtmem;
pub mod json;
pub mod jsondec;
pub mod metrics;
pub mod net;
pub mod osrelease;
pub mod session;
