//! Verified core of a plant-operations telemetry subsystem: a fixed-point
//! process simulator, the session state machine and tag fan-out rules of a
//! field-protocol acquisition source, the supervisor's startup policy, and a
//! tamper-evident, hash-chained audit log.
//!
//! All decision logic lives here with contracts; the surrounding process
//! (timers, network sessions, the relational store) drives it from outside.

pub mod audit;
pub mod errors;
pub mod field;
pub mod models;
pub mod sim;
pub mod supervisor;
pub mod tagmap;
pub mod telemetry;

use vstd::prelude::*;

verus! {

/// Milli-unit fixed-point scale used for all measurement values: a power of
/// 130.25 MW is stored as 130250.
pub const MILLI: i64 = 1000;

} // verus!
