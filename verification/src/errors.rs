//! Error taxonomy of the telemetry subsystem and its propagation policy.
//!
//! Configuration, connection, point and publish failures are recovered where
//! they arise and never escape to the rest of the application. Storage
//! failures of the audit log are the one category that must surface to the
//! caller: silently skipping an audit entry while the caller believes it was
//! written would defeat the chain.

use vstd::prelude::*;

verus! {

/// The failure categories of the subsystem.
#[derive(Clone, Copy, Debug, PartialEq, Eq, Structural)]
pub enum ErrorKind {
    /// Missing or invalid mapping or credentials.
    Configuration,
    /// Field endpoint unreachable, or the session dropped.
    Connection,
    /// A single tag failed to register or its value could not be coerced.
    Point,
    /// A broker send failed.
    Publish,
    /// The audit store could not be read or written.
    Storage,
}

/// How each category is handled.
#[derive(Clone, Copy, Debug, PartialEq, Eq, Structural)]
pub enum Recovery {
    /// Fall back to simulation, or disable the subsystem; never crash.
    FallBackOrDisable,
    /// Retry the whole session after the fixed delay.
    RetrySession,
    /// Log and skip that tag; every other tag proceeds.
    SkipTag,
    /// Log and drop the sample; no retry, no durability.
    DropSample,
    /// Surface the failure to the caller.
    Propagate,
}

/// The recovery each category receives.
pub open spec fn spec_recovery_for(kind: ErrorKind) -> Recovery {
    match kind {
        ErrorKind::Configuration => Recovery::FallBackOrDisable,
        ErrorKind::Connection => Recovery::RetrySession,
        ErrorKind::Point => Recovery::SkipTag,
        ErrorKind::Publish => Recovery::DropSample,
        ErrorKind::Storage => Recovery::Propagate,
    }
}

/// Map a failure category to its recovery.
pub fn recovery_for(kind: ErrorKind) -> (r: Recovery)
    ensures
        r == spec_recovery_for(kind),
{
    match kind {
        ErrorKind::Configuration => Recovery::FallBackOrDisable,
        ErrorKind::Connection => Recovery::RetrySession,
        ErrorKind::Point => Recovery::SkipTag,
        ErrorKind::Publish => Recovery::DropSample,
        ErrorKind::Storage => Recovery::Propagate,
    }
}

/// Whether a failure of this category reaches the caller: storage failures
/// do, every other category is recovered locally.
pub fn propagates_to_caller(kind: ErrorKind) -> (r: bool)
    ensures
        r == (kind == ErrorKind::Storage),
        r == (spec_recovery_for(kind) == Recovery::Propagate),
{
    matches!(kind, ErrorKind::Storage)
}

} // verus!
