//! Startup policy of the telemetry supervisor: decide once, at startup,
//! which acquisition strategy runs for the life of the process.
//!
//! Without a publishing credential the whole subsystem is disabled — nothing
//! is acquired when nothing can be sent. Field mode is chosen only when the
//! selector asks for it, an endpoint address is configured and the tag
//! mapping loaded: a missing endpoint is fatal there (and only there), while
//! a mapping failure falls back to simulation permanently, never retried per
//! tick.

use vstd::prelude::*;

verus! {

/// The acquisition strategy, decided once.
#[derive(Clone, Copy, Debug, PartialEq, Eq, Structural)]
pub enum RunMode {
    Simulated,
    Field,
}

/// What the supervisor does for the rest of the process.
#[derive(Clone, Copy, Debug, PartialEq, Eq, Structural)]
pub enum StartupPlan {
    /// No publishing credential: the subsystem never starts.
    Disabled,
    /// Field mode was requested but no endpoint address is configured: the
    /// supervisor logs the failure and the subsystem ends; the wrapping
    /// process continues.
    Failed,
    /// Run the chosen strategy until the process ends.
    Run(RunMode),
}

/// The mode the selector asks for: field acquisition only on the exact
/// selector `"OPCUA"`; anything else, or no selector, means simulation.
pub open spec fn spec_requested_mode(selector: Option<Seq<char>>) -> RunMode {
    match selector {
        Some(s) => if s == "OPCUA"@ {
            RunMode::Field
        } else {
            RunMode::Simulated
        },
        None => RunMode::Simulated,
    }
}

/// The plan the supervisor commits to, given what configuration was found.
/// The endpoint address is consulted only when field mode is requested: its
/// absence is fatal there and nowhere else. A missing mapping, by contrast,
/// only falls field mode back to simulation.
pub open spec fn spec_startup_plan(
    credential_present: bool,
    requested: RunMode,
    endpoint_present: bool,
    mapping_ok: bool,
) -> StartupPlan {
    if !credential_present {
        StartupPlan::Disabled
    } else if requested == RunMode::Field && !endpoint_present {
        StartupPlan::Failed
    } else if requested == RunMode::Field && mapping_ok {
        StartupPlan::Run(RunMode::Field)
    } else {
        StartupPlan::Run(RunMode::Simulated)
    }
}

/// Read the mode selector.
pub fn requested_mode(selector: &Option<String>) -> (r: RunMode)
    ensures
        r == spec_requested_mode(match *selector {
            Some(s) => Some(s@),
            None => None,
        }),
{
    match selector {
        Some(s) => {
            let field_selector = "OPCUA".to_owned();
            if s.eq(&field_selector) {
                RunMode::Field
            } else {
                RunMode::Simulated
            }
        },
        None => RunMode::Simulated,
    }
}

/// Commit to a startup plan: disabled without a credential; a requested
/// field mode without an endpoint address fails the subsystem; with an
/// endpoint but no usable mapping it falls back to simulation permanently;
/// simulation needs neither.
pub fn decide_startup(
    credential_present: bool,
    requested: RunMode,
    endpoint_present: bool,
    mapping_ok: bool,
) -> (r: StartupPlan)
    ensures
        r == spec_startup_plan(credential_present, requested, endpoint_present, mapping_ok),
        !credential_present ==> r == StartupPlan::Disabled,
        credential_present && requested == RunMode::Field && !endpoint_present ==> r
            == StartupPlan::Failed,
        credential_present && requested == RunMode::Field && endpoint_present && mapping_ok ==> r
            == StartupPlan::Run(RunMode::Field),
        credential_present && requested == RunMode::Field && endpoint_present && !mapping_ok ==> r
            == StartupPlan::Run(RunMode::Simulated),
        credential_present && requested == RunMode::Simulated ==> r == StartupPlan::Run(
            RunMode::Simulated,
        ),
{
    if !credential_present {
        StartupPlan::Disabled
    } else if matches!(requested, RunMode::Field) && !endpoint_present {
        StartupPlan::Failed
    } else if matches!(requested, RunMode::Field) && mapping_ok {
        StartupPlan::Run(RunMode::Field)
    } else {
        StartupPlan::Run(RunMode::Simulated)
    }
}

/// The endpoint address is fatal only in field mode: outside a requested
/// field mode the startup plan is the same whether or not an endpoint is
/// configured.
pub proof fn lemma_endpoint_fatal_only_in_field_mode(
    credential_present: bool,
    requested: RunMode,
    mapping_ok: bool,
)
    requires
        requested != RunMode::Field,
    ensures
        spec_startup_plan(credential_present, requested, false, mapping_ok) == spec_startup_plan(
            credential_present,
            requested,
            true,
            mapping_ok,
        ),
{
}

} // verus!
