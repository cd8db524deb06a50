use plant_telemetry::errors::{propagates_to_caller, recovery_for, ErrorKind, Recovery};
use plant_telemetry::supervisor::{decide_startup, requested_mode, RunMode, StartupPlan};

#[test]
fn the_exact_selector_requests_field_mode() {
    assert_eq!(requested_mode(&Some("OPCUA".to_string())), RunMode::Field);
}

#[test]
fn any_other_selector_means_simulation() {
    assert_eq!(requested_mode(&Some("DEMO".to_string())), RunMode::Simulated);
    assert_eq!(requested_mode(&Some("opcua".to_string())), RunMode::Simulated);
    assert_eq!(requested_mode(&Some("".to_string())), RunMode::Simulated);
    assert_eq!(requested_mode(&None), RunMode::Simulated);
}

#[test]
fn a_missing_credential_disables_the_subsystem() {
    assert_eq!(decide_startup(false, RunMode::Field, true, true), StartupPlan::Disabled);
    assert_eq!(decide_startup(false, RunMode::Simulated, true, true), StartupPlan::Disabled);
    assert_eq!(decide_startup(false, RunMode::Field, false, false), StartupPlan::Disabled);
}

#[test]
fn field_mode_runs_with_an_endpoint_and_a_loaded_mapping() {
    assert_eq!(decide_startup(true, RunMode::Field, true, true), StartupPlan::Run(RunMode::Field));
}

#[test]
fn field_mode_without_an_endpoint_fails_the_subsystem() {
    assert_eq!(decide_startup(true, RunMode::Field, false, true), StartupPlan::Failed);
    assert_eq!(decide_startup(true, RunMode::Field, false, false), StartupPlan::Failed);
}

#[test]
fn a_mapping_failure_falls_back_to_simulation() {
    assert_eq!(decide_startup(true, RunMode::Field, true, false), StartupPlan::Run(
        RunMode::Simulated,
    ));
}

#[test]
fn simulation_mode_needs_neither_endpoint_nor_mapping() {
    assert_eq!(decide_startup(true, RunMode::Simulated, false, false), StartupPlan::Run(
        RunMode::Simulated,
    ));
    assert_eq!(decide_startup(true, RunMode::Simulated, true, true), StartupPlan::Run(
        RunMode::Simulated,
    ));
}

#[test]
fn each_error_category_has_its_documented_recovery() {
    assert_eq!(recovery_for(ErrorKind::Configuration), Recovery::FallBackOrDisable);
    assert_eq!(recovery_for(ErrorKind::Connection), Recovery::RetrySession);
    assert_eq!(recovery_for(ErrorKind::Point), Recovery::SkipTag);
    assert_eq!(recovery_for(ErrorKind::Publish), Recovery::DropSample);
    assert_eq!(recovery_for(ErrorKind::Storage), Recovery::Propagate);
}

#[test]
fn only_storage_failures_reach_the_caller() {
    assert!(propagates_to_caller(ErrorKind::Storage));
    assert!(!propagates_to_caller(ErrorKind::Configuration));
    assert!(!propagates_to_caller(ErrorKind::Connection));
    assert!(!propagates_to_caller(ErrorKind::Point));
    assert!(!propagates_to_caller(ErrorKind::Publish));
}
