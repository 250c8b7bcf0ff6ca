use runner::background::TaskError;
use runner::cores::AllocError;
use runner::error::{
    config_error_message, option_error_message, plan_error_message, task_error_message,
    topology_error_message, zone_error_message, PlanError,
};
use runner::kconfig::{parse_config_option, OptionError};
use runner::request::ConfigError;
use runner::topology::TopologyError;
use runner::zoneinfo::ZoneError;

#[test]
fn messages_of_a_refused_selection() {
    assert_eq!(
        config_error_message(&ConfigError::MalformedRatio),
        "--bwmfs or --numactl should be of the format <local weight>:<remote weight>"
    );
    assert_eq!(
        config_error_message(&ConfigError::RatioCountMismatch { workloads: 2, ratios: 3 }),
        "Must have exactly one BWMFS ratio for each workload (2)"
    );
    assert_eq!(
        config_error_message(&ConfigError::ConflictingStrategies),
        "Only one tiering strategy can be selected"
    );
    assert_eq!(
        config_error_message(&ConfigError::ConflictingThrottles),
        "Only one throttle can be selected"
    );
    assert_eq!(
        config_error_message(&ConfigError::MissingRequirement),
        "An option was given without the option that it requires"
    );
    assert_eq!(config_error_message(&ConfigError::OutOfRange), "A number is too large");
}

#[test]
fn messages_of_reports_that_cannot_be_read() {
    assert_eq!(zone_error_message(&ZoneError::NotFound), "Could not find remote memory start");
    assert_eq!(zone_error_message(&ZoneError::Malformed), "Expected integer");
    assert_eq!(topology_error_message(&TopologyError::Malformed), "Expected integer");
    assert_eq!(
        topology_error_message(&TopologyError::DuplicateThread),
        "Two hardware threads have the same id"
    );
}

#[test]
fn messages_of_kernel_options_that_are_refused() {
    for (opt, message) in [
        ("", "Empty string is not a valid option"),
        ("+", "Empty string is not a valid option"),
        ("CONFIG_X", "Kernel config option must be prefixed with + or -"),
        ("+CONFIG-X", "Invalid config name \"CONFIG-X\""),
        ("-\u{e9}t\u{e9}", "Invalid config name \"\u{e9}t\u{e9}\""),
    ] {
        let e = parse_config_option(opt).unwrap_err();
        assert_eq!(option_error_message(&e, opt), message, "for {:?}", opt);
    }
    assert_eq!(option_error_message(&OptionError::InvalidName, ""), "Invalid config name \"\"");
    assert_eq!(option_error_message(&OptionError::InvalidName, "+"), "Invalid config name \"\"");
}

#[test]
fn messages_of_a_run_that_cannot_be_planned() {
    assert_eq!(
        plan_error_message(&PlanError::Allocation(AllocError::Insufficient { workload: 12 })),
        "Not enough hardware threads for workload 12"
    );
    assert_eq!(
        plan_error_message(&PlanError::RatioCountMismatch { workloads: 1, ratios: 0 }),
        "Must have exactly one BWMFS ratio for each workload (1)"
    );
    assert_eq!(
        plan_error_message(&PlanError::MissingRemoteStart),
        "Could not find remote memory start"
    );
    assert_eq!(
        plan_error_message(&PlanError::MissingMonitorCore),
        "Could not find a hardware thread of the remote node"
    );
    assert_eq!(plan_error_message(&PlanError::OutOfRange), "A number is too large");
}

#[test]
fn messages_of_background_tasks() {
    assert_eq!(
        task_error_message(&TaskError::StartFailed { task: 0 }, ""),
        "Background task 0 could not be started"
    );
    assert_eq!(
        task_error_message(&TaskError::StartTimeout { task: 3 }, "meminfo"),
        "Background task 3 (meminfo) has produced nothing"
    );
    assert_eq!(
        task_error_message(&TaskError::StopFailed { task: 10 }, "pgmigrate"),
        "Background task 10 (pgmigrate) could not be stopped"
    );
}
