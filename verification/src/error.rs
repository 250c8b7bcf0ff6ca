//! Why a run cannot be planned, and what is said of each thing that can go wrong.

use vstd::prelude::*;
use vstd::string::StringExecFns;
use crate::background::TaskError;
use crate::cores::AllocError;
use crate::kconfig::OptionError;
use crate::request::ConfigError;
use crate::text::{decimal, push_decimal, to_chars};
use crate::topology::TopologyError;
use crate::zoneinfo::ZoneError;

verus! {

/// Why no plan was made. Each of these is found before any command is handed out.
#[derive(Debug, Clone, Copy, PartialEq, Eq)]
pub enum PlanError {
    /// The node has too few threads for the workloads.
    Allocation(AllocError),
    /// The per-mount strategy has not exactly one ratio for each workload.
    RatioCountMismatch { workloads: usize, ratios: usize },
    /// The strategy needs the address at which the remote memory begins, and it is not
    /// known.
    MissingRemoteStart,
    /// The latency tool needs a thread of the remote node, and there is none.
    MissingMonitorCore,
    /// A number is too large to work with.
    OutOfRange,
}

/// What is said where the ratios are not one for each of `workloads` workloads.
pub open spec fn ratio_count_text(workloads: usize) -> Seq<char> {
    "Must have exactly one BWMFS ratio for each workload ("@ + decimal(workloads as nat) + ")"@
}

/// Writes what is said where the ratios are not one for each workload.
fn ratio_count_message(workloads: usize) -> (r: String)
    ensures
        r@ == ratio_count_text(workloads),
{
    let mut r = String::from_str("Must have exactly one BWMFS ratio for each workload (");
    push_decimal(&mut r, workloads as u64);
    r.append(")");
    r
}

/// What is said of a selection that gives no configuration.
pub open spec fn config_error_text(e: ConfigError) -> Seq<char> {
    match e {
        ConfigError::ConflictingStrategies => "Only one tiering strategy can be selected"@,
        ConfigError::ConflictingThrottles => "Only one throttle can be selected"@,
        ConfigError::MissingRequirement => "An option was given without the option that it requires"@,
        ConfigError::MalformedRatio => "--bwmfs or --numactl should be of the format <local weight>:<remote weight>"@,
        ConfigError::OutOfRange => "A number is too large"@,
        ConfigError::RatioCountMismatch { workloads, .. } => ratio_count_text(workloads),
    }
}

/// Says why a selection gives no configuration.
pub fn config_error_message(e: &ConfigError) -> (r: String)
    ensures
        r@ == config_error_text(*e),
{
    match e {
        ConfigError::ConflictingStrategies => String::from_str(
            "Only one tiering strategy can be selected",
        ),
        ConfigError::ConflictingThrottles => String::from_str("Only one throttle can be selected"),
        ConfigError::MissingRequirement => String::from_str(
            "An option was given without the option that it requires",
        ),
        ConfigError::MalformedRatio => String::from_str(
            "--bwmfs or --numactl should be of the format <local weight>:<remote weight>",
        ),
        ConfigError::OutOfRange => String::from_str("A number is too large"),
        ConfigError::RatioCountMismatch { workloads, .. } => ratio_count_message(*workloads),
    }
}

/// What is said of a zone report that does not give the start of the remote memory.
pub open spec fn zone_error_text(e: ZoneError) -> Seq<char> {
    match e {
        ZoneError::NotFound => "Could not find remote memory start"@,
        ZoneError::Malformed => "Expected integer"@,
    }
}

/// Says why a zone report does not give the start of the remote memory.
pub fn zone_error_message(e: &ZoneError) -> (r: &'static str)
    ensures
        r@ == zone_error_text(*e),
{
    match e {
        ZoneError::NotFound => "Could not find remote memory start",
        ZoneError::Malformed => "Expected integer",
    }
}

/// What is said of a topology that cannot be used.
pub open spec fn topology_error_text(e: TopologyError) -> Seq<char> {
    match e {
        TopologyError::Malformed => "Expected integer"@,
        TopologyError::DuplicateThread => "Two hardware threads have the same id"@,
    }
}

/// Says why a topology cannot be used.
pub fn topology_error_message(e: &TopologyError) -> (r: &'static str)
    ensures
        r@ == topology_error_text(*e),
{
    match e {
        TopologyError::Malformed => "Expected integer",
        TopologyError::DuplicateThread => "Two hardware threads have the same id",
    }
}

/// What is said of the text `opt` that names no kernel configuration option.
pub open spec fn option_error_text(e: OptionError, opt: Seq<char>) -> Seq<char> {
    match e {
        OptionError::Empty => "Empty string is not a valid option"@,
        OptionError::MissingSign => "Kernel config option must be prefixed with + or -"@,
        OptionError::InvalidName => "Invalid config name \""@ + unsigned(opt) + "\""@,
    }
}

/// The text `opt` without its sign.
pub open spec fn unsigned(opt: Seq<char>) -> Seq<char> {
    if opt.len() == 0 {
        opt
    } else {
        opt.skip(1)
    }
}

/// Says why `opt` names no kernel configuration option.
pub fn option_error_message(e: &OptionError, opt: &str) -> (r: String)
    ensures
        r@ == option_error_text(*e, opt@),
{
    match e {
        OptionError::Empty => String::from_str("Empty string is not a valid option"),
        OptionError::MissingSign => String::from_str(
            "Kernel config option must be prefixed with + or -",
        ),
        OptionError::InvalidName => {
            let v = to_chars(opt);
            let mut r = String::from_str("Invalid config name \"");
            let ghost head = r@;
            let mut i: usize = 1;
            while i < v.len()
                invariant
                    1 <= i,
                    i <= v.len() || v.len() == 0,
                    r@ == head + (if v.len() == 0 {
                        v@
                    } else {
                        v@.subrange(1, i as int)
                    }),
                decreases v.len() - i,
            {
                r.push(v[i]);
                i = i + 1;
            }
            assert(v.len() > 0 ==> v@.subrange(1, v.len() as int) == v@.skip(1));
            r.append("\"");
            r
        },
    }
}

/// What is said of a run that cannot be planned.
pub open spec fn plan_error_text(e: PlanError) -> Seq<char> {
    match e {
        PlanError::Allocation(AllocError::Insufficient { workload }) =>
            "Not enough hardware threads for workload "@ + decimal(workload as nat),
        PlanError::RatioCountMismatch { workloads, .. } => ratio_count_text(workloads),
        PlanError::MissingRemoteStart => "Could not find remote memory start"@,
        PlanError::MissingMonitorCore => "Could not find a hardware thread of the remote node"@,
        PlanError::OutOfRange => "A number is too large"@,
    }
}

/// Says why a run cannot be planned.
pub fn plan_error_message(e: &PlanError) -> (r: String)
    ensures
        r@ == plan_error_text(*e),
{
    match e {
        PlanError::Allocation(AllocError::Insufficient { workload }) => {
            let mut r = String::from_str("Not enough hardware threads for workload ");
            push_decimal(&mut r, *workload as u64);
            r
        },
        PlanError::RatioCountMismatch { workloads, .. } => ratio_count_message(*workloads),
        PlanError::MissingRemoteStart => String::from_str("Could not find remote memory start"),
        PlanError::MissingMonitorCore => String::from_str(
            "Could not find a hardware thread of the remote node",
        ),
        PlanError::OutOfRange => String::from_str("A number is too large"),
    }
}

/// What is said of a background task that went wrong; `name` is what the task is
/// called.
pub open spec fn task_error_text(e: TaskError, name: Seq<char>) -> Seq<char> {
    match e {
        TaskError::StartFailed { task } => "Background task "@ + decimal(task as nat)
            + " could not be started"@,
        TaskError::StartTimeout { task } => "Background task "@ + decimal(task as nat) + " ("@ + name
            + ") has produced nothing"@,
        TaskError::StopFailed { task } => "Background task "@ + decimal(task as nat) + " ("@ + name
            + ") could not be stopped"@,
    }
}

/// Says what went wrong with a background task.
pub fn task_error_message(e: &TaskError, name: &str) -> (r: String)
    ensures
        r@ == task_error_text(*e, name@),
{
    let mut r = String::from_str("Background task ");
    match e {
        TaskError::StartFailed { task } => {
            push_decimal(&mut r, *task as u64);
            r.append(" could not be started");
        },
        TaskError::StartTimeout { task } => {
            push_decimal(&mut r, *task as u64);
            r.append(" (");
            r.append(name);
            r.append(") has produced nothing");
        },
        TaskError::StopFailed { task } => {
            push_decimal(&mut r, *task as u64);
            r.append(" (");
            r.append(name);
            r.append(") could not be stopped");
        },
    }
    r
}

} // verus!
