//! Memory-tiering experiments on one remote machine, planned before anything is asked
//! of the machine.
//!
//! A run is made from a configuration: its workloads, its tiering strategy and its
//! throttle. The usable hardware threads of the local node are put in order and dealt
//! out to the workloads in disjoint sets. Every phase of the run is then a list of
//! steps for a transport to carry out, and what happens between the steps — connecting
//! to a host that reboots, supervising background tasks, passing from phase to phase —
//! is a state machine that is told what happened and says what is to be done next.

pub mod text;
pub mod shell;
pub mod site;
pub mod error;
pub mod config;
pub mod request;
pub mod topology;
pub mod ordering;
pub mod cores;
pub mod zoneinfo;
pub mod kconfig;
pub mod prefix;
pub mod launch;
pub mod throttle;
pub mod strategy;
pub mod phases;
pub mod background;
pub mod session;
pub mod orchestrator;
pub mod plan;
pub mod setup;
