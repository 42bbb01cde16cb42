//! Decisions taken on the command line once its options have been parsed.

use vstd::prelude::*;

verus! {

/// How much the bridge logs.
#[derive(Debug, Clone, Copy, PartialEq, Eq, Structural)]
pub enum LogLevel {
    Info,
    Debug,
    Trace,
}

/// The log level for `-d` given `debug_count` times: info by default, debug
/// once, trace for more.
pub fn log_level_for(debug_count: usize) -> (r: LogLevel)
    ensures
        r == (if debug_count == 0 {
            LogLevel::Info
        } else if debug_count == 1 {
            LogLevel::Debug
        } else {
            LogLevel::Trace
        }),
{
    if debug_count == 0 {
        LogLevel::Info
    } else if debug_count == 1 {
        LogLevel::Debug
    } else {
        LogLevel::Trace
    }
}

/// What the command line asks for.
#[derive(Debug, PartialEq, Eq)]
pub enum ArgsOutcome {
    /// Print the usage and exit.
    ShowUsage,
    /// Report that no configuration file was named, print the usage and exit.
    MissingConfig,
    /// Run with this configuration file.
    Run(String),
}

/// Help wins; else the first free argument names the configuration file.
pub fn arguments_outcome(help: bool, free: &Vec<String>) -> (r: ArgsOutcome)
    ensures
        help ==> r == ArgsOutcome::ShowUsage,
        !help && free@.len() == 0 ==> r == ArgsOutcome::MissingConfig,
        !help && free@.len() > 0 ==> r == ArgsOutcome::Run(free@[0]),
{
    if help {
        ArgsOutcome::ShowUsage
    } else if free.len() == 0 {
        ArgsOutcome::MissingConfig
    } else {
        ArgsOutcome::Run(free[0].clone())
    }
}

} // verus!
