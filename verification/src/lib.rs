//! Invocation planning and byte-range extraction for an external binary-diff
//! patcher.
//!
//! The library holds the decision logic of the patching subsystem: selecting
//! and tracking the materialized patcher payload, extracting a byte range out
//! of a combined diff file, deriving the temporary slice's file name, building
//! the patcher's argument list, classifying its output lines, and mapping the
//! process exit condition to an outcome code. The surrounding process and
//! filesystem work (spawning, stream draining, reads and writes) is left to
//! the embedding application, which drives it from the values these functions
//! return.

use vstd::prelude::*;

pub mod classify;
pub mod runner;
pub mod slicing;
pub mod store;

verus! {

/// Severity of a surfaced log record.
#[derive(Clone, Copy, PartialEq, Eq, Structural, Debug)]
pub enum LogLevel {
    Debug,
    Info,
    Warn,
}

/// Failure taxonomy of the patching subsystem.
///
/// `Io` covers payload writes, slice reads and writes, and cleanup deletes;
/// `Spawn` a process that could not be launched; `Wait` a process whose
/// termination could not be observed; `Decode` a non-text output line.
#[derive(Clone, Copy, PartialEq, Eq, Structural, Debug)]
pub enum PatchError {
    Io,
    Spawn,
    Wait,
    Decode,
}

/// Sentinel outcome for a child process that terminated without an exit code
/// (for example, killed by a signal).
pub const ABNORMAL_EXIT: i32 = -99;

/// What `exit_outcome` returns for each exit condition.
pub open spec fn exit_outcome_spec(code: Option<i32>) -> i32 {
    match code {
        Some(c) => c,
        None => ABNORMAL_EXIT,
    }
}

/// Maps the OS-level exit condition of a finished child process to the
/// caller-facing outcome: the numeric exit code when the process exited
/// normally, the abnormal-termination sentinel when no code is available.
pub fn exit_outcome(code: Option<i32>) -> (r: i32)
    ensures
        r == exit_outcome_spec(code),
{
    match code {
        Option::Some(c) => c,
        Option::None => ABNORMAL_EXIT,
    }
}

} // verus!
