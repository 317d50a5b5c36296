//! Waiting on a child process with a timeout, POSIX style.
//!
//! The operating system reports a child's termination asynchronously, through
//! one coalesced notification per event rather than per child, so bounding a
//! wait by a deadline takes a process-wide mechanism: a non-blocking reap
//! probe, a self-pipe written from the notification handler, a registry that
//! routes wakeups to the thread waiting on each particular child, and a
//! per-call loop that multiplexes over the global and per-waiter channels
//! until its child is resolved or its deadline passes.
//!
//! This crate verifies the decision-making core of that mechanism: the status
//! codec, the deadline arithmetic, the waiter registry, and the per-call wait
//! state machine. The thin layer of system calls that drives it (pipes,
//! `select`, `waitpid`, the signal handler) lives outside the verified
//! library.

use vstd::prelude::*;

pub mod deadline;
pub mod registry;
pub mod status;
pub mod wait;

pub use status::ExitStatus;

verus! {

/// The output of a finished process: its exit status together with whatever
/// it wrote to its standard output and standard error streams.
#[derive(PartialEq, Eq, Clone)]
pub struct Output {
    /// The status (exit code) of the process.
    pub status: ExitStatus,

    /// The data that the process wrote to stdout.
    pub stdout: Vec<u8>,

    /// The data that the process wrote to stderr.
    pub stderr: Vec<u8>,
}

} // verus!
