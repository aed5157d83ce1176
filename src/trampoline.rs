use vstd::prelude::*;
use vstd::string::StrSliceExecFns;
use vstd::string::StringExecFns;

use crate::config::{is_router_format, Container};

verus! {

/// The signal that releases a container from the start barrier (`SIGHUP`
/// on Linux).
pub const START_SIGNAL: isize = 1;

/// The signal that cancels a container at the start barrier (`SIGINT` on
/// Linux).
pub const CANCEL_SIGNAL: isize = 2;

/// The exit code of a container that was canceled at the barrier.
pub const EXIT_CANCELED: isize = 1;

/// The exit code of a container whose barrier wait failed, or that received
/// a signal it does not expect there: the negated `ENOTRECOVERABLE` of Linux.
pub const EXIT_UNEXPECTED: isize = -131;

/// How long a bounded workload runs, in seconds.
pub const WORK_SECONDS: u32 = 2;

/// How long a router runs before its bounded part, in seconds.
pub const ROUTER_SECONDS: u32 = 60;

/// What a new process does once the barrier wait has returned `received`:
/// a signal number, or a negated error number where the wait itself failed.
#[derive(Debug, Clone, Copy, PartialEq, Eq, Structural)]
pub enum BarrierOutcome {
    /// Run the workload.
    Proceed,
    /// End at once with this exit code.
    Exit(isize),
}

/// The decision at the barrier.
pub open spec fn barrier_decision(received: isize) -> BarrierOutcome {
    if received == CANCEL_SIGNAL {
        BarrierOutcome::Exit(EXIT_CANCELED)
    } else if received != START_SIGNAL {
        BarrierOutcome::Exit(EXIT_UNEXPECTED)
    } else {
        BarrierOutcome::Proceed
    }
}

/// Decides what the new process does after the barrier: the cancel signal
/// ends it with `EXIT_CANCELED`; a failed wait, and any signal but the start
/// signal, end it with `EXIT_UNEXPECTED`; the start signal lets the workload
/// run.
pub fn barrier_outcome(received: isize) -> (r: BarrierOutcome)
    ensures
        r == barrier_decision(received),
{
    if received == CANCEL_SIGNAL {
        BarrierOutcome::Exit(EXIT_CANCELED)
    } else if received != START_SIGNAL {
        BarrierOutcome::Exit(EXIT_UNEXPECTED)
    } else {
        BarrierOutcome::Proceed
    }
}

/// The text that a container writes into its capture file.
pub fn capture_text(name: &str) -> (r: String)
    ensures
        r@ == "testing for "@ + name@,
        r@.len() > 0,
{
    proof {
        reveal_strlit("testing for ");
    }
    String::from_str("testing for ").concat(name)
}

/// How long the workload runs, in seconds: a router first runs a long
/// stretch that stands for its open-ended work, then the bounded part that
/// every container runs.
pub fn workload_seconds(config: &Container) -> (r: u32)
    ensures
        r == if is_router_format(config.output_type) {
            ROUTER_SECONDS + WORK_SECONDS
        } else {
            WORK_SECONDS as int
        },
{
    if config.is_router() {
        ROUTER_SECONDS + WORK_SECONDS
    } else {
        WORK_SECONDS
    }
}

} // verus!
