//! What the operating system reported, and what it means to the caller.

use vstd::prelude::*;

verus! {

/// The shell's open call succeeded when the value it returned is above this.
pub const SHELL_SUCCESS_THRESHOLD: isize = 32;

/// Why a process could not be started.
#[derive(Clone, Copy, Debug, PartialEq, Eq, Structural)]
pub enum SpawnFailure {
    /// No executable of that name was found.
    NotFound,
    /// The operating system refused to run it.
    PermissionDenied,
    /// Any other reason.
    Other,
}

/// What the operating system reported for one dispatch.
#[derive(Clone, Copy, Debug, PartialEq, Eq, Structural)]
pub enum Outcome {
    /// The shell's open call returned `instance`; `last_error` is the calling
    /// thread's last system error code, read right after the call.
    ShellReturned { instance: isize, last_error: u32 },
    /// The process was started. Whatever it does later is not looked at.
    Started,
    /// The process could not be started.
    NotStarted { reason: SpawnFailure, os_code: Option<i32> },
}

/// The platform's own account of a failed launch.
#[derive(Clone, Copy, Debug, PartialEq, Eq, Structural)]
pub enum Cause {
    /// The shell's open call returned `instance`, which is not above the
    /// success threshold; `system_error` is the system error code it left.
    Shell { instance: isize, system_error: u32 },
    /// Starting the process failed.
    Spawn { reason: SpawnFailure, os_code: Option<i32> },
}

/// The one kind of error: the operating system could not start the launch.
#[derive(Clone, Copy, Debug, PartialEq, Eq, Structural)]
pub enum OpenError {
    LaunchFailure(Cause),
}

/// Turns what the operating system reported into the caller's result.
pub fn conclude(o: Outcome) -> (r: Result<(), OpenError>)
    ensures
        r is Ok <==> (o is Started || (o is ShellReturned && o->instance
            > SHELL_SUCCESS_THRESHOLD)),
        o matches Outcome::ShellReturned { instance, last_error } ==> (instance
            <= SHELL_SUCCESS_THRESHOLD ==> r == Err::<(), OpenError>(
            OpenError::LaunchFailure(Cause::Shell { instance, system_error: last_error }),
        )),
        o matches Outcome::NotStarted { reason, os_code } ==> r == Err::<(), OpenError>(
            OpenError::LaunchFailure(Cause::Spawn { reason, os_code }),
        ),
{
    match o {
        Outcome::ShellReturned { instance, last_error } => {
            if instance > SHELL_SUCCESS_THRESHOLD {
                Ok(())
            } else {
                Err(OpenError::LaunchFailure(Cause::Shell { instance, system_error: last_error }))
            }
        },
        Outcome::Started => Ok(()),
        Outcome::NotStarted { reason, os_code } => Err(
            OpenError::LaunchFailure(Cause::Spawn { reason, os_code }),
        ),
    }
}

} // verus!
