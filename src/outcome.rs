//! What an external action did, and how the leaf components read it.

use vstd::prelude::*;

verus! {

/// What happened when the caller carried out an action.
#[derive(Clone, Copy, Debug, PartialEq, Eq, Structural)]
pub enum Outcome {
    /// The action could not be carried out at all: the program was missing,
    /// the file could not be written, the bus could not be reached, the
    /// process could not be created.
    NotExecuted,
    /// The action was carried out; `success` tells whether it reported success
    /// (a zero exit status, a path that exists, a connection that was made).
    Exited { success: bool },
}

/// The action was carried out and reported success.
pub open spec fn succeeded(o: Outcome) -> bool {
    o matches Outcome::Exited { success } && success
}

impl Outcome {
    /// Whether the action was carried out and reported success.
    pub fn succeeded(&self) -> (r: bool)
        ensures
            r == succeeded(*self),
    {
        match self {
            Outcome::NotExecuted => false,
            Outcome::Exited { success } => *success,
        }
    }
}

/// Reads the outcome of the daemon's status query. A query that could not be
/// run, or that exited non-zero, counts as "not active": absence of evidence of
/// activity is treated as inactivity, so that a start is attempted.
pub fn is_active(status: Outcome) -> (r: bool)
    ensures
        r == succeeded(status),
        status is NotExecuted ==> !r,
{
    status.succeeded()
}

/// The start request could not be issued.
#[derive(Clone, Copy, Debug, PartialEq, Eq, Structural)]
pub enum StartError {
    /// The start command could not be invoked at all.
    ExecutionFailed,
}

/// Reads the outcome of the privileged start request. Only a command that could
/// not be invoked is an error; otherwise the result tells whether the command
/// exited with success, and a non-zero exit is advisory.
pub fn start_result(o: Outcome) -> (r: Result<bool, StartError>)
    ensures
        o is NotExecuted <==> r is Err,
        o matches Outcome::Exited { success } ==> r == Ok::<bool, StartError>(success),
{
    match o {
        Outcome::NotExecuted => Err(StartError::ExecutionFailed),
        Outcome::Exited { success } => Ok(success),
    }
}

/// The configuration fragment was not written.
#[derive(Clone, Copy, Debug, PartialEq, Eq, Structural)]
pub enum WriteError {
    /// Permission was denied or the write failed.
    NotWritten,
}

/// Reads the outcome of the configuration write: `Ok` exactly when the
/// fragment was written. The error is advisory only.
pub fn patch_result(o: Outcome) -> (r: Result<(), WriteError>)
    ensures
        r is Ok <==> succeeded(o),
{
    if o.succeeded() {
        Ok(())
    } else {
        Err(WriteError::NotWritten)
    }
}

} // verus!
