//! What applying a background decides: how the path is handed to the
//! system, and how the answers of the system are read.

use vstd::prelude::*;

verus! {

/// Why the picture could not be set as the background.
#[derive(Clone, Copy, Debug, PartialEq, Eq, Structural)]
pub enum ApplyError {
    /// The picture could not be written to its file.
    Serialize,
    /// A display setting of the user could not be written.
    Settings,
    /// The system did not accept the new background.
    Rejected,
}

/// The steps of applying, in their order.
#[derive(Clone, Copy, Debug, PartialEq, Eq, Structural)]
pub enum ApplyStep {
    /// Writing the picture to its file.
    WriteFile,
    /// Writing the display settings of the user.
    WriteSettings,
    /// Asking the system to show the file.
    SetBackground,
}

/// The error that the failure of a step stands for.
pub open spec fn error_of(step: ApplyStep) -> ApplyError {
    match step {
        ApplyStep::WriteFile => ApplyError::Serialize,
        ApplyStep::WriteSettings => ApplyError::Settings,
        ApplyStep::SetBackground => ApplyError::Rejected,
    }
}

/// Reads the outcome of a step: a step that did not succeed is the error of
/// its kind, never a silent success.
pub fn step_result(step: ApplyStep, succeeded: bool) -> (r: Result<(), ApplyError>)
    ensures
        succeeded ==> r is Ok,
        !succeeded ==> r == Err::<(), ApplyError>(error_of(step)),
{
    if succeeded {
        Ok(())
    } else {
        match step {
            ApplyStep::WriteFile => Err(ApplyError::Serialize),
            ApplyStep::WriteSettings => Err(ApplyError::Settings),
            ApplyStep::SetBackground => Err(ApplyError::Rejected),
        }
    }
}

/// Reads the status that the system returns when asked to set the
/// background: zero means that it refused.
pub fn check_status(status: i32) -> (r: Result<(), ApplyError>)
    ensures
        status != 0 ==> r is Ok,
        status == 0 ==> r == Err::<(), ApplyError>(ApplyError::Rejected),
{
    step_result(ApplyStep::SetBackground, status != 0)
}

/// Ends a string of 16-bit units with the zero unit that the system expects.
pub fn nul_terminated(units: Vec<u16>) -> (wide: Vec<u16>)
    ensures
        wide@ == units@.push(0),
{
    let mut wide = units;
    wide.push(0);
    wide
}

} // verus!
