//! What the user is told when a run ends early.

use vstd::prelude::*;
use crate::driver::DriverState;

verus! {

/// The text that reports a file that could not be read as a picture: it
/// names the file and gives the cause.
pub open spec fn decode_failure_text(path: Seq<char>, cause: Seq<char>) -> Seq<char> {
    "Failed to open '"@ + path + "': "@ + cause
        + "\nPlease select a valid PNG/JPG/BMP file."@
}

/// The fixed text for a state in which the run has ended early and nothing
/// but the state is to be said; `None` for the other states. A file that
/// could not be read has a text of its own, [`decode_failure_text`].
pub open spec fn exit_text(state: DriverState) -> Option<&'static str> {
    match state {
        DriverState::NoMonitors => Some("No monitors found. Exiting program."),
        DriverState::NoFileSelected => Some("No image file selected. Exiting program."),
        DriverState::FitFailed => Some("Failed to fit the image to the monitors."),
        DriverState::ApplyFailed => Some("Failed to set wallpaper"),
        _ => None,
    }
}

/// Expands `format!` with a fixed template and two strings. Claimed of it:
/// the result is the template's text with the first `{}` replaced by `path`
/// and the second by `cause`, as `Display` for `str` writes a string
/// unchanged.
#[verifier::external_body]
fn format_decode_failure(path: &str, cause: &str) -> (msg: String)
    ensures
        msg@ == decode_failure_text(path@, cause@),
{
    format!("Failed to open '{}': {}\nPlease select a valid PNG/JPG/BMP file.", path, cause)
}

/// Writes the report for a file that could not be read as a picture. The
/// path stands in the report letter for letter.
pub fn decode_failure_message(path: &str, cause: &str) -> (msg: String)
    ensures
        msg@ == decode_failure_text(path@, cause@),
        exists|at: int|
            0 <= at && at + path@.len() <= msg@.len() && #[trigger] msg@.subrange(
                at,
                at + path@.len(),
            ) == path@,
{
    let msg = format_decode_failure(path, cause);
    proof {
        let at = "Failed to open '"@.len() as int;
        assert(msg@.subrange(at, at + path@.len()) =~= path@);
    }
    msg
}

/// Gives the fixed text for a state that ends the run early.
pub fn exit_message(state: DriverState) -> (msg: Option<&'static str>)
    ensures
        msg == exit_text(state),
{
    match state {
        DriverState::NoMonitors => Some("No monitors found. Exiting program."),
        DriverState::NoFileSelected => Some("No image file selected. Exiting program."),
        DriverState::FitFailed => Some("Failed to fit the image to the monitors."),
        DriverState::ApplyFailed => Some("Failed to set wallpaper"),
        _ => None,
    }
}

} // verus!
