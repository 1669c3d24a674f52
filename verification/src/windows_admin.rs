//! What the outcome of an elevated launch means.

use vstd::prelude::*;
use crate::text::{append_str, decimal_spec, decimal_string, to_owned_string};

verus! {

/// Why an elevated process was not started.
#[derive(Debug, Clone, Copy, PartialEq, Eq, Structural)]
pub enum ElevationError {
    /// `ShellExecuteW` returned this value, which is 32 or less.
    ShellExecuteFailed(i64),
    /// Elevation of `setup.exe` needs Windows.
    SetupNeedsWindows,
    /// Elevation of any process needs Windows.
    ElevationNeedsWindows,
}

impl ElevationError {
    pub fn message(&self) -> (res: String)
        ensures
            res@ == match *self {
                ElevationError::ShellExecuteFailed(code) => "Failed to start elevated process. ShellExecuteW returned "@
                    + decimal_spec(code as int),
                ElevationError::SetupNeedsWindows => "Launching setup.exe with UAC elevation is only supported on Windows."@,
                ElevationError::ElevationNeedsWindows => "Launching elevated processes is only supported on Windows."@,
            },
    {
        match *self {
            ElevationError::ShellExecuteFailed(code) => {
                let mut s = to_owned_string("Failed to start elevated process. ShellExecuteW returned ");
                let n = decimal_string(code);
                append_str(&mut s, n.as_str());
                s
            },
            ElevationError::SetupNeedsWindows => to_owned_string(
                "Launching setup.exe with UAC elevation is only supported on Windows.",
            ),
            ElevationError::ElevationNeedsWindows => to_owned_string(
                "Launching elevated processes is only supported on Windows.",
            ),
        }
    }
}

/// The meaning of the value that `ShellExecuteW` returned: above 32 is
/// success, anything else a failure.
pub fn shell_execute_outcome(result_code: i64) -> (res: Result<(), ElevationError>)
    ensures
        res is Ok <==> result_code > 32,
        res is Err ==> res == Err::<(), ElevationError>(ElevationError::ShellExecuteFailed(result_code)),
{
    if result_code <= 32 {
        Err(ElevationError::ShellExecuteFailed(result_code))
    } else {
        Ok(())
    }
}

} // verus!
