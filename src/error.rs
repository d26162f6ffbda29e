//! Errors of disk enumeration.

use vstd::prelude::*;

verus! {

/// Why an enumeration failed. A device that does not exist is no error: it
/// ends the enumeration.
#[derive(Clone, Copy, Debug, PartialEq, Eq, Structural)]
pub enum ListError {
    /// The device exists but could not be opened; carries the OS error code.
    Access(i32),
    /// The device-control request failed; carries the OS error code.
    Io(i32),
    /// The response is internally inconsistent: the records that its header
    /// declares overrun it, or the device reported more valid bytes than the
    /// buffer holds.
    Decode,
}

} // verus!
