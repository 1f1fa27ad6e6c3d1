use vstd::prelude::*;

use crate::error_id::DeviceError;
use crate::status::Status;

verus! {

/// Failure taxonomy of the driver, reported as a tagged choice per
/// failing call.
#[derive(Clone, Debug)]
pub enum Ccs811Error {
    /// Causes decoded from the error-id register, the ones actually
    /// present in bit order; only meaningful after a failed status or
    /// result read.
    DeviseError(Vec<DeviceError>),
    /// The bus transport failed (no acknowledgment, bad ioctl, block
    /// too long), with a diagnostic string.
    I2cError(String),
    /// The status byte had its error bit set: the device is responsive
    /// but degraded.  The full raw byte stays attached.
    ErrorStatus(Status),
}

} // verus!
