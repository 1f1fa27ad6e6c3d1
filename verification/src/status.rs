use vstd::prelude::*;

use crate::error::Ccs811Error;
use crate::Ccs811Result;

verus! {

/// Status register bit: the device detected an error; the remaining
/// status bits are unreliable while it is set.
pub const ERROR: u8 = 0b0000_0001;

/// Status register bit: a new measurement sample is ready to be read.
pub const DATA_READY: u8 = 0b0000_1000;

/// Status register bit: a valid application firmware image is loaded.
pub const APP_VALID: u8 = 0b0001_0000;

/// Status register bit: the firmware is running in application mode
/// (as opposed to boot mode).
pub const FW_MODE: u8 = 0b1000_0000;

/// Exactly what decoding the raw status byte `raw` yields: success with
/// the byte kept when the error bit is clear, and otherwise a failure
/// with the full byte attached.
pub open spec fn spec_status_decode(r: Ccs811Result<Status>, raw: u8) -> bool {
    if raw & ERROR == 0 {
        r matches Ok(s) && s.spec_raw() == raw
    } else {
        r matches Err(e) && e matches Ccs811Error::ErrorStatus(s) && s.spec_raw() == raw
    }
}

/// One read of the status register, kept as the raw byte.
///
/// [`Status::new`] refuses a byte whose error bit is set; a `Status`
/// inside [`Ccs811Error::ErrorStatus`] still gives access to the raw
/// bits through [`Status::raw`] and the bit queries.
#[derive(Clone, Debug)]
pub struct Status(u8);

impl Status {
    /// The raw byte as read from the status register.
    pub closed spec fn spec_raw(&self) -> u8 {
        self.0
    }

    pub open spec fn spec_is_error(&self) -> bool {
        self.spec_raw() & ERROR != 0
    }

    pub open spec fn spec_is_ready(&self) -> bool {
        self.spec_raw() & DATA_READY != 0
    }

    pub open spec fn spec_is_value(&self) -> bool {
        self.spec_raw() & APP_VALID != 0
    }

    pub open spec fn spec_is_app_mode(&self) -> bool {
        self.spec_raw() & FW_MODE != 0
    }

    /// Keep a status byte regardless of its error bit, for callers that
    /// need to inspect the raw bits of a degraded device.
    pub fn from_raw(raw: u8) -> (s: Status)
        ensures
            s.spec_raw() == raw,
    {
        Status(raw)
    }

    /// Decode a status byte.  Succeeds exactly when the error bit is
    /// clear; otherwise fails with the full raw byte attached, since the
    /// other status fields are unreliable once the error bit is set.
    pub fn new(raw: u8) -> (r: Ccs811Result<Status>)
        ensures
            spec_status_decode(r, raw),
            raw & ERROR == 0 ==> (r matches Ok(s) && s.spec_raw() == raw),
            raw & ERROR != 0 ==> (r matches Err(e) && e matches Ccs811Error::ErrorStatus(s)
                && s.spec_raw() == raw),
    {
        let status = Status(raw);

        if status.is_error() {
            Err(Ccs811Error::ErrorStatus(status))
        } else {
            Ok(status)
        }
    }

    /// The raw status byte.
    pub fn raw(&self) -> (r: u8)
        ensures
            r == self.spec_raw(),
    {
        self.0
    }

    /// Whether a valid application firmware image is loaded.
    pub fn is_value(&self) -> (r: bool)
        ensures
            r == self.spec_is_value(),
    {
        (self.0 & APP_VALID) != 0
    }

    /// Whether a new measurement sample is ready.
    pub fn is_ready(&self) -> (r: bool)
        ensures
            r == self.spec_is_ready(),
    {
        (self.0 & DATA_READY) != 0
    }

    /// Whether the error bit is set.
    pub fn is_error(&self) -> (r: bool)
        ensures
            r == self.spec_is_error(),
    {
        (self.0 & ERROR) != 0
    }

    /// Whether the firmware is running in application mode.
    pub fn is_app_mode(&self) -> (r: bool)
        ensures
            r == self.spec_is_app_mode(),
    {
        (self.0 & FW_MODE) != 0
    }
}

} // verus!
