use vstd::prelude::*;

verus! {

/// The fixed register map of the sensor: every mailbox the driver talks
/// to, with its byte offset given by [`RegisterAddress::spec_byte`].
#[derive(Copy, Clone, Debug, Eq, PartialEq, Structural)]
pub enum RegisterAddress {
    /// 0x00, 1 byte, read.
    Status,
    /// 0x01, 1 byte, read/write: measurement drive mode and interrupts.
    MeasMode,
    /// 0x02, 6 bytes, read: algorithm result data.
    AlgResultData,
    /// 0x03, 2 bytes, read: raw sensor data.
    RawData,
    /// 0x05, 4 bytes, write: environment compensation data.
    EnvData,
    /// 0x06, 4 bytes, read.
    Ntc,
    /// 0x10, 5 bytes, write: interrupt thresholds.
    Thresholds,
    /// 0x11, 2 bytes, read/write: algorithm baseline.
    Baseline,
    /// 0x20, 1 byte, read: hardware identifier.
    HwId,
    /// 0x21, 1 byte, read: hardware version.
    HwVersion,
    /// 0x23, 2 bytes, read: boot firmware version.
    FwBootVersion,
    /// 0x24, 2 bytes, read: application firmware version.
    FwAppVersion,
    /// 0xE0, 1 byte, read: error-id.
    ErrorId,
    /// 0xF4, zero-length write trigger: transition from boot mode to
    /// application mode.
    AppStart,
    /// 0xFF, zero-length write trigger: software reset.
    SwReset,
}

impl RegisterAddress {
    /// The stable byte offset of the register on the bus.
    pub open spec fn spec_byte(self) -> u8 {
        match self {
            RegisterAddress::Status => 0x00,
            RegisterAddress::MeasMode => 0x01,
            RegisterAddress::AlgResultData => 0x02,
            RegisterAddress::RawData => 0x03,
            RegisterAddress::EnvData => 0x05,
            RegisterAddress::Ntc => 0x06,
            RegisterAddress::Thresholds => 0x10,
            RegisterAddress::Baseline => 0x11,
            RegisterAddress::HwId => 0x20,
            RegisterAddress::HwVersion => 0x21,
            RegisterAddress::FwBootVersion => 0x23,
            RegisterAddress::FwAppVersion => 0x24,
            RegisterAddress::ErrorId => 0xE0,
            RegisterAddress::AppStart => 0xF4,
            RegisterAddress::SwReset => 0xFF,
        }
    }

    /// The stable byte offset of the register on the bus.
    pub fn to_byte(self) -> (r: u8)
        ensures
            r == self.spec_byte(),
    {
        match self {
            RegisterAddress::Status => 0x00,
            RegisterAddress::MeasMode => 0x01,
            RegisterAddress::AlgResultData => 0x02,
            RegisterAddress::RawData => 0x03,
            RegisterAddress::EnvData => 0x05,
            RegisterAddress::Ntc => 0x06,
            RegisterAddress::Thresholds => 0x10,
            RegisterAddress::Baseline => 0x11,
            RegisterAddress::HwId => 0x20,
            RegisterAddress::HwVersion => 0x21,
            RegisterAddress::FwBootVersion => 0x23,
            RegisterAddress::FwAppVersion => 0x24,
            RegisterAddress::ErrorId => 0xE0,
            RegisterAddress::AppStart => 0xF4,
            RegisterAddress::SwReset => 0xFF,
        }
    }
}

} // verus!
