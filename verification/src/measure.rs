use vstd::prelude::*;

verus! {

/// The sensor's autonomous measurement cadence, packed into bits [6:4]
/// of the mode byte (raw-only mode also sets bit 3).
#[derive(Copy, Clone, Debug, Eq, PartialEq, Structural)]
pub enum MeasureDriveMode {
    /// No measurements.
    Idle,
    /// One measurement every second.
    EverySecond,
    /// One measurement every ten seconds.
    EveryTenSeconds,
    /// One measurement every minute.
    EveryMinute,
    /// Raw data only: no algorithm result data.
    Raw,
}

impl MeasureDriveMode {
    /// The drive-mode bit group of the mode byte.
    pub open spec fn spec_bits(self) -> u8 {
        match self {
            MeasureDriveMode::Idle => 0b0000_0000,
            MeasureDriveMode::EverySecond => 0b0001_0000,
            MeasureDriveMode::EveryTenSeconds => 0b0010_0000,
            MeasureDriveMode::EveryMinute => 0b0011_0000,
            MeasureDriveMode::Raw => 0b0100_1000,
        }
    }

    /// The drive-mode bit group of the mode byte.
    pub fn bits(self) -> (r: u8)
        ensures
            r == self.spec_bits(),
    {
        match self {
            MeasureDriveMode::Idle => 0b0000_0000,
            MeasureDriveMode::EverySecond => 0b0001_0000,
            MeasureDriveMode::EveryTenSeconds => 0b0010_0000,
            MeasureDriveMode::EveryMinute => 0b0011_0000,
            MeasureDriveMode::Raw => 0b0100_1000,
        }
    }
}

/// Whether the data-ready interrupt is asserted on each new sample
/// (bit 3 of the mode byte).
#[derive(Copy, Clone, Debug, Eq, PartialEq, Structural)]
pub enum MeasureInterrupt {
    Enable,
    Disable,
}

impl MeasureInterrupt {
    /// The data-ready-interrupt bit of the mode byte.
    pub open spec fn spec_bits(self) -> u8 {
        match self {
            MeasureInterrupt::Enable => 0b0000_1000,
            MeasureInterrupt::Disable => 0b0000_0000,
        }
    }

    /// The data-ready-interrupt bit of the mode byte.
    pub fn bits(self) -> (r: u8)
        ensures
            r == self.spec_bits(),
    {
        match self {
            MeasureInterrupt::Enable => 0b0000_1000,
            MeasureInterrupt::Disable => 0b0000_0000,
        }
    }
}

/// Whether the interrupt fires only on threshold crossings (bit 2 of
/// the mode byte).
#[derive(Copy, Clone, Debug, Eq, PartialEq, Structural)]
pub enum MeasureThresh {
    Enable,
    Disable,
}

impl MeasureThresh {
    /// The threshold-interrupt bit of the mode byte.
    pub open spec fn spec_bits(self) -> u8 {
        match self {
            MeasureThresh::Enable => 0b0000_0100,
            MeasureThresh::Disable => 0b0000_0000,
        }
    }

    /// The threshold-interrupt bit of the mode byte.
    pub fn bits(self) -> (r: u8)
        ensures
            r == self.spec_bits(),
    {
        match self {
            MeasureThresh::Enable => 0b0000_0100,
            MeasureThresh::Disable => 0b0000_0000,
        }
    }
}

/// The packed mode byte: the bitwise OR of the three bit groups.  (The
/// groups overlap in one place: raw-only mode already sets the
/// data-ready-interrupt bit.)
pub open spec fn spec_meas_mode_byte(
    mode: MeasureDriveMode,
    interrupt: MeasureInterrupt,
    thresh: MeasureThresh,
) -> u8 {
    mode.spec_bits() | interrupt.spec_bits() | thresh.spec_bits()
}

/// Law: the layout of the packed mode byte.  Bits [6:4] carry exactly
/// the drive mode's group; bit 3 is set exactly for the data-ready
/// interrupt or for raw-only mode, which carries it itself; bit 2 is
/// set exactly for the threshold interrupt; bits 7, 1 and 0 stay clear.
pub proof fn lemma_meas_mode_byte_layout(
    mode: MeasureDriveMode,
    interrupt: MeasureInterrupt,
    thresh: MeasureThresh,
)
    ensures
        spec_meas_mode_byte(mode, interrupt, thresh) & 0b0111_0000 == mode.spec_bits()
            & 0b0111_0000,
        (spec_meas_mode_byte(mode, interrupt, thresh) & 0b0000_1000 != 0) <==> (interrupt
            is Enable || mode is Raw),
        (spec_meas_mode_byte(mode, interrupt, thresh) & 0b0000_0100 != 0) <==> thresh is Enable,
        spec_meas_mode_byte(mode, interrupt, thresh) & 0b1000_0011 == 0,
{
    let m = mode.spec_bits();
    let i = interrupt.spec_bits();
    let t = thresh.spec_bits();
    assert(m == 0x00 || m == 0x10 || m == 0x20 || m == 0x30 || m == 0x48);
    assert(i == 0x00 || i == 0x08);
    assert(t == 0x00 || t == 0x04);
    assert(((m | i | t) & 0b0111_0000 == m & 0b0111_0000) && (((m | i | t) & 0b0000_1000 != 0)
        <==> (i == 0x08 || m == 0x48)) && (((m | i | t) & 0b0000_0100 != 0) <==> t == 0x04) && ((m
        | i | t) & 0b1000_0011 == 0)) by (bit_vector)
        requires
            m == 0x00 || m == 0x10 || m == 0x20 || m == 0x30 || m == 0x48,
            i == 0x00 || i == 0x08,
            t == 0x00 || t == 0x04,
    ;
}

/// Pack a measurement configuration into the byte written to the mode
/// register: the bitwise OR of the three bit groups.
pub fn encode_meas_mode(
    mode: MeasureDriveMode,
    interrupt: MeasureInterrupt,
    thresh: MeasureThresh,
) -> (r: u8)
    ensures
        r == spec_meas_mode_byte(mode, interrupt, thresh),
{
    mode.bits() | interrupt.bits() | thresh.bits()
}

} // verus!
