use vstd::prelude::*;

use crate::co2::Co2;
use crate::error::Ccs811Error;
use crate::status::Status;
use crate::status::ERROR;
use crate::tvoc::Tvoc;
use crate::Ccs811Result;

verus! {

/// The 16-bit big-endian quantity spelled by a high and a low byte.
pub open spec fn spec_be16(hi: u8, lo: u8) -> int {
    hi * 256 + lo
}

/// The high byte of a 16-bit quantity in big-endian order.
pub open spec fn spec_hi16(v: u16) -> u8 {
    (v >> 8) as u8
}

/// The low byte of a 16-bit quantity in big-endian order.
pub open spec fn spec_lo16(v: u16) -> u8 {
    (v & 0xFF) as u8
}

/// Read a 16-bit big-endian quantity out of two bytes.
pub fn be16(hi: u8, lo: u8) -> (r: u16)
    ensures
        r == spec_be16(hi, lo),
{
    let r = ((hi as u16) << 8) | (lo as u16);
    assert(((hi as u16) << 8) | (lo as u16) == hi * 256 + lo) by (bit_vector);
    r
}

/// Law: a 16-bit quantity split into its big-endian bytes decodes back
/// to the same value; together with the contracts of
/// [`AlgorithmResultsData::co2`] and [`AlgorithmResultsData::tvoc`],
/// decoding recovers any CO2/TVOC pair from a result block exactly.
pub proof fn lemma_be16_round_trip(v: u16)
    ensures
        spec_be16(spec_hi16(v), spec_lo16(v)) == v,
{
    assert(((v >> 8) as u8) * 256 + ((v & 0xFF) as u8) == v) by (bit_vector);
}

/// The 6-byte algorithm result block: a big-endian 16-bit CO2 reading
/// in ppm, a big-endian 16-bit TVOC reading in ppb, the status byte at
/// the time of the sample, and one raw-sensor-data byte.
pub struct AlgorithmResultsData([u8; 6]);

impl AlgorithmResultsData {
    /// The raw block as read from the result register.
    pub closed spec fn spec_bytes(&self) -> Seq<u8> {
        self.0@
    }

    pub fn new(data: [u8; 6]) -> (r: AlgorithmResultsData)
        ensures
            r.spec_bytes() == data@,
    {
        AlgorithmResultsData(data)
    }

    /// The status embedded in the sample, decoded like a status-register
    /// read: it fails when the error bit is set, so the caller learns
    /// that the CO2/TVOC values of this sample may be unreliable.
    pub fn status(&self) -> (r: Ccs811Result<Status>)
        ensures
            self.spec_bytes()[4] & ERROR == 0 ==> (r matches Ok(s) && s.spec_raw()
                == self.spec_bytes()[4]),
            self.spec_bytes()[4] & ERROR != 0 ==> (r matches Err(e)
                && e matches Ccs811Error::ErrorStatus(s) && s.spec_raw() == self.spec_bytes()[4]),
    {
        Status::new(self.0[4])
    }

    /// The CO2 reading: bytes 0 and 1 as a big-endian quantity in ppm.
    pub fn co2(&self) -> (r: Co2)
        ensures
            r.spec_ppm() == spec_be16(self.spec_bytes()[0], self.spec_bytes()[1]),
    {
        Co2::new(be16(self.0[0], self.0[1]))
    }

    /// The TVOC reading: bytes 2 and 3 as a big-endian quantity in ppb.
    pub fn tvoc(&self) -> (r: Tvoc)
        ensures
            r.spec_ppb() == spec_be16(self.spec_bytes()[2], self.spec_bytes()[3]),
    {
        Tvoc::new(be16(self.0[2], self.0[3]))
    }
}

} // verus!
