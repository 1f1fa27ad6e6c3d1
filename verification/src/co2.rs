use vstd::prelude::*;

verus! {

/// A CO2 concentration in parts per million, as decoded from the
/// 16-bit big-endian field of the result block.
#[derive(Copy, Clone, Debug, Eq, PartialEq, Structural)]
pub struct Co2(u16);

impl Co2 {
    /// The concentration in parts per million.
    pub closed spec fn spec_ppm(self) -> u16 {
        self.0
    }

    /// The sensor's plausible reporting range; out-of-range transients
    /// can still occur during warm-up and are representable.
    pub open spec fn spec_is_valid(self) -> bool {
        400 <= self.spec_ppm() <= 8192
    }

    pub fn new(n: u16) -> (r: Co2)
        ensures
            r.spec_ppm() == n,
    {
        Co2(n)
    }

    /// The concentration in parts per million.
    pub fn ppm(self) -> (r: u16)
        ensures
            r == self.spec_ppm(),
    {
        self.0
    }

    /// Whether the value lies in the plausible reporting range.
    pub fn is_valid(&self) -> (r: bool)
        ensures
            r == self.spec_is_valid(),
    {
        400 <= self.0 && self.0 <= 8192
    }
}

} // verus!
