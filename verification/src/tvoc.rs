use vstd::prelude::*;

verus! {

/// A total-volatile-organic-compound concentration in parts per
/// billion, as decoded from the 16-bit big-endian field of the result
/// block.
#[derive(Copy, Clone, Debug, Eq, PartialEq, Structural)]
pub struct Tvoc(u16);

impl Tvoc {
    /// The concentration in parts per billion.
    pub closed spec fn spec_ppb(self) -> u16 {
        self.0
    }

    /// The sensor's plausible reporting range; out-of-range transients
    /// can still occur during warm-up and are representable.
    pub open spec fn spec_is_valid(self) -> bool {
        self.spec_ppb() <= 1187
    }

    pub fn new(n: u16) -> (r: Tvoc)
        ensures
            r.spec_ppb() == n,
    {
        Tvoc(n)
    }

    /// The concentration in parts per billion.
    pub fn ppb(self) -> (r: u16)
        ensures
            r == self.spec_ppb(),
    {
        self.0
    }

    /// Whether the value lies in the plausible reporting range.
    pub fn is_valid(&self) -> (r: bool)
        ensures
            r == self.spec_is_valid(),
    {
        self.0 <= 1187
    }
}

} // verus!
