use vstd::prelude::*;

verus! {

/// One of the six independent error causes the device reports in its
/// error-id register, named by bit position low to high.
#[derive(Copy, Clone, Debug, Eq, PartialEq, Structural)]
pub enum DeviceError {
    /// Bit 0: invalid message / firmware protocol error.
    MessageInvalid,
    /// Bit 1: a read of an invalid register was requested.
    ReadRegisterInvalid,
    /// Bit 2: an invalid measurement mode was requested.
    MeasureModeInvalid,
    /// Bit 3: heater resistance out of range.
    MaxResistance,
    /// Bit 4: heater open circuit.
    HeaterFault,
    /// Bit 5: heater short circuit.
    HeaterSupply,
}

impl DeviceError {
    /// The single bit of this cause in the error-id byte.
    pub open spec fn spec_mask(self) -> u8 {
        match self {
            DeviceError::MessageInvalid => 0b0000_0001,
            DeviceError::ReadRegisterInvalid => 0b0000_0010,
            DeviceError::MeasureModeInvalid => 0b0000_0100,
            DeviceError::MaxResistance => 0b0000_1000,
            DeviceError::HeaterFault => 0b0001_0000,
            DeviceError::HeaterSupply => 0b0010_0000,
        }
    }

    /// The single bit of this cause in the error-id byte.
    pub fn mask(self) -> (r: u8)
        ensures
            r == self.spec_mask(),
    {
        match self {
            DeviceError::MessageInvalid => 0b0000_0001,
            DeviceError::ReadRegisterInvalid => 0b0000_0010,
            DeviceError::MeasureModeInvalid => 0b0000_0100,
            DeviceError::MaxResistance => 0b0000_1000,
            DeviceError::HeaterFault => 0b0001_0000,
            DeviceError::HeaterSupply => 0b0010_0000,
        }
    }
}

/// The cause that lives at bit position `i` (low to high) of the
/// error-id byte.
pub open spec fn device_error_at(i: int) -> DeviceError {
    if i == 0 {
        DeviceError::MessageInvalid
    } else if i == 1 {
        DeviceError::ReadRegisterInvalid
    } else if i == 2 {
        DeviceError::MeasureModeInvalid
    } else if i == 3 {
        DeviceError::MaxResistance
    } else if i == 4 {
        DeviceError::HeaterFault
    } else {
        DeviceError::HeaterSupply
    }
}

/// The bit position of a cause, inverse of [`device_error_at`].
pub open spec fn spec_cause_pos(c: DeviceError) -> int {
    match c {
        DeviceError::MessageInvalid => 0,
        DeviceError::ReadRegisterInvalid => 1,
        DeviceError::MeasureModeInvalid => 2,
        DeviceError::MaxResistance => 3,
        DeviceError::HeaterFault => 4,
        DeviceError::HeaterSupply => 5,
    }
}

/// The causes of the bit positions below `i` that are set in `raw`, in
/// bit order low to high.
pub open spec fn spec_causes_upto(raw: u8, i: int) -> Seq<DeviceError>
    decreases i,
{
    if i <= 0 {
        Seq::empty()
    } else {
        spec_causes_upto(raw, i - 1) + (if raw & device_error_at(i - 1).spec_mask() != 0 {
            seq![device_error_at(i - 1)]
        } else {
            Seq::empty()
        })
    }
}

/// The subset of defined causes present in a raw error-id byte, in bit
/// order low to high: exactly the causes whose bit is set, absent
/// causes are absent.
pub open spec fn spec_causes(raw: u8) -> Seq<DeviceError> {
    spec_causes_upto(raw, 6)
}

/// The given cause if its bit is set in `raw`, absent otherwise.
pub fn to_devise_error(raw: u8, error: DeviceError) -> (r: Option<DeviceError>)
    ensures
        r == (if raw & error.spec_mask() != 0 {
            Some(error)
        } else {
            Option::<DeviceError>::None
        }),
{
    if raw & error.mask() != 0 {
        Some(error)
    } else {
        None
    }
}

/// Membership in the cause list below position `i`: exactly the causes
/// whose position is below `i` and whose bit is set.
proof fn lemma_causes_upto_membership(raw: u8, i: int)
    requires
        0 <= i <= 6,
    ensures
        forall|c: DeviceError| #[trigger]
            spec_causes_upto(raw, i).contains(c) <==> (spec_cause_pos(c) < i && raw
                & c.spec_mask() != 0),
    decreases i,
{
    let s = spec_causes_upto(raw, i);
    if i == 0 {
        assert(s.len() == 0);
        assert forall|c: DeviceError| !s.contains(c) by {}
    } else {
        lemma_causes_upto_membership(raw, i - 1);
        let prev = spec_causes_upto(raw, i - 1);
        let ei = device_error_at(i - 1);
        assert(spec_cause_pos(ei) == i - 1);
        if raw & ei.spec_mask() != 0 {
            assert(s == prev + seq![ei]);
            assert forall|c: DeviceError| #[trigger]
                s.contains(c) <==> (spec_cause_pos(c) < i && raw & c.spec_mask() != 0) by {
                if s.contains(c) {
                    let k = choose|k: int| 0 <= k < s.len() && s[k] == c;
                    if k < prev.len() {
                        assert(prev[k] == c);
                        assert(prev.contains(c));
                    } else {
                        assert(c == ei);
                    }
                }
                if spec_cause_pos(c) < i && raw & c.spec_mask() != 0 {
                    if spec_cause_pos(c) == i - 1 {
                        assert(device_error_at(spec_cause_pos(c)) == c);
                        assert(c == ei);
                        assert(s[prev.len() as int] == c);
                        assert(s.contains(c));
                    } else {
                        assert(prev.contains(c));
                        let k = choose|k: int| 0 <= k < prev.len() && prev[k] == c;
                        assert(s[k] == c);
                        assert(s.contains(c));
                    }
                }
            }
        } else {
            assert(s =~= prev);
            assert forall|c: DeviceError| #[trigger]
                s.contains(c) <==> (spec_cause_pos(c) < i && raw & c.spec_mask() != 0) by {
                if spec_cause_pos(c) == i - 1 {
                    assert(device_error_at(spec_cause_pos(c)) == c);
                    assert(raw & c.spec_mask() == 0);
                }
            }
        }
    }
}

/// A decoded error-id byte: the raw byte together with the subset of
/// defined causes present, in bit order low to high.  Any byte is a
/// legal encoding; zero means no causes, and absent causes are absent
/// from the list, not placeholders.
#[derive(Clone, Debug)]
pub struct ErrorId(u8, Vec<DeviceError>);

impl ErrorId {
    /// The raw byte as read from the error-id register.
    pub closed spec fn spec_raw(&self) -> u8 {
        self.0
    }

    /// The decoded causes, in bit order low to high.
    pub closed spec fn spec_errors(&self) -> Seq<DeviceError> {
        self.1@
    }

    /// The cause list is exactly the set bits of the raw byte, decoded
    /// in bit order.
    pub open spec fn wf(&self) -> bool {
        self.spec_errors() == spec_causes(self.spec_raw())
    }

    /// Decode an error-id byte.  Never fails: every byte is a legal
    /// encoding, and the decoded list holds exactly the causes whose
    /// bit is set, in bit order low to high.
    pub fn new(raw: u8) -> (id: ErrorId)
        ensures
            id.spec_raw() == raw,
            id.wf(),
    {
        let mut causes: Vec<DeviceError> = Vec::new();
        if let Some(e) = to_devise_error(raw, DeviceError::MessageInvalid) {
            causes.push(e);
        }
        proof {
            assert(spec_causes_upto(raw, 0) =~= Seq::<DeviceError>::empty());
            assert(causes@ =~= spec_causes_upto(raw, 1));
        }
        if let Some(e) = to_devise_error(raw, DeviceError::ReadRegisterInvalid) {
            causes.push(e);
        }
        proof {
            assert(causes@ =~= spec_causes_upto(raw, 2));
        }
        if let Some(e) = to_devise_error(raw, DeviceError::MeasureModeInvalid) {
            causes.push(e);
        }
        proof {
            assert(causes@ =~= spec_causes_upto(raw, 3));
        }
        if let Some(e) = to_devise_error(raw, DeviceError::MaxResistance) {
            causes.push(e);
        }
        proof {
            assert(causes@ =~= spec_causes_upto(raw, 4));
        }
        if let Some(e) = to_devise_error(raw, DeviceError::HeaterFault) {
            causes.push(e);
        }
        proof {
            assert(causes@ =~= spec_causes_upto(raw, 5));
        }
        if let Some(e) = to_devise_error(raw, DeviceError::HeaterSupply) {
            causes.push(e);
        }
        proof {
            assert(causes@ =~= spec_causes_upto(raw, 6));
        }
        ErrorId(raw, causes)
    }

    /// The decoded causes actually present, in bit order low to high.
    pub fn errors(&self) -> (r: &[DeviceError])
        ensures
            r@ == self.spec_errors(),
    {
        self.1.as_slice()
    }

    /// Whether any defined cause is present.
    pub fn has_any_error(&self) -> (r: bool)
        ensures
            r == (self.spec_raw() & 0b0011_1111 != 0),
    {
        (self.0 & 0b0011_1111) != 0
    }

    /// Whether the given cause is present.
    pub fn has_error(&self, error: DeviceError) -> (r: bool)
        ensures
            r == (self.spec_raw() & error.spec_mask() != 0),
    {
        (self.0 & error.mask()) != 0
    }
}

/// Law: the decoded cause list holds a cause exactly when its bit
/// position is 1 in the raw byte (the list's order, bit order low to
/// high, is already pinned by well-formedness); in particular a raw
/// byte of zero decodes to the empty cause list.
pub proof fn lemma_error_id_causes(id: ErrorId)
    requires
        id.wf(),
    ensures
        forall|c: DeviceError| #[trigger]
            id.spec_errors().contains(c) <==> id.spec_raw() & c.spec_mask() != 0,
        id.spec_raw() == 0 ==> id.spec_errors() =~= Seq::<DeviceError>::empty(),
{
    lemma_causes_upto_membership(id.spec_raw(), 6);
    assert forall|c: DeviceError| #[trigger]
        id.spec_errors().contains(c) <==> id.spec_raw() & c.spec_mask() != 0 by {
        assert(spec_cause_pos(c) < 6);
    }
    if id.spec_raw() == 0 {
        assert(0u8 & 0b0000_0001 == 0 && 0u8 & 0b0000_0010 == 0 && 0u8 & 0b0000_0100 == 0 && 0u8
            & 0b0000_1000 == 0 && 0u8 & 0b0001_0000 == 0 && 0u8 & 0b0010_0000 == 0)
            by (bit_vector);
        let s = id.spec_errors();
        if s.len() > 0 {
            let c0 = s[0];
            assert(s.contains(c0));
            assert(0u8 & c0.spec_mask() == 0) by {
                match c0 {
                    DeviceError::MessageInvalid => {},
                    DeviceError::ReadRegisterInvalid => {},
                    DeviceError::MeasureModeInvalid => {},
                    DeviceError::MaxResistance => {},
                    DeviceError::HeaterFault => {},
                    DeviceError::HeaterSupply => {},
                }
            }
            assert(false);
        }
        assert(s =~= Seq::<DeviceError>::empty());
    }
}

} // verus!
