use vstd::prelude::*;

use crate::algorithm_results_data::AlgorithmResultsData;
use crate::error::Ccs811Error;
use crate::error_id::ErrorId;
use crate::measure::encode_meas_mode;
use crate::measure::spec_meas_mode_byte;
use crate::measure::MeasureDriveMode;
use crate::measure::MeasureInterrupt;
use crate::measure::MeasureThresh;
use crate::registers::RegisterAddress;
use crate::status::spec_status_decode;
use crate::status::Status;
use crate::Ccs811Result;

verus! {

/// One attempted bus operation, as the ghost transport history records
/// it: the register's byte offset, what was handed down, and the call's
/// outcome — the data the device handed back, or the very failure the
/// transport surfaced.
pub enum BusOp {
    /// Zero-length block write to a register.
    BlankWrite(u8, Ccs811Result<()>),
    /// One-byte write of a value to a register.
    WriteByte(u8, u8, Ccs811Result<()>),
    /// One-byte read from a register.
    ReadByte(u8, Ccs811Result<u8>),
    /// Block read from a register.
    ReadBlock(u8, Result<Seq<u8>, Ccs811Error>),
}

/// The ghost history of a transport: the operations attempted on it, in
/// call order.  It has no runtime content; an unverified implementor
/// gives the member an unreachable body.
pub type BusOps = Seq<BusOp>;

/// The bus-transport capability: byte and block reads and writes
/// against a register address over the two-wire bus.  The transport
/// owns no protocol knowledge, performs no retries, and surfaces every
/// underlying failure to the caller.  Concrete transports (device
/// handles, test doubles) implement it outside the verified core; what
/// is assumed of them is exactly what is written here: each method
/// attempts one operation, appended to the ghost history [`I2c::ops`],
/// and a successful read hands back what that operation returned.
pub trait I2c {
    /// Ghost history of every operation attempted on this transport,
    /// in call order.
    spec fn ops(&self) -> BusOps;

    /// Zero-length block write to a register: a protocol-level trigger
    /// with no payload.
    fn write_i2c_blank_data(&mut self, reg: RegisterAddress) -> (r: Ccs811Result<()>)
        ensures
            final(self).ops() == old(self).ops().push(BusOp::BlankWrite(reg.spec_byte(), r)),
    ;

    /// Write one byte to a register.
    fn write_byte_data(&mut self, reg: RegisterAddress, data: u8) -> (r: Ccs811Result<()>)
        ensures
            final(self).ops() == old(self).ops().push(
                BusOp::WriteByte(reg.spec_byte(), data, r),
            ),
    ;

    /// Read one byte from a register.
    fn read_byte_data(&mut self, reg: RegisterAddress) -> (r: Ccs811Result<u8>)
        ensures
            final(self).ops() == old(self).ops().push(BusOp::ReadByte(reg.spec_byte(), r)),
    ;

    /// Block read from a register into the caller's buffer, whose
    /// length is the requested count.  On success the buffer holds what
    /// the operation returned.
    fn read_i2c_block_data(&mut self, reg: RegisterAddress, data: &mut [u8]) -> (r: Ccs811Result<
        (),
    >)
        ensures
            final(data)@.len() == old(data)@.len(),
            r is Ok ==> final(self).ops() == old(self).ops().push(
                BusOp::ReadBlock(reg.spec_byte(), Ok(final(data)@)),
            ),
            r matches Err(e) ==> final(self).ops() == old(self).ops().push(
                BusOp::ReadBlock(reg.spec_byte(), Err(e)),
            ),
    ;
}

/// Sensor control: composes the bus transport with the register map and
/// the decoders.  Every operation blocks until the bus responds or the
/// transport fails; none retries, and each contract below pins the
/// exact operations issued through [`Ccs811::bus_ops`], the ghost
/// history of the owned transport.
pub trait Ccs811 {
    type I2c: I2c;

    /// Ghost history of the owned transport's operations.
    spec fn bus_ops(&self) -> BusOps;

    /// The transport this control owns exclusively for its lifetime.
    fn i2c(&mut self) -> (r: &mut Self::I2c)
        ensures
            r.ops() == old(self).bus_ops(),
            final(self).bus_ops() == final(r).ops(),
    ;

    /// Start measurement: first the zero-length app-start trigger that
    /// moves the firmware from boot mode to application mode, then the
    /// packed mode byte to the mode register.  Succeeds exactly when
    /// both writes do; if the trigger fails, the mode byte is not
    /// attempted and the trigger's own failure surfaces immediately;
    /// nothing else is written either way.
    fn start(
        &mut self,
        mode: MeasureDriveMode,
        interrupt: MeasureInterrupt,
        thresh: MeasureThresh,
    ) -> (r: Ccs811Result<()>)
        ensures
            ({
                let trigger_reg = RegisterAddress::AppStart.spec_byte();
                let mode_reg = RegisterAddress::MeasMode.spec_byte();
                let mode_byte = spec_meas_mode_byte(mode, interrupt, thresh);
                let pre = old(self).bus_ops();
                let post = final(self).bus_ops();
                &&& (r is Ok ==> post == pre.push(
                    BusOp::BlankWrite(trigger_reg, Ok(())),
                ).push(BusOp::WriteByte(mode_reg, mode_byte, Ok(()))))
                &&& (r matches Err(e) ==> {
                    ||| post == pre.push(BusOp::BlankWrite(trigger_reg, Err(e)))
                    ||| post == pre.push(BusOp::BlankWrite(trigger_reg, Ok(()))).push(
                        BusOp::WriteByte(mode_reg, mode_byte, Err(e)),
                    )
                })
            }),
    {
        let ghost pre = self.bus_ops();
        let t = self.i2c();
        let r1 = t.write_i2c_blank_data(RegisterAddress::AppStart);
        let ghost g1 = r1;
        proof {
            assert(self.bus_ops() == pre.push(
                BusOp::BlankWrite(RegisterAddress::AppStart.spec_byte(), g1),
            ));
        }
        match r1 {
            Ok(u) => {
                proof {
                    assert(g1 == Ok::<(), Ccs811Error>(u));
                    assert(u == ());
                }
            },
            Err(e) => {
                proof {
                    assert(g1 == Err::<(), Ccs811Error>(e));
                }
                return Err(e);
            },
        }
        let byte = encode_meas_mode(mode, interrupt, thresh);
        let t = self.i2c();
        let r2 = t.write_byte_data(RegisterAddress::MeasMode, byte);
        let ghost g2 = r2;
        proof {
            assert(self.bus_ops() == pre.push(
                BusOp::BlankWrite(RegisterAddress::AppStart.spec_byte(), Ok(())),
            ).push(
                BusOp::WriteByte(
                    RegisterAddress::MeasMode.spec_byte(),
                    spec_meas_mode_byte(mode, interrupt, thresh),
                    g2,
                ),
            ));
        }
        match r2 {
            Ok(u) => {
                proof {
                    assert(g2 == Ok::<(), Ccs811Error>(u));
                    assert(u == ());
                }
                Ok(())
            },
            Err(e) => {
                proof {
                    assert(g2 == Err::<(), Ccs811Error>(e));
                }
                Err(e)
            },
        }
    }

    /// Read and decode the status register: exactly one byte read, its
    /// outcome decoded as [`Status::new`] fixes it; a transport failure
    /// passes through unchanged.
    fn status(&mut self) -> (r: Ccs811Result<Status>)
        ensures
            r matches Ok(s) ==> !s.spec_is_error(),
            ({
                let pre = old(self).bus_ops();
                let post = final(self).bus_ops();
                &&& post.len() == pre.len() + 1
                &&& post.subrange(0, pre.len() as int) == pre
                &&& (post.last() matches BusOp::ReadByte(reg, outcome) && reg
                    == RegisterAddress::Status.spec_byte() && (outcome matches Ok(b)
                    ==> spec_status_decode(r, b)) && (outcome matches Err(e) ==> r == Err::<
                    Status,
                    Ccs811Error,
                >(e)))
            }),
    {
        let ghost pre = self.bus_ops();
        let t = self.i2c();
        let res = t.read_byte_data(RegisterAddress::Status);
        proof {
            assert(self.bus_ops().subrange(0, pre.len() as int) =~= pre);
        }
        match res {
            Ok(b) => Status::new(b),
            Err(e) => Err(e),
        }
    }

    /// Read the 6-byte algorithm result block: exactly one block read,
    /// succeeding exactly when the read does, with the bytes the
    /// transport delivered kept and a transport failure passed through
    /// unchanged.  The embedded status error bit is not checked here:
    /// callers inspect the sample's own status to decide whether its
    /// CO2/TVOC values are trustworthy.
    fn result(&mut self) -> (r: Ccs811Result<AlgorithmResultsData>)
        ensures
            ({
                let pre = old(self).bus_ops();
                let post = final(self).bus_ops();
                &&& post.len() == pre.len() + 1
                &&& post.subrange(0, pre.len() as int) == pre
                &&& (post.last() matches BusOp::ReadBlock(reg, outcome) && reg
                    == RegisterAddress::AlgResultData.spec_byte() && (outcome matches Ok(bytes)
                    ==> (r matches Ok(a) && a.spec_bytes() == bytes)) && (outcome matches Err(e)
                    ==> r == Err::<AlgorithmResultsData, Ccs811Error>(e)))
            }),
    {
        let ghost pre = self.bus_ops();
        let mut results: [u8; 6] = [0, 0, 0, 0, 0, 0];
        let t = self.i2c();
        let res = t.read_i2c_block_data(
            RegisterAddress::AlgResultData,
            vstd::array::ref_mut_array_unsizing_coercion(&mut results),
        );
        proof {
            assert(self.bus_ops().subrange(0, pre.len() as int) =~= pre);
        }
        match res {
            Ok(_) => {
                let block = [results[0], results[1], results[2], results[3], results[4], results[5]];
                proof {
                    assert(block@ =~= results@);
                }
                Ok(AlgorithmResultsData::new(block))
            },
            Err(e) => Err(e),
        }
    }

    /// Read and decode the error-id register: exactly one byte read,
    /// whose decode never fails; a transport failure passes through
    /// unchanged, and diagnosis then degrades to that transport error.
    fn error_id(&mut self) -> (r: Ccs811Result<ErrorId>)
        ensures
            r matches Ok(id) ==> id.wf(),
            ({
                let pre = old(self).bus_ops();
                let post = final(self).bus_ops();
                &&& post.len() == pre.len() + 1
                &&& post.subrange(0, pre.len() as int) == pre
                &&& (post.last() matches BusOp::ReadByte(reg, outcome) && reg
                    == RegisterAddress::ErrorId.spec_byte() && (outcome matches Ok(b) ==> (
                    r matches Ok(id) && id.spec_raw() == b && id.wf())) && (outcome matches Err(e)
                    ==> r == Err::<ErrorId, Ccs811Error>(e)))
            }),
    {
        let ghost pre = self.bus_ops();
        let t = self.i2c();
        let res = t.read_byte_data(RegisterAddress::ErrorId);
        proof {
            assert(self.bus_ops().subrange(0, pre.len() as int) =~= pre);
        }
        match res {
            Ok(b) => Ok(ErrorId::new(b)),
            Err(e) => Err(e),
        }
    }
}

} // verus!
