use vstd::prelude::*;

verus! {

/// An I2C bus number: the N of the host's /dev/i2c-N device node.
#[derive(Copy, Clone, Debug, Eq, PartialEq, Structural)]
pub struct I2cBus(pub u8);

/// A device address on the two-wire bus.
#[derive(Copy, Clone, Debug, Eq, PartialEq, Structural)]
pub struct I2cAddress(pub u8);

/// A bus-transport failure.
#[derive(Clone, Debug, Eq, PartialEq)]
pub enum I2cError {
    /// The operating-system call against the device handle failed, with
    /// a diagnostic string.
    IoctlError(String),
    /// A block read was requested whose count cannot be carried by the
    /// one-byte length prefix of the wire encoding.
    TooLongBlock,
}

/// Greatest number of payload bytes one SMBus block transfer carries.
pub const I2C_SMBUS_BLOCK_MAX: usize = 32;

/// The wire buffer of an SMBus block transfer: byte 0 carries the
/// requested or returned count, bytes 1.. the payload.
#[allow(non_camel_case_types)]
#[derive(Copy, Clone, Debug, Eq, PartialEq)]
pub struct i2c_smbus_data {
    pub block: [u8; 34],
}

impl i2c_smbus_data {
    /// An all-zero buffer.
    pub fn empty() -> (d: i2c_smbus_data)
        ensures
            forall|i: int| 0 <= i < 34 ==> d.block@[i] == 0,
    {
        i2c_smbus_data { block: [0u8; 34] }
    }
}

/// Frame a one-byte transfer: the value sits in slot 0 of the wire
/// buffer and the rest stays zero.
pub fn byte_frame(value: u8) -> (d: i2c_smbus_data)
    ensures
        d.block@[0] == value,
        forall|i: int| 1 <= i < 34 ==> d.block@[i] == 0,
{
    let mut data = i2c_smbus_data::empty();
    data.block[0] = value;
    data
}

/// Frame a block write: byte 0 takes the count from the caller-supplied
/// slice length, the payload follows, and the buffer slack stays zero.
pub fn write_block_frame(values: &[u8]) -> (d: i2c_smbus_data)
    requires
        values@.len() <= I2C_SMBUS_BLOCK_MAX,
    ensures
        d.block@[0] == values@.len(),
        forall|i: int| 0 <= i < values@.len() ==> d.block@[i + 1] == values@[i],
        forall|i: int| values@.len() < i < 34 ==> d.block@[i] == 0,
{
    let mut data = i2c_smbus_data::empty();
    data.block[0] = values.len() as u8;
    let mut i: usize = 0;
    while i < values.len()
        invariant
            i <= values@.len() <= I2C_SMBUS_BLOCK_MAX,
            data.block@[0] == values@.len(),
            forall|j: int| 0 <= j < i ==> data.block@[j + 1] == values@[j],
            forall|j: int| i < j < 34 ==> data.block@[j] == 0,
        decreases values@.len() - i,
    {
        data.block[i + 1] = values[i];
        i = i + 1;
    }
    data
}

/// Frame a block read request for `len` bytes.  A length the one-byte
/// count cannot carry fails immediately, before anything touches the
/// bus; otherwise byte 0 takes the requested count and the rest of the
/// buffer is zero.
pub fn read_block_frame(len: usize) -> (r: Result<i2c_smbus_data, I2cError>)
    ensures
        len > 255 ==> (r matches Err(e) && e is TooLongBlock),
        len <= 255 ==> (r matches Ok(d) && d.block@[0] == len && (forall|i: int|
            1 <= i < 34 ==> d.block@[i] == 0)),
{
    if len > 255 {
        return Err(I2cError::TooLongBlock);
    }
    let mut data = i2c_smbus_data::empty();
    data.block[0] = len as u8;
    Ok(data)
}

/// How many payload bytes a block read hands to the caller: the count
/// the device returned, bounded by the caller's requested length and by
/// what the buffer can physically hold.
pub open spec fn spec_copy_count(d: i2c_smbus_data, len: int) -> int {
    let count = d.block@[0] as int;
    let cap = if len < 33 {
        len
    } else {
        33
    };
    if count < cap {
        count
    } else {
        cap
    }
}

/// Unpack the buffer a block read returned into the caller's buffer:
/// only the first `count` payload bytes are copied (bounded by the
/// request and by what the wire buffer physically holds), any wire
/// buffer slack is discarded, and the caller's bytes past the returned
/// count are left untouched.
pub fn read_block_extract(d: &i2c_smbus_data, result: &mut [u8])
    ensures
        final(result)@.len() == old(result)@.len(),
        forall|i: int|
            0 <= i < spec_copy_count(*d, old(result)@.len() as int) ==> final(result)@[i]
                == d.block@[i + 1],
        forall|i: int|
            spec_copy_count(*d, old(result)@.len() as int) <= i < old(result)@.len()
                ==> final(result)@[i] == old(result)@[i],
{
    let ghost orig = result@;
    let len = result.len();
    let count = d.block[0] as usize;
    let cap = if len < 33 {
        len
    } else {
        33
    };
    let n = if count < cap {
        count
    } else {
        cap
    };
    let mut i: usize = 0;
    while i < n
        invariant
            i <= n <= 33,
            n <= orig.len(),
            result@.len() == orig.len(),
            n == spec_copy_count(*d, orig.len() as int),
            forall|j: int| 0 <= j < i ==> result@[j] == d.block@[j + 1],
            forall|j: int| i <= j < orig.len() ==> result@[j] == orig[j],
        decreases n - i,
    {
        result[i] = d.block[i + 1];
        i = i + 1;
    }
}

} // verus!
