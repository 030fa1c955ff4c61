//! The two-wire bus seen as byte-wide registers of one device.
use vstd::prelude::*;

verus! {

/// The device's fixed 7-bit bus address.
pub const I2C_ADDRESS: u8 = 0x5A;

/// A blocking two-wire bus, as the platform supplies it.
///
/// The driver promises nothing about what the bus returns: every statement
/// the driver makes holds for any implementation.
pub trait I2cBus {
    /// What the bus reports when a transaction fails.
    type Error;

    /// Writes `bytes` to the device at `address` in one transaction.
    fn write(&mut self, address: u8, bytes: &[u8]) -> Result<(), Self::Error>;

    /// Writes `bytes`, then reads `buffer.len()` bytes, in one combined transaction.
    fn write_read(&mut self, address: u8, bytes: &[u8], buffer: &mut [u8]) -> Result<(), Self::Error>;
}

/// The bytes of a register write: the register address, then the value.
pub fn write_frame(address: u8, value: u8) -> (r: [u8; 2])
    ensures
        r@ == seq![address, value],
{
    [address, value]
}

/// The bytes that select a register before it is read: its address.
pub fn read_frame(address: u8) -> (r: [u8; 1])
    ensures
        r@ == seq![address],
{
    [address]
}

/// One completed register access: a byte read from, or written to, a register.
#[derive(Debug, Clone, Copy, PartialEq, Eq, Structural)]
pub enum Access {
    /// `value` was read from register `address`.
    Read { address: u8, value: u8 },
    /// `value` was written to register `address`.
    Write { address: u8, value: u8 },
}

/// What can go wrong on the bus.
#[derive(Debug)]
pub enum DeviceInterfaceError<I2cError> {
    /// The bus reported a failure.
    I2c(I2cError),
}

/// The register interface of the device over a bus.
///
/// It keeps, as a ghost record, every register access that completed through
/// it, in order, and the number of bus transactions it started, failed ones
/// included: the driver's contracts are stated over that record.
pub struct DeviceInterface<I2C> {
    /// The bus.
    pub i2c: I2C,
    log: Ghost<Seq<Access>>,
    started: Ghost<nat>,
}

impl<I2C> DeviceInterface<I2C> {
    /// The accesses completed so far.
    pub closed spec fn traffic(&self) -> Seq<Access> {
        self.log@
    }

    /// The number of bus transactions started so far, failed ones included.
    pub closed spec fn attempts(&self) -> nat {
        self.started@
    }

    /// An interface over `i2c`, with no accesses yet.
    pub fn new(i2c: I2C) -> (r: Self)
        ensures
            r.traffic() == Seq::<Access>::empty(),
            r.attempts() == 0,
    {
        DeviceInterface { i2c, log: Ghost(Seq::empty()), started: Ghost(0) }
    }
}

impl<I2C: I2cBus> DeviceInterface<I2C> {
    /// Reads one register: the register address is written, then one byte is
    /// read, in one combined transaction.
    pub fn read_register(&mut self, address: u8) -> (r: Result<u8, DeviceInterfaceError<I2C::Error>>)
        ensures
            final(self).attempts() == old(self).attempts() + 1,
            match r {
                Ok(value) => final(self).traffic() == old(self).traffic().push(
                    Access::Read { address, value },
                ),
                Err(_) => final(self).traffic() == old(self).traffic(),
            },
    {
        let request = read_frame(address);
        let mut buffer: [u8; 1] = [0u8; 1];
        self.started = Ghost(self.started@ + 1);
        match self.i2c.write_read(I2C_ADDRESS, &request, &mut buffer) {
            Ok(()) => {
                let value = buffer[0];
                self.log = Ghost(self.log@.push(Access::Read { address, value }));
                Ok(value)
            },
            Err(e) => Err(DeviceInterfaceError::I2c(e)),
        }
    }

    /// Writes one register: the register address followed by the value, in
    /// one transaction.
    pub fn write_register(&mut self, address: u8, value: u8) -> (r: Result<
        (),
        DeviceInterfaceError<I2C::Error>,
    >)
        ensures
            final(self).attempts() == old(self).attempts() + 1,
            match r {
                Ok(()) => final(self).traffic() == old(self).traffic().push(
                    Access::Write { address, value },
                ),
                Err(_) => final(self).traffic() == old(self).traffic(),
            },
    {
        let frame = write_frame(address, value);
        self.started = Ghost(self.started@ + 1);
        match self.i2c.write(I2C_ADDRESS, &frame) {
            Ok(()) => {
                self.log = Ghost(self.log@.push(Access::Write { address, value }));
                Ok(())
            },
            Err(e) => Err(DeviceInterfaceError::I2c(e)),
        }
    }
}

} // verus!
