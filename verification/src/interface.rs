//! The two bus adapters and the capability contract they share. Callers
//! hold one of the adapters through the `WriteData` / `ReadData` traits and
//! never branch on which bus backs it; the adapters apply the framing each
//! bus imposes.

use crate::bus::ChipSelect;
use crate::bus::I2cBus;
use crate::bus::I2cEvent;
use crate::bus::SpiBus;
use crate::bus::SpiEvent;
use crate::frames::i2c_read_frame;
use crate::frames::i2c_write_frame;
use crate::frames::spec_i2c_read_frame;
use crate::frames::spec_i2c_write_frame;
use crate::frames::spec_spi_read_frame;
use crate::frames::spec_spi_write_frame;
use crate::frames::spi_read_frame;
use crate::frames::spi_write_frame;
use crate::frames::SPI_WRITE_MARK;
use crate::types::Error;
use vstd::prelude::*;

verus! {

/// Default 7-bit device address on the addressed bus.
pub const BMI270_I2C_ADDR: u8 = 0x68;

/// Selects which of the two strap-selectable device addresses to use.
#[derive(Debug, Clone, Copy, PartialEq, Eq, Structural)]
pub enum I2cAddr {
    /// The default address, 0x68.
    Default,
    /// The alternative address, 0x69 (strap pin pulled high).
    Alternative,
}

/// The address a selector resolves to: 0x68 or 0x69, nothing else.
pub open spec fn spec_addr(a: I2cAddr) -> u8 {
    match a {
        I2cAddr::Default => 0x68,
        I2cAddr::Alternative => 0x69,
    }
}

impl Default for I2cAddr {
    fn default() -> (r: Self)
        ensures
            r == I2cAddr::Default,
    {
        I2cAddr::Default
    }
}

impl I2cAddr {
    /// Resolves the selector to the concrete bus address.
    pub fn addr(self) -> (r: u8)
        ensures
            r == spec_addr(self),
            r == 0x68 || r == 0x69,
    {
        proof {
            assert(0x68u8 | 1u8 == 0x69u8) by (bit_vector);
        }
        match self {
            I2cAddr::Default => BMI270_I2C_ADDR,
            I2cAddr::Alternative => BMI270_I2C_ADDR | 1,
        }
    }
}

/// The only addresses the selector can resolve to are 0x68 and 0x69,
/// one per variant.
pub proof fn lemma_addr_resolution()
    ensures
        spec_addr(I2cAddr::Default) == 0x68,
        spec_addr(I2cAddr::Alternative) == 0x69,
        forall|a: I2cAddr| spec_addr(a) == 0x68 || spec_addr(a) == 0x69,
{
}

/// Adapter for the addressed bus: owns the bus handle and the resolved
/// device address, fixed for the adapter's lifetime.
pub struct I2cInterface<I2C> {
    /// The bus handle.
    pub i2c: I2C,
    /// The resolved 7-bit device address.
    pub address: u8,
}

/// Adapter for the chip-select bus: owns the bus handle and, exclusively,
/// the chip-select line. The line is driven only during one transaction
/// and released afterwards on every exit path.
pub struct SpiInterface<SPI, CS> {
    /// The bus handle.
    pub spi: SPI,
    /// The chip-select line.
    pub cs: CS,
}

/// A chip-select-bracketed transaction ran to completion: the line was
/// driven low, `ev` reached the wire, and the line was released high.
pub open spec fn spi_txn_complete<SPI: SpiBus, CS: ChipSelect>(
    pre: SpiInterface<SPI, CS>,
    post: SpiInterface<SPI, CS>,
    ev: SpiEvent,
) -> bool {
    &&& post.spi.log() == pre.spi.log().push(ev)
    &&& post.cs.history() == pre.cs.history() + seq![false, true]
    &&& post.cs.is_high()
}

/// The line was driven low and released high, but the transfer in between
/// failed, so nothing reached the wire.
pub open spec fn spi_txn_transfer_failed<SPI: SpiBus, CS: ChipSelect>(
    pre: SpiInterface<SPI, CS>,
    post: SpiInterface<SPI, CS>,
) -> bool {
    &&& post.spi.log() == pre.spi.log()
    &&& post.cs.history() == pre.cs.history() + seq![false, true]
    &&& post.cs.is_high()
}

/// Selecting the device failed: the line was never driven and nothing was
/// transferred.
pub open spec fn spi_txn_select_failed<SPI: SpiBus, CS: ChipSelect>(
    pre: SpiInterface<SPI, CS>,
    post: SpiInterface<SPI, CS>,
) -> bool {
    &&& post.spi.log() == pre.spi.log()
    &&& post.cs.history() == pre.cs.history()
    &&& post.cs.is_high() == pre.cs.is_high()
}

/// Releasing the line failed after the transfer attempt: the line is stuck
/// low, and the transfer itself either completed as `ev` or failed and left
/// no trace.
pub open spec fn spi_txn_release_failed<SPI: SpiBus, CS: ChipSelect>(
    pre: SpiInterface<SPI, CS>,
    post: SpiInterface<SPI, CS>,
    ev: SpiEvent,
) -> bool {
    &&& (post.spi.log() == pre.spi.log() || post.spi.log() == pre.spi.log().push(ev))
    &&& post.cs.history() == pre.cs.history().push(false)
    &&& !post.cs.is_high()
}

/// The write half of the capability contract the sensor driver calls
/// against, backed by either adapter.
pub trait WriteData: Sized {
    type Error;

    /// Sends `payload` to the device; `payload[0]` is the register byte.
    /// On the chip-select bus the register byte is tagged with the write
    /// mark in place, destructively.
    fn write(&mut self, payload: &mut Vec<u8>) -> Result<(), Self::Error>
        requires
            old(payload)@.len() >= 1,
    ;

    /// Writes the byte `data` to `register`.
    fn write_reg(&mut self, register: u8, data: u8) -> Result<(), Self::Error>;
}

/// The read half of the capability contract the sensor driver calls
/// against, backed by either adapter.
pub trait ReadData: Sized {
    type Error;

    /// Reads into `payload`. On the addressed bus `payload[0]` names the
    /// register and the response lands in `payload[1..]`; on the
    /// chip-select bus the whole buffer receives a continuing read.
    fn read(&mut self, payload: &mut Vec<u8>) -> Result<(), Self::Error>
        requires
            old(payload)@.len() >= 1,
    ;

    /// Reads one byte from `register`.
    fn read_reg(&mut self, register: u8) -> Result<u8, Self::Error>;
}

impl<I2C: I2cBus> WriteData for I2cInterface<I2C> {
    type Error = Error<I2C::BusError, ()>;

    fn write(&mut self, payload: &mut Vec<u8>) -> (r: Result<(), Self::Error>)
        ensures
            final (self).address == old(self).address,
            final (payload)@ == old(payload)@,
            r is Ok ==> final (self).i2c.log() == old(self).i2c.log().push(
                I2cEvent::Write { address: old(self).address, data: old(payload)@ },
            ),
            r matches Err(e) ==> e is Comm && final (self).i2c.log() == old(self).i2c.log(),
    {
        match self.i2c.write(self.address, payload.as_slice()) {
            Ok(()) => Ok(()),
            Err(e) => Err(Error::Comm(e)),
        }
    }

    fn write_reg(&mut self, register: u8, data: u8) -> (r: Result<(), Self::Error>)
        ensures
            final (self).address == old(self).address,
            r is Ok ==> final (self).i2c.log() == old(self).i2c.log().push(
                I2cEvent::Write {
                    address: old(self).address,
                    data: spec_i2c_write_frame(register, data),
                },
            ),
            r matches Err(e) ==> e is Comm && final (self).i2c.log() == old(self).i2c.log(),
    {
        let frame = i2c_write_frame(register, data);
        match self.i2c.write(self.address, frame.as_slice()) {
            Ok(()) => Ok(()),
            Err(e) => Err(Error::Comm(e)),
        }
    }
}

impl<I2C: I2cBus> ReadData for I2cInterface<I2C> {
    type Error = Error<I2C::BusError, ()>;

    fn read(&mut self, payload: &mut Vec<u8>) -> (r: Result<(), Self::Error>)
        ensures
            final (self).address == old(self).address,
            final (payload)@.len() == old(payload)@.len(),
            final (payload)@[0] == old(payload)@[0],
            r is Ok ==> final (self).i2c.log() == old(self).i2c.log().push(
                I2cEvent::WriteRead {
                    address: old(self).address,
                    written: spec_i2c_read_frame(old(payload)@[0]),
                    received: final (payload)@.subrange(1, final (payload)@.len() as int),
                },
            ),
            r matches Err(e) ==> e is Comm && final (self).i2c.log() == old(self).i2c.log()
                && final (payload)@ == old(payload)@,
    {
        let n = payload.len();
        let reg = payload[0];
        let mut buf: Vec<u8> = Vec::new();
        let mut i: usize = 1;
        while i < n
            invariant
                1 <= i <= n,
                buf@.len() == i - 1,
            decreases n - i,
        {
            buf.push(0);
            i += 1;
        }
        let frame = i2c_read_frame(reg);
        match self.i2c.write_read(self.address, frame.as_slice(), &mut buf) {
            Ok(()) => {
                let mut j: usize = 0;
                while j < buf.len()
                    invariant
                        0 <= j <= buf@.len(),
                        buf@.len() == n - 1,
                        n == payload@.len(),
                        payload@[0] == old(payload)@[0],
                        payload@.subrange(1, j + 1 as int) =~= buf@.subrange(0, j as int),
                    decreases buf@.len() - j,
                {
                    let b = buf[j];
                    payload[j + 1] = b;
                    j += 1;
                }
                proof {
                    assert(payload@.subrange(1, n as int) =~= buf@);
                }
                Ok(())
            },
            Err(e) => Err(Error::Comm(e)),
        }
    }

    fn read_reg(&mut self, register: u8) -> (r: Result<u8, Self::Error>)
        ensures
            final (self).address == old(self).address,
            r matches Ok(b) ==> final (self).i2c.log() == old(self).i2c.log().push(
                I2cEvent::WriteRead {
                    address: old(self).address,
                    written: spec_i2c_read_frame(register),
                    received: seq![b],
                },
            ),
            r matches Err(e) ==> e is Comm && final (self).i2c.log() == old(self).i2c.log(),
    {
        let mut buf: Vec<u8> = Vec::new();
        buf.push(0);
        let frame = i2c_read_frame(register);
        match self.i2c.write_read(self.address, frame.as_slice(), &mut buf) {
            Ok(()) => {
                let b = buf[0];
                proof {
                    assert(buf@ =~= seq![b]);
                }
                Ok(b)
            },
            Err(e) => Err(Error::Comm(e)),
        }
    }
}

impl<SPI: SpiBus, CS: ChipSelect> WriteData for SpiInterface<SPI, CS> {
    type Error = Error<SPI::BusError, CS::PinError>;

    fn write(&mut self, payload: &mut Vec<u8>) -> (r: Result<(), Self::Error>)
        ensures
            final (payload)@ == old(payload)@.update(
                0,
                old(payload)@[0] | SPI_WRITE_MARK,
            ),
            r is Ok ==> spi_txn_complete(
                *old(self),
                *final (self),
                SpiEvent::Write { data: final (payload)@ },
            ),
            r matches Err(e) ==> match e {
                Error::Comm(_) => spi_txn_transfer_failed(*old(self), *final (self)),
                Error::Cs(_) => spi_txn_select_failed(*old(self), *final (self))
                    || spi_txn_release_failed(
                    *old(self),
                    *final (self),
                    SpiEvent::Write { data: final (payload)@ },
                ),
            },
            final (self).cs.is_high() || (r matches Err(e) && e is Cs),
    {
        let tagged = payload[0] | SPI_WRITE_MARK;
        payload[0] = tagged;
        match self.cs.set_low() {
            Ok(()) => {},
            Err(e) => {
                return Err(Error::Cs(e));
            },
        }
        let res = self.spi.write(payload.as_slice());
        match self.cs.set_high() {
            Ok(()) => {},
            Err(e) => {
                return Err(Error::Cs(e));
            },
        }
        proof {
            assert(old(self).cs.history().push(false).push(true) =~= old(self).cs.history()
                + seq![false, true]);
        }
        match res {
            Ok(()) => Ok(()),
            Err(e) => Err(Error::Comm(e)),
        }
    }

    fn write_reg(&mut self, register: u8, data: u8) -> (r: Result<(), Self::Error>)
        ensures
            r is Ok ==> spi_txn_complete(
                *old(self),
                *final (self),
                SpiEvent::Write { data: spec_spi_write_frame(register, data) },
            ),
            r matches Err(e) ==> match e {
                Error::Comm(_) => spi_txn_transfer_failed(*old(self), *final (self)),
                Error::Cs(_) => spi_txn_select_failed(*old(self), *final (self))
                    || spi_txn_release_failed(
                    *old(self),
                    *final (self),
                    SpiEvent::Write { data: spec_spi_write_frame(register, data) },
                ),
            },
            final (self).cs.is_high() || (r matches Err(e) && e is Cs),
    {
        let frame = spi_write_frame(register, data);
        match self.cs.set_low() {
            Ok(()) => {},
            Err(e) => {
                return Err(Error::Cs(e));
            },
        }
        let res = self.spi.write(frame.as_slice());
        match self.cs.set_high() {
            Ok(()) => {},
            Err(e) => {
                return Err(Error::Cs(e));
            },
        }
        proof {
            assert(old(self).cs.history().push(false).push(true) =~= old(self).cs.history()
                + seq![false, true]);
        }
        match res {
            Ok(()) => Ok(()),
            Err(e) => Err(Error::Comm(e)),
        }
    }
}

impl<SPI: SpiBus, CS: ChipSelect> ReadData for SpiInterface<SPI, CS> {
    type Error = Error<SPI::BusError, CS::PinError>;

    fn read(&mut self, payload: &mut Vec<u8>) -> (r: Result<(), Self::Error>)
        ensures
            final (payload)@.len() == old(payload)@.len(),
            r is Ok ==> spi_txn_complete(
                *old(self),
                *final (self),
                SpiEvent::Read { data: final (payload)@ },
            ),
            r matches Err(e) ==> match e {
                Error::Comm(_) => spi_txn_transfer_failed(*old(self), *final (self)),
                Error::Cs(_) => spi_txn_select_failed(*old(self), *final (self))
                    || spi_txn_release_failed(
                    *old(self),
                    *final (self),
                    SpiEvent::Read { data: final (payload)@ },
                ),
            },
            final (self).cs.is_high() || (r matches Err(e) && e is Cs),
    {
        match self.cs.set_low() {
            Ok(()) => {},
            Err(e) => {
                return Err(Error::Cs(e));
            },
        }
        let res = self.spi.read(payload);
        match self.cs.set_high() {
            Ok(()) => {},
            Err(e) => {
                return Err(Error::Cs(e));
            },
        }
        proof {
            assert(old(self).cs.history().push(false).push(true) =~= old(self).cs.history()
                + seq![false, true]);
        }
        match res {
            Ok(()) => Ok(()),
            Err(e) => Err(Error::Comm(e)),
        }
    }

    fn read_reg(&mut self, register: u8) -> (r: Result<u8, Self::Error>)
        ensures
            r matches Ok(b) ==> exists|miso: Seq<u8>|
                miso.len() == 2 && b == miso[1] && #[trigger] spi_txn_complete(
                    *old(self),
                    *final (self),
                    SpiEvent::Transfer { mosi: spec_spi_read_frame(register), miso },
                ),
            r matches Err(e) ==> match e {
                Error::Comm(_) => spi_txn_transfer_failed(*old(self), *final (self)),
                Error::Cs(_) => spi_txn_select_failed(*old(self), *final (self)) || exists|
                    miso: Seq<u8>,
                |
                    #[trigger] spi_txn_release_failed(
                        *old(self),
                        *final (self),
                        SpiEvent::Transfer { mosi: spec_spi_read_frame(register), miso },
                    ),
            },
            final (self).cs.is_high() || (r matches Err(e) && e is Cs),
    {
        let frame = spi_read_frame(register);
        let mut rxbuf: Vec<u8> = Vec::new();
        rxbuf.push(0);
        rxbuf.push(0);
        match self.cs.set_low() {
            Ok(()) => {},
            Err(e) => {
                return Err(Error::Cs(e));
            },
        }
        let res = self.spi.transfer(frame.as_slice(), &mut rxbuf);
        match self.cs.set_high() {
            Ok(()) => {},
            Err(e) => {
                proof {
                    assert(spi_txn_release_failed(
                        *old(self),
                        *self,
                        SpiEvent::Transfer { mosi: spec_spi_read_frame(register), miso: rxbuf@ },
                    ));
                }
                return Err(Error::Cs(e));
            },
        }
        proof {
            assert(old(self).cs.history().push(false).push(true) =~= old(self).cs.history()
                + seq![false, true]);
        }
        match res {
            Ok(()) => {
                proof {
                    assert(spi_txn_complete(
                        *old(self),
                        *self,
                        SpiEvent::Transfer { mosi: spec_spi_read_frame(register), miso: rxbuf@ },
                    ));
                }
                Ok(rxbuf[1])
            },
            Err(e) => Err(Error::Comm(e)),
        }
    }
}

} // verus!
