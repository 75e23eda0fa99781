//! Models of the upstream bus primitives the interface layer is built on:
//! an addressed-transaction bus, a full-duplex transfer bus, and a digital
//! output line for chip select. Each trait carries a ghost log of the
//! transactions completed so far, so the interface contracts can pin down
//! exactly what reaches the wire. The hardware adapters of a target system
//! implement these traits; `crate::sim` holds in-memory implementations.

use vstd::prelude::*;

verus! {

/// One completed transaction on the addressed bus, as seen on the wire.
pub ghost enum I2cEvent {
    /// `data` was written to the device at `address`.
    Write { address: u8, data: Seq<u8> },
    /// `written` was sent to `address`, then `received` was read back,
    /// in one combined transaction.
    WriteRead { address: u8, written: Seq<u8>, received: Seq<u8> },
}

/// One completed transfer on the chip-select bus, as seen on the wire.
pub ghost enum SpiEvent {
    /// `data` was shifted out; what came back was discarded.
    Write { data: Seq<u8> },
    /// `data` was shifted in; the outgoing bytes carried no information.
    Read { data: Seq<u8> },
    /// Full duplex: `mosi` was shifted out while `miso` came back.
    Transfer { mosi: Seq<u8>, miso: Seq<u8> },
}

/// An addressed-transaction bus. `log` records the completed transactions,
/// oldest first; a failed transaction completes nothing and leaves the log
/// as it was.
pub trait I2cBus: Sized {
    type BusError;

    /// Completed transactions, oldest first.
    spec fn log(&self) -> Seq<I2cEvent>;

    /// Writes `data` to the device at `address` in one transaction.
    fn write(&mut self, address: u8, data: &[u8]) -> (r: Result<(), Self::BusError>)
        ensures
            r is Ok ==> final (self).log() == old(self).log().push(
                I2cEvent::Write { address, data: data@ },
            ),
            r is Err ==> final (self).log() == old(self).log(),
    ;

    /// Writes `data` to the device at `address`, then reads back as many
    /// bytes as `buffer` holds, in one combined transaction.
    fn write_read(&mut self, address: u8, data: &[u8], buffer: &mut Vec<u8>) -> (r: Result<
        (),
        Self::BusError,
    >)
        ensures
            final (buffer)@.len() == old(buffer)@.len(),
            r is Ok ==> final (self).log() == old(self).log().push(
                I2cEvent::WriteRead { address, written: data@, received: final (buffer)@ },
            ),
            r is Err ==> final (self).log() == old(self).log(),
    ;
}

/// A full-duplex transfer bus. `log` records the completed transfers,
/// oldest first; a failed transfer completes nothing and leaves the log
/// as it was.
pub trait SpiBus: Sized {
    type BusError;

    /// Completed transfers, oldest first.
    spec fn log(&self) -> Seq<SpiEvent>;

    /// Shifts `data` out, discarding whatever comes back.
    fn write(&mut self, data: &[u8]) -> (r: Result<(), Self::BusError>)
        ensures
            r is Ok ==> final (self).log() == old(self).log().push(
                SpiEvent::Write { data: data@ },
            ),
            r is Err ==> final (self).log() == old(self).log(),
    ;

    /// Shifts bytes in until `buffer` is full.
    fn read(&mut self, buffer: &mut Vec<u8>) -> (r: Result<(), Self::BusError>)
        ensures
            final (buffer)@.len() == old(buffer)@.len(),
            r is Ok ==> final (self).log() == old(self).log().push(
                SpiEvent::Read { data: final (buffer)@ },
            ),
            r is Err ==> final (self).log() == old(self).log(),
    ;

    /// Shifts `tx` out while filling `rx` with what comes back.
    fn transfer(&mut self, tx: &[u8], rx: &mut Vec<u8>) -> (r: Result<(), Self::BusError>)
        ensures
            final (rx)@.len() == old(rx)@.len(),
            r is Ok ==> final (self).log() == old(self).log().push(
                SpiEvent::Transfer { mosi: tx@, miso: final (rx)@ },
            ),
            r is Err ==> final (self).log() == old(self).log(),
    ;
}

/// A digital output line used as an active-low chip select. `is_high` is
/// the level the line is driven to; `history` records the levels
/// successfully driven, oldest first. A failed drive leaves both as they
/// were.
pub trait ChipSelect: Sized {
    type PinError;

    /// Current logic level: true is high (device deselected).
    spec fn is_high(&self) -> bool;

    /// Levels successfully driven so far, oldest first.
    spec fn history(&self) -> Seq<bool>;

    /// Drives the line low, selecting the device.
    fn set_low(&mut self) -> (r: Result<(), Self::PinError>)
        ensures
            r is Ok ==> !final (self).is_high() && final (self).history() == old(
                self,
            ).history().push(false),
            r is Err ==> final (self).is_high() == old(self).is_high() && final (self).history()
                == old(self).history(),
    ;

    /// Drives the line high, deselecting the device.
    fn set_high(&mut self) -> (r: Result<(), Self::PinError>)
        ensures
            r is Ok ==> final (self).is_high() && final (self).history() == old(
                self,
            ).history().push(true),
            r is Err ==> final (self).is_high() == old(self).is_high() && final (self).history()
                == old(self).history(),
    ;
}

} // verus!
