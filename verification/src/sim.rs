//! In-memory implementations of the bus traits. They record every
//! transaction, answer reads from a programmable response sequence, and can
//! be told to fail, which is how the error paths of the adapters are
//! exercised.

use crate::bus::ChipSelect;
use crate::bus::I2cBus;
use crate::bus::I2cEvent;
use crate::bus::SpiBus;
use crate::bus::SpiEvent;
use vstd::prelude::*;

verus! {

/// Error code a simulated bus returns when told to fail.
pub const SIM_BUS_FAULT: u8 = 0xee;

/// Error code a simulated pin returns when told to fail.
pub const SIM_PIN_FAULT: u8 = 0xef;

/// Copies a byte slice into an owned vector.
fn copy_bytes(data: &[u8]) -> (r: Vec<u8>)
    ensures
        r@ == data@,
{
    let mut out: Vec<u8> = Vec::new();
    let mut i: usize = 0;
    while i < data.len()
        invariant
            i <= data@.len(),
            out@ =~= data@.subrange(0, i as int),
        decreases data@.len() - i,
    {
        out.push(data[i]);
        i += 1;
    }
    proof {
        assert(out@ =~= data@);
    }
    out
}

/// The byte a simulated bus answers at position `k` of one transaction:
/// taken from its response sequence, zero past its end.
pub open spec fn sim_response_at(responses: Seq<u8>, k: int) -> u8 {
    if 0 <= k < responses.len() {
        responses[k]
    } else {
        0
    }
}

/// Fills `buffer` from `responses`, zero past their end.
fn fill_from(responses: &Vec<u8>, buffer: &mut Vec<u8>)
    ensures
        final (buffer)@.len() == old(buffer)@.len(),
        forall|k: int|
            0 <= k < final (buffer)@.len() ==> final (buffer)@[k] == sim_response_at(
                responses@,
                k,
            ),
{
    let n = buffer.len();
    let mut i: usize = 0;
    while i < n
        invariant
            i <= n,
            buffer@.len() == n,
            forall|k: int| 0 <= k < i ==> buffer@[k] == sim_response_at(responses@, k),
        decreases n - i,
    {
        let b = if i < responses.len() {
            responses[i]
        } else {
            0
        };
        buffer[i] = b;
        i += 1;
    }
}

/// One recorded transaction of the simulated addressed bus.
#[derive(Debug, Clone, PartialEq, Eq)]
pub enum SimI2cOp {
    /// A plain write.
    Write { address: u8, data: Vec<u8> },
    /// A combined write-then-read.
    WriteRead { address: u8, written: Vec<u8>, received: Vec<u8> },
}

impl SimI2cOp {
    /// The wire event this record stands for.
    pub open spec fn ev(&self) -> I2cEvent {
        match self {
            SimI2cOp::Write { address, data } => I2cEvent::Write {
                address: *address,
                data: data@,
            },
            SimI2cOp::WriteRead { address, written, received } => I2cEvent::WriteRead {
                address: *address,
                written: written@,
                received: received@,
            },
        }
    }
}

/// A simulated addressed bus: records transactions, answers reads from
/// `responses` (one byte per position, zero past its end) and fails every
/// transaction while `fail` is set.
pub struct SimI2cBus {
    /// Completed transactions, oldest first.
    pub ops: Vec<SimI2cOp>,
    /// Bytes handed back on reads, by position within one transaction.
    pub responses: Vec<u8>,
    /// When true, every transaction fails with `SIM_BUS_FAULT`.
    pub fail: bool,
}

impl SimI2cBus {
    /// A healthy bus with no history that answers reads with `responses`.
    pub fn new(responses: Vec<u8>) -> (r: SimI2cBus)
        ensures
            r.log() == Seq::<I2cEvent>::empty(),
            r.responses == responses,
            !r.fail,
    {
        let r = SimI2cBus { ops: Vec::new(), responses, fail: false };
        proof {
            assert(r.log() =~= Seq::<I2cEvent>::empty());
        }
        r
    }
}

impl I2cBus for SimI2cBus {
    type BusError = u8;

    open spec fn log(&self) -> Seq<I2cEvent> {
        self.ops@.map_values(|op: SimI2cOp| op.ev())
    }

    fn write(&mut self, address: u8, data: &[u8]) -> (r: Result<(), u8>)
        ensures
            r is Ok <==> !old(self).fail,
            r matches Err(c) ==> c == SIM_BUS_FAULT,
            final (self).fail == old(self).fail,
            final (self).responses == old(self).responses,
    {
        if self.fail {
            Err(SIM_BUS_FAULT)
        } else {
            let copied = copy_bytes(data);
            self.ops.push(SimI2cOp::Write { address, data: copied });
            proof {
                assert(self.log() =~= old(self).log().push(
                    I2cEvent::Write { address, data: data@ },
                ));
            }
            Ok(())
        }
    }

    fn write_read(&mut self, address: u8, data: &[u8], buffer: &mut Vec<u8>) -> (r: Result<
        (),
        u8,
    >)
        ensures
            r is Ok <==> !old(self).fail,
            r matches Err(c) ==> c == SIM_BUS_FAULT,
            final (self).fail == old(self).fail,
            final (self).responses == old(self).responses,
            r is Ok ==> forall|k: int|
                0 <= k < final (buffer)@.len() ==> final (buffer)@[k] == sim_response_at(
                    old(self).responses@,
                    k,
                ),
    {
        if self.fail {
            return Err(SIM_BUS_FAULT);
        }
        fill_from(&self.responses, buffer);
        let written = copy_bytes(data);
        let received = copy_bytes(buffer.as_slice());
        self.ops.push(SimI2cOp::WriteRead { address, written, received });
        proof {
            assert(self.log() =~= old(self).log().push(
                I2cEvent::WriteRead { address, written: data@, received: buffer@ },
            ));
        }
        Ok(())
    }
}

/// One recorded transfer of the simulated chip-select bus.
#[derive(Debug, Clone, PartialEq, Eq)]
pub enum SimSpiOp {
    /// Bytes shifted out, response discarded.
    Write { data: Vec<u8> },
    /// Bytes shifted in.
    Read { data: Vec<u8> },
    /// Full duplex: `mosi` out, `miso` back.
    Transfer { mosi: Vec<u8>, miso: Vec<u8> },
}

impl SimSpiOp {
    /// The wire event this record stands for.
    pub open spec fn ev(&self) -> SpiEvent {
        match self {
            SimSpiOp::Write { data } => SpiEvent::Write { data: data@ },
            SimSpiOp::Read { data } => SpiEvent::Read { data: data@ },
            SimSpiOp::Transfer { mosi, miso } => SpiEvent::Transfer {
                mosi: mosi@,
                miso: miso@,
            },
        }
    }
}

/// A simulated full-duplex bus: records transfers, answers reads from
/// `responses` (one byte per position, zero past its end) and fails every
/// transfer while `fail` is set.
pub struct SimSpiBus {
    /// Completed transfers, oldest first.
    pub ops: Vec<SimSpiOp>,
    /// Bytes clocked back in, by position within one transfer.
    pub responses: Vec<u8>,
    /// When true, every transfer fails with `SIM_BUS_FAULT`.
    pub fail: bool,
}

impl SimSpiBus {
    /// A healthy bus with no history that clocks back `responses`.
    pub fn new(responses: Vec<u8>) -> (r: SimSpiBus)
        ensures
            r.log() == Seq::<SpiEvent>::empty(),
            r.responses == responses,
            !r.fail,
    {
        let r = SimSpiBus { ops: Vec::new(), responses, fail: false };
        proof {
            assert(r.log() =~= Seq::<SpiEvent>::empty());
        }
        r
    }

}

impl SpiBus for SimSpiBus {
    type BusError = u8;

    open spec fn log(&self) -> Seq<SpiEvent> {
        self.ops@.map_values(|op: SimSpiOp| op.ev())
    }

    fn write(&mut self, data: &[u8]) -> (r: Result<(), u8>)
        ensures
            r is Ok <==> !old(self).fail,
            r matches Err(c) ==> c == SIM_BUS_FAULT,
            final (self).fail == old(self).fail,
            final (self).responses == old(self).responses,
    {
        if self.fail {
            Err(SIM_BUS_FAULT)
        } else {
            let copied = copy_bytes(data);
            self.ops.push(SimSpiOp::Write { data: copied });
            proof {
                assert(self.log() =~= old(self).log().push(SpiEvent::Write { data: data@ }));
            }
            Ok(())
        }
    }

    fn read(&mut self, buffer: &mut Vec<u8>) -> (r: Result<(), u8>)
        ensures
            r is Ok <==> !old(self).fail,
            r matches Err(c) ==> c == SIM_BUS_FAULT,
            final (self).fail == old(self).fail,
            final (self).responses == old(self).responses,
            r is Ok ==> forall|k: int|
                0 <= k < final (buffer)@.len() ==> final (buffer)@[k] == sim_response_at(
                    old(self).responses@,
                    k,
                ),
    {
        if self.fail {
            return Err(SIM_BUS_FAULT);
        }
        fill_from(&self.responses, buffer);
        let data = copy_bytes(buffer.as_slice());
        self.ops.push(SimSpiOp::Read { data });
        proof {
            assert(self.log() =~= old(self).log().push(SpiEvent::Read { data: buffer@ }));
        }
        Ok(())
    }

    fn transfer(&mut self, tx: &[u8], rx: &mut Vec<u8>) -> (r: Result<(), u8>)
        ensures
            r is Ok <==> !old(self).fail,
            r matches Err(c) ==> c == SIM_BUS_FAULT,
            final (self).fail == old(self).fail,
            final (self).responses == old(self).responses,
            r is Ok ==> forall|k: int|
                0 <= k < final (rx)@.len() ==> final (rx)@[k] == sim_response_at(
                    old(self).responses@,
                    k,
                ),
    {
        if self.fail {
            return Err(SIM_BUS_FAULT);
        }
        fill_from(&self.responses, rx);
        let mosi = copy_bytes(tx);
        let miso = copy_bytes(rx.as_slice());
        self.ops.push(SimSpiOp::Transfer { mosi, miso });
        proof {
            assert(self.log() =~= old(self).log().push(
                SpiEvent::Transfer { mosi: tx@, miso: rx@ },
            ));
        }
        Ok(())
    }
}

/// An in-memory chip-select line. Starts high (deselected); each
/// successful drive is recorded. Either direction can be told to fail.
pub struct SimPin {
    /// Current level: true is high.
    pub high: bool,
    /// Levels successfully driven, oldest first.
    pub driven: Vec<bool>,
    /// When true, driving low fails.
    pub fail_low: bool,
    /// When true, driving high fails.
    pub fail_high: bool,
}

impl SimPin {
    /// A healthy line, idle high, with no history.
    pub fn new() -> (r: SimPin)
        ensures
            r.is_high(),
            r.history() == Seq::<bool>::empty(),
            !r.fail_low,
            !r.fail_high,
    {
        SimPin { high: true, driven: Vec::new(), fail_low: false, fail_high: false }
    }
}

impl ChipSelect for SimPin {
    type PinError = u8;

    open spec fn is_high(&self) -> bool {
        self.high
    }

    open spec fn history(&self) -> Seq<bool> {
        self.driven@
    }

    fn set_low(&mut self) -> (r: Result<(), u8>)
        ensures
            r is Ok <==> !old(self).fail_low,
            r matches Err(c) ==> c == SIM_PIN_FAULT,
            final (self).fail_low == old(self).fail_low,
            final (self).fail_high == old(self).fail_high,
    {
        if self.fail_low {
            Err(SIM_PIN_FAULT)
        } else {
            self.high = false;
            self.driven.push(false);
            Ok(())
        }
    }

    fn set_high(&mut self) -> (r: Result<(), u8>)
        ensures
            r is Ok <==> !old(self).fail_high,
            r matches Err(c) ==> c == SIM_PIN_FAULT,
            final (self).fail_low == old(self).fail_low,
            final (self).fail_high == old(self).fail_high,
    {
        if self.fail_high {
            Err(SIM_PIN_FAULT)
        } else {
            self.high = true;
            self.driven.push(true);
            Ok(())
        }
    }
}

} // verus!
