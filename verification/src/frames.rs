//! Framing rules, stated once as pure data: which bytes each bus variant
//! puts on the wire for a register operation. Every execution model of the
//! interface draws its wire bytes from these functions, so two models that
//! run the same operations transmit identical byte sequences.

use vstd::prelude::*;

verus! {

/// Most-significant bit of the register byte: on the chip-select bus a set
/// bit marks a write, a clear bit marks a read.
pub const SPI_WRITE_MARK: u8 = 0x80;

/// Bytes a register write puts on the chip-select bus: the register with
/// the write mark set, then the value.
pub open spec fn spec_spi_write_frame(register: u8, value: u8) -> Seq<u8> {
    seq![register | SPI_WRITE_MARK, value]
}

/// Bytes a register read clocks out on the chip-select bus: the register
/// with the write mark clear, then one dummy byte while the response is
/// clocked in.
pub open spec fn spec_spi_read_frame(register: u8) -> Seq<u8> {
    seq![register, 0u8]
}

/// Bytes a register write sends on the addressed bus: register then value,
/// with no bit transformation.
pub open spec fn spec_i2c_write_frame(register: u8, value: u8) -> Seq<u8> {
    seq![register, value]
}

/// Bytes the write half of an addressed-bus register read sends: the bare
/// register byte.
pub open spec fn spec_i2c_read_frame(register: u8) -> Seq<u8> {
    seq![register]
}

/// Builds the chip-select write frame.
pub fn spi_write_frame(register: u8, value: u8) -> (r: Vec<u8>)
    ensures
        r@ == spec_spi_write_frame(register, value),
{
    let mut frame: Vec<u8> = Vec::new();
    frame.push(register | SPI_WRITE_MARK);
    frame.push(value);
    proof {
        assert(frame@ =~= spec_spi_write_frame(register, value));
    }
    frame
}

/// Builds the chip-select read frame.
pub fn spi_read_frame(register: u8) -> (r: Vec<u8>)
    ensures
        r@ == spec_spi_read_frame(register),
{
    let mut frame: Vec<u8> = Vec::new();
    frame.push(register);
    frame.push(0);
    proof {
        assert(frame@ =~= spec_spi_read_frame(register));
    }
    frame
}

/// Builds the addressed-bus write frame.
pub fn i2c_write_frame(register: u8, value: u8) -> (r: Vec<u8>)
    ensures
        r@ == spec_i2c_write_frame(register, value),
{
    let mut frame: Vec<u8> = Vec::new();
    frame.push(register);
    frame.push(value);
    proof {
        assert(frame@ =~= spec_i2c_write_frame(register, value));
    }
    frame
}

/// Builds the write half of an addressed-bus register read.
pub fn i2c_read_frame(register: u8) -> (r: Vec<u8>)
    ensures
        r@ == spec_i2c_read_frame(register),
{
    let mut frame: Vec<u8> = Vec::new();
    frame.push(register);
    proof {
        assert(frame@ =~= spec_i2c_read_frame(register));
    }
    frame
}

} // verus!
