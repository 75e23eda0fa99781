//! The two-kind error model: transport faults and chip-select faults are
//! kept apart, because recovery differs (a chip-select fault points at
//! wiring or pin configuration; a transport fault may be transient noise).

use vstd::prelude::*;

verus! {

/// Error of one register access, generic over the underlying bus error
/// `CommE` and the chip-select pin error `CsE` so no information is lost.
#[derive(Debug, Clone, Copy, PartialEq, Eq)]
pub enum Error<CommE, CsE> {
    /// The bus transfer itself failed.
    Comm(CommE),
    /// Driving the chip-select line failed.
    Cs(CsE),
}

} // verus!
