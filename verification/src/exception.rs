//! The exception taxonomy of the processor.

use vstd::prelude::*;

verus! {

/// A fault condition that an instruction or a fetch can signal.
///
/// Operations that can fault return the exception kind to the cycle driver;
/// how an exception is serviced (vectoring to a handler) is the host's
/// concern, not this core's.
#[derive(Debug, Clone, Copy, PartialEq, Eq, Structural)]
pub enum Exception {
    Reset,
    BusError,
    AddressError,
    Overflow,
    SystemCall,
    Breakpoint,
    ReservedInstruction,
    CoprocessorUnusable,
    Interrupt,
    Debug,
}

} // verus!
