//! The error model of the core drivers and the layers above them.

use vstd::prelude::*;

use crate::armv7a::Armv7aError;
use crate::probe::DebugProbeError;
use crate::sequences::ArmDebugSequenceError;

verus! {

/// Architecture-specific failures, wrapping the originating condition.
#[derive(Debug, Clone, Copy, PartialEq, Eq, Structural)]
pub enum ArchitectureError {
    /// An ARMv7-A condition.
    Armv7a(Armv7aError),
    /// A debug-sequence condition.
    Sequence(ArmDebugSequenceError),
    /// A hardware breakpoint cannot be set at this address: the Cortex-M
    /// breakpoint unit only covers code memory below 0x2000_0000.
    UnsupportedBreakpointAddress(u32),
    /// A breakpoint comparator holds a match kind the driver does not
    /// support; breakpoints must sit on half-word boundaries.
    UnsupportedBreakpointComparator(u32),
}

/// The error type of core and flash operations.
#[derive(Debug, Clone, Copy, PartialEq, Eq, Structural)]
pub enum Error {
    /// A probe-level failure.
    Probe(DebugProbeError),
    /// An architecture-specific failure.
    ArchitectureSpecific(ArchitectureError),
    /// All hardware breakpoint units are occupied.
    NoAvailableBreakpointUnits,
    /// No hardware breakpoint is set at the given address.
    NoBreakpointAtAddress(u32),
    /// The core's architecture does not match the requested operation.
    UnsupportedCore,
}

} // verus!
