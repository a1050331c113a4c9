//! Register types and the core driver for ARMv6-M (Cortex-M0, M0+, M1).
//!
//! The debug registers live in the System Control Space; every write to
//! DHCSR must carry the debug key 0xA05F in its upper half, else the
//! hardware silently drops it, and every write to AIRCR must carry the
//! vector key 0x05FA.  The write helpers here demand the key by contract.

use vstd::prelude::*;

use crate::cores::{CoreStatus, HaltReason, State};
use crate::error::{ArchitectureError, Error};
use crate::family::{Architecture, CoreType, InstructionSet};
use crate::memory::ArmProbe;
use crate::probe::DebugProbeError;
use crate::registers::{
    arm_register_file, CoreInformation, CoreRegister, CoreRegisterAddress, RegisterFile,
};

verus! {

/// Address of the Debug Halting Control and Status Register.
pub const DHCSR_ADDRESS: u32 = 0xE000_EDF0;

/// Address of the Debug Core Register Data Register.
pub const DCRDR_ADDRESS: u32 = 0xE000_EDF8;

/// Address of the Debug Fault Status Register.
pub const DFSR_ADDRESS: u32 = 0xE000_ED30;

/// Address of the Application Interrupt and Reset Control Register.
pub const AIRCR_ADDRESS: u32 = 0xE000_ED0C;

/// Address of the Debug Exception and Monitor Control Register.
pub const DEMCR_ADDRESS: u32 = 0xE000_EDFC;

/// Address of the Breakpoint Control register.
pub const BP_CTRL_ADDRESS: u32 = 0xE000_2000;

/// Address of the first Breakpoint Comparator register.
pub const BP_COMP_ADDRESS: u32 = 0xE000_2008;

/// The program counter's register number.
pub const PC_REGISTER: u16 = 15;

/// The XPSR's register number.
pub const XPSR_REGISTER: u16 = 16;

/// Debug Halting Control and Status Register.  To write it successfully
/// the debug key must be set via [`Dhcsr::enable_write`] first.
#[derive(Debug, Clone, Copy, PartialEq, Eq, Structural)]
pub struct Dhcsr(pub u32);

impl Dhcsr {
    /// Sticky flag: the processor has been reset since the last read.
    pub fn s_reset_st(&self) -> (r: bool)
        ensures
            r == ((self.0 >> 25) & 1 == 1),
    {
        (self.0 >> 25) & 1 == 1
    }

    /// The processor is locked up on an unrecoverable exception.
    pub fn s_lockup(&self) -> (r: bool)
        ensures
            r == ((self.0 >> 19) & 1 == 1),
    {
        (self.0 >> 19) & 1 == 1
    }

    /// The processor is sleeping.
    pub fn s_sleep(&self) -> (r: bool)
        ensures
            r == ((self.0 >> 18) & 1 == 1),
    {
        (self.0 >> 18) & 1 == 1
    }

    /// The processor is in Debug state.
    pub fn s_halt(&self) -> (r: bool)
        ensures
            r == ((self.0 >> 17) & 1 == 1),
    {
        (self.0 >> 17) & 1 == 1
    }

    /// Handshake flag for DCRDR transfers.
    pub fn s_regrdy(&self) -> (r: bool)
        ensures
            r == ((self.0 >> 16) & 1 == 1),
    {
        (self.0 >> 16) & 1 == 1
    }

    /// Halting debug is enabled.
    pub fn c_debugen(&self) -> (r: bool)
        ensures
            r == (self.0 & 1 == 1),
    {
        self.0 & 1 == 1
    }

    /// Mask PendSV, SysTick and external configurable interrupts.
    pub fn set_c_maskints(&mut self, b: bool)
        ensures
            final(self).0 == (if b {
                old(self).0 | 0x8u32
            } else {
                old(self).0 & !0x8u32
            }),
    {
        self.0 = if b {
            self.0 | 0x8u32
        } else {
            self.0 & !0x8u32
        };
    }

    /// Request a single instruction step.
    pub fn set_c_step(&mut self, b: bool)
        ensures
            final(self).0 == (if b {
                old(self).0 | 0x4u32
            } else {
                old(self).0 & !0x4u32
            }),
    {
        self.0 = if b {
            self.0 | 0x4u32
        } else {
            self.0 & !0x4u32
        };
    }

    /// Request the processor to halt (1) or run (0).
    pub fn set_c_halt(&mut self, b: bool)
        ensures
            final(self).0 == (if b {
                old(self).0 | 0x2u32
            } else {
                old(self).0 & !0x2u32
            }),
    {
        self.0 = if b {
            self.0 | 0x2u32
        } else {
            self.0 & !0x2u32
        };
    }

    /// Enable halting debug.
    pub fn set_c_debugen(&mut self, b: bool)
        ensures
            final(self).0 == (if b {
                old(self).0 | 0x1u32
            } else {
                old(self).0 & !0x1u32
            }),
    {
        self.0 = if b {
            self.0 | 0x1u32
        } else {
            self.0 & !0x1u32
        };
    }

    /// The debug key stands in the upper half, so the hardware will accept
    /// a write of this value.
    pub open spec fn write_enabled(self) -> bool {
        self.0 >> 16 == 0xA05F
    }

    /// Set the debug key, enabling writes of this register.
    pub fn enable_write(&mut self)
        ensures
            final(self).0 == (old(self).0 & 0x0000_FFFF) | 0xA05F_0000,
            final(self).write_enabled(),
    {
        self.0 = (self.0 & 0x0000_FFFF) | 0xA05F_0000;
        proof {
            assert(forall|v: u32| ((v & 0x0000_FFFF) | 0xA05F_0000) >> 16 == 0xA05F)
                by (bit_vector);
        }
    }
}

/// Debug Core Register Data Register.
#[derive(Debug, Clone, Copy, PartialEq, Eq, Structural)]
pub struct Dcrdr(pub u32);

impl CoreRegister for Dhcsr {
    fn address() -> (r: u32)
        ensures
            r == DHCSR_ADDRESS,
    {
        DHCSR_ADDRESS
    }

    fn name() -> (r: &'static str) {
        "DHCSR"
    }
}

impl CoreRegister for Dcrdr {
    fn address() -> (r: u32)
        ensures
            r == DCRDR_ADDRESS,
    {
        DCRDR_ADDRESS
    }

    fn name() -> (r: &'static str) {
        "DCRDR"
    }
}

/// Breakpoint Control register: implementation information and the global
/// enable for the breakpoint unit.
#[derive(Debug, Clone, Copy, PartialEq, Eq, Structural)]
pub struct BpCtrl(pub u32);

impl BpCtrl {
    /// The number of breakpoint comparators.
    pub fn num_code(&self) -> (r: u32)
        ensures
            r == (self.0 >> 4) & 0xF,
    {
        (self.0 >> 4) & 0xF
    }

    /// The key bit: writes are ignored unless it is set.
    pub fn set_key(&mut self, b: bool)
        ensures
            final(self).0 == (if b {
                old(self).0 | 0x2u32
            } else {
                old(self).0 & !0x2u32
            }),
    {
        self.0 = if b {
            self.0 | 0x2u32
        } else {
            self.0 & !0x2u32
        };
    }

    /// Enable or disable the breakpoint unit.
    pub fn set_enable(&mut self, b: bool)
        ensures
            final(self).0 == (if b {
                old(self).0 | 0x1u32
            } else {
                old(self).0 & !0x1u32
            }),
    {
        self.0 = if b {
            self.0 | 0x1u32
        } else {
            self.0 & !0x1u32
        };
    }
}

/// Breakpoint Comparator register: a comparison address for instruction
/// fetches from code memory, with a match kind for either half-word.
#[derive(Debug, Clone, Copy, PartialEq, Eq, Structural)]
pub struct BpCompx(pub u32);

impl BpCompx {
    /// The match kind: `01` lower half-word, `10` upper half-word.
    pub fn bp_match(&self) -> (r: u32)
        ensures
            r == (self.0 >> 30) & 0x3,
    {
        (self.0 >> 30) & 0x3
    }

    /// Set the match kind.
    pub fn set_bp_match(&mut self, x: u32)
        ensures
            final(self).0 == (old(self).0 & 0x3FFF_FFFF) | ((x & 0x3) << 30),
    {
        self.0 = (self.0 & 0x3FFF_FFFF) | ((x & 0x3) << 30);
    }

    /// Bits [28:2] of the comparison address.
    pub fn comp(&self) -> (r: u32)
        ensures
            r == (self.0 >> 2) & 0x07FF_FFFF,
    {
        (self.0 >> 2) & 0x07FF_FFFF
    }

    /// Set the comparison address bits.
    pub fn set_comp(&mut self, x: u32)
        ensures
            final(self).0 == (old(self).0 & 0xE000_0003) | ((x & 0x07FF_FFFF) << 2),
    {
        self.0 = (self.0 & 0xE000_0003) | ((x & 0x07FF_FFFF) << 2);
    }

    /// Whether the comparator is enabled.
    pub fn enable(&self) -> (r: bool)
        ensures
            r == (self.0 & 1 == 1),
    {
        self.0 & 1 == 1
    }

    /// Enable or disable the comparator.
    pub fn set_enable(&mut self, b: bool)
        ensures
            final(self).0 == (if b {
                old(self).0 | 0x1u32
            } else {
                old(self).0 & !0x1u32
            }),
    {
        self.0 = if b {
            self.0 | 0x1u32
        } else {
            self.0 & !0x1u32
        };
    }

    /// The breakpoint address a comparator value stands for, adjusted by
    /// its match kind; a match kind other than a single half-word is
    /// rejected.
    pub fn get_breakpoint_comparator(register_value: u32) -> (r: Result<u32, Error>)
        ensures
            (register_value >> 30) & 0x3 == 0b01 ==> r == Ok::<u32, Error>(
                ((register_value >> 2) & 0x07FF_FFFF) << 2,
            ),
            (register_value >> 30) & 0x3 == 0b10 ==> r == Ok::<u32, Error>(
                (((register_value >> 2) & 0x07FF_FFFF) << 2) | 0x2,
            ),
            (register_value >> 30) & 0x3 != 0b01 && (register_value >> 30) & 0x3 != 0b10 ==> r
                == Err::<u32, Error>(Error::ArchitectureSpecific(
                ArchitectureError::UnsupportedBreakpointComparator(register_value),
            )),
    {
        let bp_val = BpCompx(register_value);
        if bp_val.bp_match() == 0b01 {
            Ok(bp_val.comp() << 2)
        } else if bp_val.bp_match() == 0b10 {
            Ok((bp_val.comp() << 2) | 0x2)
        } else {
            Err(Error::ArchitectureSpecific(ArchitectureError::UnsupportedBreakpointComparator(
                register_value,
            )))
        }
    }
}

impl CoreRegister for BpCtrl {
    fn address() -> (r: u32)
        ensures
            r == BP_CTRL_ADDRESS,
    {
        BP_CTRL_ADDRESS
    }

    fn name() -> (r: &'static str) {
        "BP_CTRL"
    }
}

impl CoreRegister for BpCompx {
    fn address() -> (r: u32)
        ensures
            r == BP_COMP_ADDRESS,
    {
        BP_COMP_ADDRESS
    }

    fn name() -> (r: &'static str) {
        "BP_CTRL0"
    }
}

/// Application Interrupt and Reset Control Register.  [`Aircr::vectkey`]
/// must be called before the register can effectively be written.
#[derive(Debug, Clone, Copy, PartialEq, Eq, Structural)]
pub struct Aircr(pub u32);

impl Aircr {
    /// The vector key stands in the upper half, so the hardware will
    /// accept a write of this value.
    pub open spec fn vectkey_set(self) -> bool {
        self.0 >> 16 == 0x05FA
    }

    /// Set the vector key; must be called before writing the register.
    pub fn vectkey(&mut self)
        ensures
            final(self).0 == (old(self).0 & 0x0000_FFFF) | 0x05FA_0000,
            final(self).vectkey_set(),
    {
        self.0 = (self.0 & 0x0000_FFFF) | 0x05FA_0000;
        proof {
            assert(forall|v: u32| ((v & 0x0000_FFFF) | 0x05FA_0000) >> 16 == 0x05FA)
                by (bit_vector);
        }
    }

    /// Whether a value read back shows the vector key status.
    pub fn vectkeystat(&self) -> (r: bool)
        ensures
            r == (self.0 >> 16 == 0xFA05),
    {
        (self.0 >> 16) == 0xFA05
    }

    /// Request a system reset.
    pub fn set_sysresetreq(&mut self, b: bool)
        ensures
            final(self).0 == (if b {
                old(self).0 | 0x4u32
            } else {
                old(self).0 & !0x4u32
            }),
    {
        self.0 = if b {
            self.0 | 0x4u32
        } else {
            self.0 & !0x4u32
        };
    }
}

impl CoreRegister for Aircr {
    fn address() -> (r: u32)
        ensures
            r == AIRCR_ADDRESS,
    {
        AIRCR_ADDRESS
    }

    fn name() -> (r: &'static str) {
        "AIRCR"
    }
}

/// Debug Exception and Monitor Control Register.
#[derive(Debug, Clone, Copy, PartialEq, Eq, Structural)]
pub struct Demcr(pub u32);

impl CoreRegister for Demcr {
    fn address() -> (r: u32)
        ensures
            r == DEMCR_ADDRESS,
    {
        DEMCR_ADDRESS
    }

    fn name() -> (r: &'static str) {
        "DEMCR"
    }
}

impl Demcr {
    /// Reset vector catch: halt the core when it comes out of reset.
    pub fn vc_corereset(&self) -> (r: bool)
        ensures
            r == (self.0 & 1 == 1),
    {
        self.0 & 1 == 1
    }

    /// Enable or disable the reset vector catch.
    pub fn set_vc_corereset(&mut self, b: bool)
        ensures
            final(self).0 == (if b {
                old(self).0 | 0x1u32
            } else {
                old(self).0 & !0x1u32
            }),
    {
        self.0 = if b {
            self.0 | 0x1u32
        } else {
            self.0 & !0x1u32
        };
    }
}

/// Debug Fault Status Register: sticky flags recording why the core
/// halted.
#[derive(Debug, Clone, Copy, PartialEq, Eq, Structural)]
pub struct Dfsr(pub u32);

impl CoreRegister for Dfsr {
    fn address() -> (r: u32)
        ensures
            r == DFSR_ADDRESS,
    {
        DFSR_ADDRESS
    }

    fn name() -> (r: &'static str) {
        "DFSR"
    }
}

/// The halt reason encoded by a DFSR value: one flag maps to its reason,
/// several set flags to `Multiple`, none to `Unknown`.
pub open spec fn spec_dfsr_halt_reason(v: u32) -> HaltReason {
    let external = (v >> 4) & 1 == 1;
    let vcatch = (v >> 3) & 1 == 1;
    let dwttrap = (v >> 2) & 1 == 1;
    let bkpt = (v >> 1) & 1 == 1;
    let halted = v & 1 == 1;
    if !external && !vcatch && !dwttrap && !bkpt && !halted {
        HaltReason::Unknown
    } else if external && !vcatch && !dwttrap && !bkpt && !halted {
        HaltReason::External
    } else if !external && vcatch && !dwttrap && !bkpt && !halted {
        HaltReason::Exception
    } else if !external && !vcatch && dwttrap && !bkpt && !halted {
        HaltReason::Watchpoint
    } else if !external && !vcatch && !dwttrap && bkpt && !halted {
        HaltReason::Breakpoint
    } else if !external && !vcatch && !dwttrap && !bkpt && halted {
        HaltReason::Request
    } else {
        HaltReason::Multiple
    }
}

impl Dfsr {
    /// All sticky flags set, for clearing them by a write.
    pub fn clear_all() -> (r: Dfsr)
        ensures
            r.0 == 0b11111,
    {
        Dfsr(0b11111)
    }

    /// An external debug request halted the core.
    pub fn external(&self) -> (r: bool)
        ensures
            r == ((self.0 >> 4) & 1 == 1),
    {
        (self.0 >> 4) & 1 == 1
    }

    /// A vector catch halted the core.
    pub fn vcatch(&self) -> (r: bool)
        ensures
            r == ((self.0 >> 3) & 1 == 1),
    {
        (self.0 >> 3) & 1 == 1
    }

    /// A watchpoint halted the core.
    pub fn dwttrap(&self) -> (r: bool)
        ensures
            r == ((self.0 >> 2) & 1 == 1),
    {
        (self.0 >> 2) & 1 == 1
    }

    /// A breakpoint halted the core.
    pub fn bkpt(&self) -> (r: bool)
        ensures
            r == ((self.0 >> 1) & 1 == 1),
    {
        (self.0 >> 1) & 1 == 1
    }

    /// A halt request halted the core.
    pub fn halted(&self) -> (r: bool)
        ensures
            r == (self.0 & 1 == 1),
    {
        self.0 & 1 == 1
    }

    /// Decode the sticky flags into a halt reason.
    pub fn halt_reason(&self) -> (r: HaltReason)
        ensures
            r == spec_dfsr_halt_reason(self.0),
    {
        let external = self.external();
        let vcatch = self.vcatch();
        let dwttrap = self.dwttrap();
        let bkpt = self.bkpt();
        let halted = self.halted();
        if !external && !vcatch && !dwttrap && !bkpt && !halted {
            HaltReason::Unknown
        } else if external && !vcatch && !dwttrap && !bkpt && !halted {
            HaltReason::External
        } else if !external && vcatch && !dwttrap && !bkpt && !halted {
            HaltReason::Exception
        } else if !external && !vcatch && dwttrap && !bkpt && !halted {
            HaltReason::Watchpoint
        } else if !external && !vcatch && !dwttrap && bkpt && !halted {
            HaltReason::Breakpoint
        } else if !external && !vcatch && !dwttrap && !bkpt && halted {
            HaltReason::Request
        } else {
            HaltReason::Multiple
        }
    }
}

/// The DHCSR value that requests a halt: C_HALT and C_DEBUGEN with the
/// debug key.
pub fn halt_request() -> (r: Dhcsr)
    ensures
        r.0 == 0xA05F_0003,
        r.write_enabled(),
{
    let mut value = Dhcsr(0);
    value.set_c_halt(true);
    value.set_c_debugen(true);
    value.enable_write();
    proof {
        assert(((((0u32 | 0x2u32) | 0x1u32) & 0x0000_FFFF) | 0xA05F_0000) == 0xA05F_0003)
            by (bit_vector);
    }
    value
}

/// The DHCSR value that resumes execution: C_DEBUGEN alone with the debug
/// key.
pub fn run_request() -> (r: Dhcsr)
    ensures
        r.0 == 0xA05F_0001,
        r.write_enabled(),
{
    let mut value = Dhcsr(0);
    value.set_c_halt(false);
    value.set_c_debugen(true);
    value.enable_write();
    proof {
        assert(((((0u32 & !0x2u32) | 0x1u32) & 0x0000_FFFF) | 0xA05F_0000) == 0xA05F_0001)
            by (bit_vector);
    }
    value
}

/// The DHCSR value that single-steps: C_STEP, C_DEBUGEN and C_MASKINTS —
/// interrupts are masked during the step — with the debug key.
pub fn step_request() -> (r: Dhcsr)
    ensures
        r.0 == 0xA05F_000D,
        r.write_enabled(),
{
    let mut value = Dhcsr(0);
    value.set_c_step(true);
    value.set_c_halt(false);
    value.set_c_debugen(true);
    value.set_c_maskints(true);
    value.enable_write();
    proof {
        assert(((0u32 | 0x4u32) & !0x2u32) == 0x4u32) by (bit_vector);
        assert(((0x4u32 | 0x1u32) | 0x8u32) == 0xDu32) by (bit_vector);
        assert(((0xDu32 & 0x0000_FFFF) | 0xA05F_0000) == 0xA05F_000D) by (bit_vector);
    }
    value
}

/// Write DHCSR; the contract demands the debug key, so a write without it
/// cannot be emitted.
pub fn write_dhcsr<P: ArmProbe>(memory: &mut P, value: Dhcsr) -> (r: Result<(), Error>)
    requires
        value.write_enabled(),
{
    memory.write_word_32(DHCSR_ADDRESS, value.0)
}

/// Write AIRCR; the contract demands the vector key, so a write without
/// it cannot be emitted.
pub fn write_aircr<P: ArmProbe>(memory: &mut P, value: Aircr) -> (r: Result<(), Error>)
    requires
        value.vectkey_set(),
{
    memory.write_word_32(AIRCR_ADDRESS, value.0)
}

/// The comparator value programmed for a breakpoint at `addr`: the match
/// kind selects the lower half-word for `addr % 4 < 2` and the upper one
/// otherwise, the comparison bits are `addr[28:2]`, and the comparator is
/// enabled.
pub fn breakpoint_comp_value(addr: u32) -> (r: BpCompx)
    ensures
        (r.0 >> 30) & 0x3 == (if addr % 4 < 2 {
            0b01u32
        } else {
            0b10u32
        }),
        (r.0 >> 2) & 0x07FF_FFFF == (addr >> 2) & 0x07FF_FFFF,
        r.0 & 1 == 1,
{
    let mut value = BpCompx(0);
    if addr % 4 < 2 {
        // Match the lower half-word.
        value.set_bp_match(0b01);
    } else {
        // Match the upper half-word.
        value.set_bp_match(0b10);
    }
    value.set_comp((addr >> 2) & 0x07FF_FFFF);
    value.set_enable(true);
    proof {
        let a = addr;
        if a % 4 < 2 {
            assert((((0u32 & 0x3FFF_FFFF | ((0b01u32 & 0x3) << 30)) & 0xE000_0003 | (((a >> 2)
                & 0x07FF_FFFF) & 0x07FF_FFFF) << 2) | 0x1u32) >> 30 & 0x3 == 0b01) by (bit_vector);
            assert((((0u32 & 0x3FFF_FFFF | ((0b01u32 & 0x3) << 30)) & 0xE000_0003 | (((a >> 2)
                & 0x07FF_FFFF) & 0x07FF_FFFF) << 2) | 0x1u32) >> 2 & 0x07FF_FFFF == (a >> 2)
                & 0x07FF_FFFF) by (bit_vector);
            assert((((0u32 & 0x3FFF_FFFF | ((0b01u32 & 0x3) << 30)) & 0xE000_0003 | (((a >> 2)
                & 0x07FF_FFFF) & 0x07FF_FFFF) << 2) | 0x1u32) & 1 == 1) by (bit_vector);
        } else {
            assert((((0u32 & 0x3FFF_FFFF | ((0b10u32 & 0x3) << 30)) & 0xE000_0003 | (((a >> 2)
                & 0x07FF_FFFF) & 0x07FF_FFFF) << 2) | 0x1u32) >> 30 & 0x3 == 0b10) by (bit_vector);
            assert((((0u32 & 0x3FFF_FFFF | ((0b10u32 & 0x3) << 30)) & 0xE000_0003 | (((a >> 2)
                & 0x07FF_FFFF) & 0x07FF_FFFF) << 2) | 0x1u32) >> 2 & 0x07FF_FFFF == (a >> 2)
                & 0x07FF_FFFF) by (bit_vector);
            assert((((0u32 & 0x3FFF_FFFF | ((0b10u32 & 0x3) << 30)) & 0xE000_0003 | (((a >> 2)
                & 0x07FF_FFFF) & 0x07FF_FFFF) << 2) | 0x1u32) & 1 == 1) by (bit_vector);
        }
    }
    value
}

/// The ARMv6-M core driver.
pub struct Armv6m<P: ArmProbe> {
    memory: P,
    state: State,
    sequence: crate::sequences::DefaultArmSequence,
}

impl<P: ArmProbe> Armv6m<P> {
    /// The cached core status.
    pub closed spec fn spec_status(&self) -> CoreStatus {
        self.state.current_state
    }

    /// The cached breakpoint-enable flag.
    pub closed spec fn spec_hw_breakpoints_enabled(&self) -> bool {
        self.state.hw_breakpoints_enabled
    }

    /// Attach to the core: on first attach, read the current state and
    /// clear the sticky DFSR flags.
    pub fn new(memory: P, state: State, sequence: crate::sequences::DefaultArmSequence) -> (r:
        Result<Armv6m<P>, Error>) {
        let mut memory = memory;
        let mut state = state;
        if !state.initialized() {
            let dhcsr = Dhcsr(
                match memory.read_word_32(DHCSR_ADDRESS) {
                    Ok(v) => v,
                    Err(e) => {
                        return Err(e);
                    }
                },
            );

            let core_state = if dhcsr.s_sleep() {
                CoreStatus::Sleeping
            } else if dhcsr.s_halt() {
                let dfsr = Dfsr(
                    match memory.read_word_32(DFSR_ADDRESS) {
                        Ok(v) => v,
                        Err(e) => {
                            return Err(e);
                        }
                    },
                );
                CoreStatus::Halted(dfsr.halt_reason())
            } else {
                CoreStatus::Running
            };

            // The DFSR flags are sticky; clear them so later halts report
            // their own reason.
            let clear = Dfsr::clear_all();
            match memory.write_word_32(DFSR_ADDRESS, clear.0) {
                Ok(()) => {}
                Err(e) => {
                    return Err(e);
                }
            }

            state.current_state = core_state;
            state.initialize();
        }
        Ok(Armv6m { memory, state, sequence })
    }
}

/// Decode one DHCSR read, the halt reason of the matching DFSR read, and
/// the previously cached status into the core's status, by priority:
/// lock-up first, then sleeping, then halted, then running.  When the
/// core was already halted and the sticky DFSR flags decode to no reason,
/// the cached reason stands; the result is never `Unknown`.
pub fn decode_core_status(dhcsr: Dhcsr, reason: HaltReason, cached: CoreStatus) -> (r: CoreStatus)
    ensures
        r == (if (dhcsr.0 >> 19) & 1 == 1 {
            CoreStatus::LockedUp
        } else if (dhcsr.0 >> 18) & 1 == 1 {
            CoreStatus::Sleeping
        } else if (dhcsr.0 >> 17) & 1 == 1 {
            if (cached matches CoreStatus::Halted(_)) && reason == HaltReason::Unknown {
                cached
            } else {
                CoreStatus::Halted(reason)
            }
        } else {
            CoreStatus::Running
        }),
        r != CoreStatus::Unknown,
{
    if dhcsr.s_lockup() {
        CoreStatus::LockedUp
    } else if dhcsr.s_sleep() {
        CoreStatus::Sleeping
    } else if dhcsr.s_halt() {
        if cached.is_halted() && reason == HaltReason::Unknown {
            cached
        } else {
            CoreStatus::Halted(reason)
        }
    } else {
        CoreStatus::Running
    }
}

impl<P: ArmProbe> crate::cores::CoreInterface for Armv6m<P> {
    open spec fn spec_status_model(&self) -> CoreStatus {
        self.spec_status()
    }

    fn wait_for_core_halted(&mut self, timeout_ms: u32) -> (r: Result<(), Error>)
        ensures
            final(self).spec_status() == old(self).spec_status(),
            final(self).spec_hw_breakpoints_enabled() == old(self).spec_hw_breakpoints_enabled(),
    {
        let mut elapsed: u32 = 0;
        while elapsed < timeout_ms
            invariant
                self.spec_status() == old(self).spec_status(),
                self.spec_hw_breakpoints_enabled() == old(self).spec_hw_breakpoints_enabled(),
            decreases timeout_ms - elapsed,
        {
            let dhcsr_val = Dhcsr(
                match self.memory.read_word_32(DHCSR_ADDRESS) {
                    Ok(v) => v,
                    Err(e) => {
                        return Err(e);
                    }
                },
            );
            if dhcsr_val.s_halt() {
                return Ok(());
            }
            crate::probe::sleep_ms(1);
            elapsed = elapsed + 1;
        }
        Err(Error::Probe(DebugProbeError::Timeout))
    }

    fn core_halted(&mut self) -> (r: Result<bool, Error>) {
        let dhcsr_val = Dhcsr(
            match self.memory.read_word_32(DHCSR_ADDRESS) {
                Ok(v) => v,
                Err(e) => {
                    return Err(e);
                }
            },
        );
        Ok(dhcsr_val.s_halt())
    }

    fn halt(&mut self, timeout_ms: u32) -> (r: Result<CoreInformation, Error>)
        ensures
            r matches Ok(info) ==> final(self).spec_status() != CoreStatus::Unknown,
    {
        let value = halt_request();

        match write_dhcsr(&mut self.memory, value) {
            Ok(()) => {}
            Err(e) => {
                return Err(e);
            }
        }

        match self.wait_for_core_halted(timeout_ms) {
            Ok(()) => {}
            Err(e) => {
                return Err(e);
            }
        }

        match self.status() {
            Ok(_) => {}
            Err(e) => {
                return Err(e);
            }
        }

        let pc_value = match self.read_core_reg(CoreRegisterAddress(PC_REGISTER)) {
            Ok(v) => v,
            Err(e) => {
                return Err(e);
            }
        };
        Ok(CoreInformation { pc: pc_value })
    }

    fn run(&mut self) -> (r: Result<(), Error>)
        ensures
            r matches Ok(()) ==> final(self).spec_status() == CoreStatus::Running,
    {
        // A single step first, so a breakpoint on the current instruction
        // does not hold the core in place.
        match self.step() {
            Ok(_) => {}
            Err(e) => {
                return Err(e);
            }
        }

        let value = run_request();

        match write_dhcsr(&mut self.memory, value) {
            Ok(()) => {}
            Err(e) => {
                return Err(e);
            }
        }
        match self.memory.flush() {
            Ok(()) => {}
            Err(e) => {
                return Err(e);
            }
        }

        self.state.current_state = CoreStatus::Running;
        Ok(())
    }

    fn reset(&mut self) -> (r: Result<(), Error>) {
        self.sequence.reset_system(&mut self.memory, CoreType::Armv6m, None)
    }

    fn reset_and_halt(&mut self, timeout_ms: u32) -> (r: Result<CoreInformation, Error>) {
        match self.sequence.reset_catch_set(&mut self.memory, CoreType::Armv6m, None) {
            Ok(()) => {}
            Err(e) => {
                return Err(e);
            }
        }
        match self.sequence.reset_system(&mut self.memory, CoreType::Armv6m, None) {
            Ok(()) => {}
            Err(e) => {
                return Err(e);
            }
        }

        match self.status() {
            Ok(_) => {}
            Err(e) => {
                return Err(e);
            }
        }

        // Ensure the Thumb state bit is set, else the core faults at the
        // first instruction.
        let xpsr_value = match self.read_core_reg(CoreRegisterAddress(XPSR_REGISTER)) {
            Ok(v) => v,
            Err(e) => {
                return Err(e);
            }
        };
        if (xpsr_value >> 24) & 1 == 0 {
            match self.write_core_reg(CoreRegisterAddress(XPSR_REGISTER), xpsr_value | 0x0100_0000)
            {
                Ok(()) => {}
                Err(e) => {
                    return Err(e);
                }
            }
        }

        match self.sequence.reset_catch_clear(&mut self.memory, CoreType::Armv6m, None) {
            Ok(()) => {}
            Err(e) => {
                return Err(e);
            }
        }

        let pc_value = match self.read_core_reg(CoreRegisterAddress(PC_REGISTER)) {
            Ok(v) => v,
            Err(e) => {
                return Err(e);
            }
        };
        Ok(CoreInformation { pc: pc_value })
    }

    fn step(&mut self) -> (r: Result<CoreInformation, Error>)
        ensures
            r matches Ok(info) ==> (old(self).spec_status() == CoreStatus::Halted(
                HaltReason::Breakpoint,
            ) ==> final(self).spec_hw_breakpoints_enabled()),
            r matches Ok(info) ==> (old(self).spec_status() != CoreStatus::Halted(
                HaltReason::Breakpoint,
            ) ==> final(self).spec_hw_breakpoints_enabled() == old(
                self,
            ).spec_hw_breakpoints_enabled()),
    {
        // A breakpoint on the current instruction needs special handling:
        // single-stepping would re-hit it.
        let was_breakpoint = if self.state.current_state == CoreStatus::Halted(
            HaltReason::Breakpoint,
        ) {
            match self.enable_breakpoints(false) {
                Ok(()) => {}
                Err(e) => {
                    return Err(e);
                }
            }
            true
        } else {
            false
        };

        let value = step_request();

        match write_dhcsr(&mut self.memory, value) {
            Ok(()) => {}
            Err(e) => {
                return Err(e);
            }
        }
        match self.memory.flush() {
            Ok(()) => {}
            Err(e) => {
                return Err(e);
            }
        }
        match self.wait_for_core_halted(100) {
            Ok(()) => {}
            Err(e) => {
                return Err(e);
            }
        }

        if was_breakpoint {
            match self.enable_breakpoints(true) {
                Ok(()) => {}
                Err(e) => {
                    return Err(e);
                }
            }
        }

        let pc_value = match self.read_core_reg(CoreRegisterAddress(PC_REGISTER)) {
            Ok(v) => v,
            Err(e) => {
                return Err(e);
            }
        };
        Ok(CoreInformation { pc: pc_value })
    }

    fn read_core_reg(&mut self, address: CoreRegisterAddress) -> (r: Result<u32, Error>)
        ensures
            final(self).spec_status() == old(self).spec_status(),
            final(self).spec_hw_breakpoints_enabled() == old(self).spec_hw_breakpoints_enabled(),
    {
        self.memory.read_core_reg(address)
    }

    fn write_core_reg(&mut self, address: CoreRegisterAddress, value: u32) -> (r: Result<
        (),
        Error,
    >)
        ensures
            final(self).spec_status() == old(self).spec_status(),
            final(self).spec_hw_breakpoints_enabled() == old(self).spec_hw_breakpoints_enabled(),
    {
        self.memory.write_core_reg(address, value)
    }

    fn available_breakpoint_units(&mut self) -> (r: Result<u32, Error>)
        ensures
            r matches Ok(n) ==> n <= 0xF,
    {
        let result = match self.memory.read_word_32(BP_CTRL_ADDRESS) {
            Ok(v) => v,
            Err(e) => {
                return Err(e);
            }
        };
        proof {
            assert((result >> 4) & 0xF <= 0xF) by (bit_vector);
        }
        Ok(BpCtrl(result).num_code())
    }

    fn hw_breakpoints(&mut self) -> (r: Result<Vec<Option<u32>>, Error>)
        ensures
            r matches Ok(v) ==> v@.len() <= 0xF,
    {
        let mut breakpoints: Vec<Option<u32>> = Vec::new();
        let num_hw_breakpoints = match self.available_breakpoint_units() {
            Ok(n) => n,
            Err(e) => {
                return Err(e);
            }
        };
        // The unit count decodes from four bits, so the clamp never cuts.
        let count: u32 = if num_hw_breakpoints > 0xF {
            0xF
        } else {
            num_hw_breakpoints
        };
        let mut bp_unit_index: u32 = 0;
        while bp_unit_index < count
            invariant
                bp_unit_index <= count,
                count <= 0xF,
                breakpoints@.len() == bp_unit_index,
            decreases count - bp_unit_index,
        {
            let reg_addr = BP_COMP_ADDRESS + bp_unit_index * 4;
            let register_value = match self.memory.read_word_32(reg_addr) {
                Ok(v) => v,
                Err(e) => {
                    return Err(e);
                }
            };
            if BpCompx(register_value).enable() {
                let breakpoint = match BpCompx::get_breakpoint_comparator(register_value) {
                    Ok(b) => b,
                    Err(e) => {
                        return Err(e);
                    }
                };
                breakpoints.push(Some(breakpoint));
            } else {
                breakpoints.push(None);
            }
            bp_unit_index = bp_unit_index + 1;
        }
        Ok(breakpoints)
    }

    fn enable_breakpoints(&mut self, state: bool) -> (r: Result<(), Error>)
        ensures
            r matches Ok(()) ==> final(self).spec_hw_breakpoints_enabled() == state,
    {
        let mut value = BpCtrl(0);
        value.set_key(true);
        value.set_enable(state);

        match self.memory.write_word_32(BP_CTRL_ADDRESS, value.0) {
            Ok(()) => {}
            Err(e) => {
                return Err(e);
            }
        }
        match self.memory.flush() {
            Ok(()) => {}
            Err(e) => {
                return Err(e);
            }
        }

        self.state.hw_breakpoints_enabled = state;
        Ok(())
    }

    fn set_hw_breakpoint(&mut self, bp_register_index: usize, addr: u32) -> (r: Result<(), Error>)
        ensures
            addr >= 0x2000_0000 ==> r == Err::<(), Error>(Error::ArchitectureSpecific(
                ArchitectureError::UnsupportedBreakpointAddress(addr),
            )),
            r matches Ok(()) ==> addr < 0x2000_0000,
    {
        // The breakpoint unit only covers code memory.
        if addr >= 0x2000_0000 {
            return Err(Error::ArchitectureSpecific(
                ArchitectureError::UnsupportedBreakpointAddress(addr),
            ));
        }

        let value = breakpoint_comp_value(addr);

        if bp_register_index > 0xF {
            return Err(Error::NoAvailableBreakpointUnits);
        }
        let register_addr = BP_COMP_ADDRESS + (bp_register_index as u32) * 4;

        match self.memory.write_word_32(register_addr, value.0) {
            Ok(()) => Ok(()),
            Err(e) => Err(e),
        }
    }

    fn clear_hw_breakpoint(&mut self, bp_unit_index: usize) -> (r: Result<(), Error>) {
        if bp_unit_index > 0xF {
            return Err(Error::NoAvailableBreakpointUnits);
        }
        let register_addr = BP_COMP_ADDRESS + (bp_unit_index as u32) * 4;

        let mut value = BpCompx(0);
        value.set_enable(false);

        self.memory.write_word_32(register_addr, value.0)
    }

    fn registers(&self) -> (r: RegisterFile) {
        arm_register_file()
    }

    fn hw_breakpoints_enabled(&self) -> (r: bool) {
        self.state.hw_breakpoints_enabled
    }

    fn architecture(&self) -> (r: Architecture) {
        Architecture::Arm
    }

    fn core_type(&self) -> (r: CoreType) {
        CoreType::Armv6m
    }

    fn instruction_set(&mut self) -> (r: Result<InstructionSet, Error>) {
        Ok(InstructionSet::Thumb2)
    }

    fn status(&mut self) -> (r: Result<CoreStatus, Error>)
        ensures
            r matches Ok(s) ==> final(self).spec_status() == s && s != CoreStatus::Unknown,
    {
        let dhcsr = Dhcsr(
            match self.memory.read_word_32(DHCSR_ADDRESS) {
                Ok(v) => v,
                Err(e) => {
                    return Err(e);
                }
            },
        );

        // The DFSR is read — and its sticky flags cleared, so the next
        // halt reports its own reason — only when the core is halted and
        // neither locked up nor sleeping.
        let reason = if !dhcsr.s_lockup() && !dhcsr.s_sleep() && dhcsr.s_halt() {
            let dfsr = Dfsr(
                match self.memory.read_word_32(DFSR_ADDRESS) {
                    Ok(v) => v,
                    Err(e) => {
                        return Err(e);
                    }
                },
            );
            let clear = Dfsr::clear_all();
            match self.memory.write_word_32(DFSR_ADDRESS, clear.0) {
                Ok(()) => {}
                Err(e) => {
                    return Err(e);
                }
            }
            dfsr.halt_reason()
        } else {
            HaltReason::Unknown
        };

        let decoded = decode_core_status(dhcsr, reason, self.state.current_state);
        self.state.current_state = decoded;
        Ok(decoded)
    }

    fn read_word_32(&mut self, address: u32) -> (r: Result<u32, Error>) {
        self.memory.read_word_32(address)
    }

    fn read_word_8(&mut self, address: u32) -> (r: Result<u8, Error>) {
        self.memory.read_word_8(address)
    }

    fn read_32(&mut self, address: u32, data: &mut Vec<u32>) -> (r: Result<(), Error>) {
        self.memory.read_32(address, data)
    }

    fn read_8(&mut self, address: u32, data: &mut Vec<u8>) -> (r: Result<(), Error>) {
        self.memory.read_8(address, data)
    }

    fn write_word_32(&mut self, address: u32, data: u32) -> (r: Result<(), Error>) {
        self.memory.write_word_32(address, data)
    }

    fn write_word_8(&mut self, address: u32, data: u8) -> (r: Result<(), Error>) {
        self.memory.write_word_8(address, data)
    }

    fn write_32(&mut self, address: u32, data: &Vec<u32>) -> (r: Result<(), Error>) {
        self.memory.write_32(address, data)
    }

    fn write_8(&mut self, address: u32, data: &Vec<u8>) -> (r: Result<(), Error>) {
        self.memory.write_8(address, data)
    }

    fn flush(&mut self) -> (r: Result<(), Error>) {
        self.memory.flush()
    }
}

} // verus!
