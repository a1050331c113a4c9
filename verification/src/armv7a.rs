//! Register types and the core driver for ARMv7-A (Cortex-A).
//!
//! The debug registers live in an MMIO window anchored at a per-core
//! debug base.  Core registers are not directly readable: the driver
//! halts the core and executes instructions through the Instruction
//! Transfer Register, moving data via the DBGDTRTX/DBGDTRRX data
//! transfer registers.  Values read that way are cached, and writes are
//! deferred until the next resume.

use vstd::prelude::*;

use crate::cores::{CoreStatus, HaltReason, State};
use crate::error::{ArchitectureError, Error};
use crate::family::{Architecture, CoreType, InstructionSet};
use crate::memory::ArmProbe;
use crate::probe::DebugProbeError;
use crate::registers::{arm_register_file, CoreInformation, CoreRegisterAddress, RegisterFile};
use crate::sequences::DefaultArmSequence;

verus! {

/// Errors of the ARMv7-A state machine.
#[derive(Debug, Clone, Copy, PartialEq, Eq, Structural)]
pub enum Armv7aError {
    /// The register number is not valid for ARMv7-A.
    InvalidRegisterNumber(u16),
    /// The core is running but the operation requires it halted.
    NotHalted,
    /// A data abort occurred while executing through the ITR.
    DataAbort,
}

/// How many polls of DBGDSCR an instruction execution may take before the
/// driver gives up.
pub const EXECUTE_POLL_BUDGET: u32 = 100_000;

/// The MMIO address of debug register `number` over `base_address`,
/// saturating at the top of the address space.
pub open spec fn spec_mmio_address(base_address: u32, number: u32) -> u32 {
    if base_address + number * 4 <= u32::MAX {
        (base_address + number * 4) as u32
    } else {
        u32::MAX
    }
}

/// Compute a debug register's MMIO address.
pub fn mmio_address(base_address: u32, number: u32) -> (r: u32)
    requires
        number <= 1004,
    ensures
        r == spec_mmio_address(base_address, number),
{
    let offset = number * 4;
    if base_address <= u32::MAX - offset {
        base_address + offset
    } else {
        u32::MAX
    }
}

/// A debug register accessible through the memory-mapped debug window.
pub trait Armv7DebugRegister {
    /// The register's number in the debug register file.
    spec fn spec_number() -> u32;

    /// The register's number.
    fn number() -> (r: u32)
        ensures
            r == Self::spec_number(),
    ;

    /// The register's name.
    fn name() -> (r: &'static str);

    /// The register's address in the memory map.
    fn get_mmio_address(base_address: u32) -> (r: u32)
        ensures
            r == spec_mmio_address(base_address, Self::spec_number()),
    ;
}

/// DBGDSCR - Debug Status and Control Register.
#[derive(Debug, Clone, Copy, PartialEq, Eq, Structural)]
pub struct Dbgdscr(pub u32);

impl Armv7DebugRegister for Dbgdscr {
    open spec fn spec_number() -> u32 {
        34
    }

    fn number() -> (r: u32) {
        34
    }

    fn name() -> (r: &'static str) {
        "DBGDSCR"
    }

    fn get_mmio_address(base_address: u32) -> (r: u32) {
        mmio_address(base_address, 34)
    }
}

impl Dbgdscr {
    /// Latched RXfull: DBGDTRRX holds data the core has not taken yet.
    pub fn rxfull_l(&self) -> (r: bool)
        ensures
            r == ((self.0 >> 27) & 1 == 1),
    {
        (self.0 >> 27) & 1 == 1
    }

    /// Set the latched RXfull flag.
    pub fn set_rxfull_l(&mut self, b: bool)
        ensures
            final(self).0 == (if b {
                old(self).0 | 0x0800_0000u32
            } else {
                old(self).0 & !0x0800_0000u32
            }),
    {
        self.0 = if b {
            self.0 | 0x0800_0000u32
        } else {
            self.0 & !0x0800_0000u32
        };
    }

    /// Latched TXfull: DBGDTRTX holds data for the host.
    pub fn txfull_l(&self) -> (r: bool)
        ensures
            r == ((self.0 >> 26) & 1 == 1),
    {
        (self.0 >> 26) & 1 == 1
    }

    /// Set the latched TXfull flag.
    pub fn set_txfull_l(&mut self, b: bool)
        ensures
            final(self).0 == (if b {
                old(self).0 | 0x0400_0000u32
            } else {
                old(self).0 & !0x0400_0000u32
            }),
    {
        self.0 = if b {
            self.0 | 0x0400_0000u32
        } else {
            self.0 & !0x0400_0000u32
        };
    }

    /// Latched instruction complete: everything issued through the ITR has
    /// finished changing the architectural state.
    pub fn instrcoml_l(&self) -> (r: bool)
        ensures
            r == ((self.0 >> 24) & 1 == 1),
    {
        (self.0 >> 24) & 1 == 1
    }

    /// Set the latched instruction-complete flag.
    pub fn set_instrcoml_l(&mut self, b: bool)
        ensures
            final(self).0 == (if b {
                old(self).0 | 0x0100_0000u32
            } else {
                old(self).0 & !0x0100_0000u32
            }),
    {
        self.0 = if b {
            self.0 | 0x0100_0000u32
        } else {
            self.0 & !0x0100_0000u32
        };
    }

    /// Halting debug-mode enable.
    pub fn hdbgen(&self) -> (r: bool)
        ensures
            r == ((self.0 >> 14) & 1 == 1),
    {
        (self.0 >> 14) & 1 == 1
    }

    /// Enable halting debug-mode.
    pub fn set_hdbgen(&mut self, b: bool)
        ensures
            final(self).0 == (if b {
                old(self).0 | 0x4000u32
            } else {
                old(self).0 & !0x4000u32
            }),
    {
        self.0 = if b {
            self.0 | 0x4000u32
        } else {
            self.0 & !0x4000u32
        };
    }

    /// Whether execution through the ITR is enabled.
    pub fn itren(&self) -> (r: bool)
        ensures
            r == ((self.0 >> 13) & 1 == 1),
    {
        (self.0 >> 13) & 1 == 1
    }

    /// Enable execution through the ITR.
    pub fn set_itren(&mut self, b: bool)
        ensures
            final(self).0 == (if b {
                old(self).0 | 0x2000u32
            } else {
                old(self).0 & !0x2000u32
            }),
    {
        self.0 = if b {
            self.0 | 0x2000u32
        } else {
            self.0 & !0x2000u32
        };
    }

    /// Sticky asynchronous abort.
    pub fn adabort_l(&self) -> (r: bool)
        ensures
            r == ((self.0 >> 7) & 1 == 1),
    {
        (self.0 >> 7) & 1 == 1
    }

    /// Sticky synchronous data abort.
    pub fn sdabort_l(&self) -> (r: bool)
        ensures
            r == ((self.0 >> 6) & 1 == 1),
    {
        (self.0 >> 6) & 1 == 1
    }

    /// Method-of-entry field: why the core entered debug state.
    pub fn moe(&self) -> (r: u32)
        ensures
            r == (self.0 >> 2) & 0xF,
    {
        (self.0 >> 2) & 0xF
    }

    /// The processor has exited debug state.
    pub fn restarted(&self) -> (r: bool)
        ensures
            r == ((self.0 >> 1) & 1 == 1),
    {
        (self.0 >> 1) & 1 == 1
    }

    /// Set the restarted flag.
    pub fn set_restarted(&mut self, b: bool)
        ensures
            final(self).0 == (if b {
                old(self).0 | 0x2u32
            } else {
                old(self).0 & !0x2u32
            }),
    {
        self.0 = if b {
            self.0 | 0x2u32
        } else {
            self.0 & !0x2u32
        };
    }

    /// The processor is in debug state.
    pub fn halted(&self) -> (r: bool)
        ensures
            r == (self.0 & 1 == 1),
    {
        self.0 & 1 == 1
    }

    /// Set the halted flag.
    pub fn set_halted(&mut self, b: bool)
        ensures
            final(self).0 == (if b {
                old(self).0 | 0x1u32
            } else {
                old(self).0 & !0x1u32
            }),
    {
        self.0 = if b {
            self.0 | 0x1u32
        } else {
            self.0 & !0x1u32
        };
    }

    /// Decode the method-of-entry field into a halt reason.
    pub fn halt_reason(&self) -> (r: HaltReason)
        ensures
            r == spec_dbgdscr_halt_reason(self.0),
    {
        if self.halted() {
            let moe = self.moe();
            if moe == 0b0000 {
                // Halt request from the debugger.
                HaltReason::Request
            } else if moe == 0b0001 {
                // Breakpoint debug event.
                HaltReason::Breakpoint
            } else if moe == 0b0010 {
                // Asynchronous watchpoint debug event.
                HaltReason::Watchpoint
            } else if moe == 0b0011 {
                // BKPT instruction.
                HaltReason::Breakpoint
            } else if moe == 0b0100 {
                // External halt request.
                HaltReason::External
            } else if moe == 0b0101 {
                // Vector catch.
                HaltReason::Exception
            } else if moe == 0b1000 {
                // OS unlock vector catch.
                HaltReason::Exception
            } else if moe == 0b1010 {
                // Synchronous watchpoint debug event.
                HaltReason::Breakpoint
            } else {
                HaltReason::Unknown
            }
        } else {
            HaltReason::Unknown
        }
    }
}

/// The halt reason a DBGDSCR value encodes.
pub open spec fn spec_dbgdscr_halt_reason(v: u32) -> HaltReason {
    if v & 1 == 1 {
        let moe = (v >> 2) & 0xF;
        if moe == 0b0000 {
            HaltReason::Request
        } else if moe == 0b0001 {
            HaltReason::Breakpoint
        } else if moe == 0b0010 {
            HaltReason::Watchpoint
        } else if moe == 0b0011 {
            HaltReason::Breakpoint
        } else if moe == 0b0100 {
            HaltReason::External
        } else if moe == 0b0101 {
            HaltReason::Exception
        } else if moe == 0b1000 {
            HaltReason::Exception
        } else if moe == 0b1010 {
            HaltReason::Breakpoint
        } else {
            HaltReason::Unknown
        }
    } else {
        HaltReason::Unknown
    }
}

/// DBGDIDR - Debug ID Register.
#[derive(Debug, Clone, Copy, PartialEq, Eq, Structural)]
pub struct Dbgdidr(pub u32);

impl Armv7DebugRegister for Dbgdidr {
    open spec fn spec_number() -> u32 {
        0
    }

    fn number() -> (r: u32) {
        0
    }

    fn name() -> (r: &'static str) {
        "DBGDIDR"
    }

    fn get_mmio_address(base_address: u32) -> (r: u32) {
        mmio_address(base_address, 0)
    }
}

impl Dbgdidr {
    /// One less than the number of implemented breakpoints.
    pub fn brps(&self) -> (r: u32)
        ensures
            r == (self.0 >> 24) & 0xF,
    {
        (self.0 >> 24) & 0xF
    }

    /// Set the breakpoint count field.
    pub fn set_brps(&mut self, x: u32)
        ensures
            final(self).0 == (old(self).0 & 0xF0FF_FFFF) | ((x & 0xF) << 24),
    {
        self.0 = (self.0 & 0xF0FF_FFFF) | ((x & 0xF) << 24);
    }
}

/// DBGDRCR - Debug Run Control Register.
#[derive(Debug, Clone, Copy, PartialEq, Eq, Structural)]
pub struct Dbgdrcr(pub u32);

impl Armv7DebugRegister for Dbgdrcr {
    open spec fn spec_number() -> u32 {
        36
    }

    fn number() -> (r: u32) {
        36
    }

    fn name() -> (r: &'static str) {
        "DBGDRCR"
    }

    fn get_mmio_address(base_address: u32) -> (r: u32) {
        mmio_address(base_address, 36)
    }
}

impl Dbgdrcr {
    /// Clear sticky exceptions.
    pub fn set_cse(&mut self, b: bool)
        ensures
            final(self).0 == (if b {
                old(self).0 | 0x4u32
            } else {
                old(self).0 & !0x4u32
            }),
    {
        self.0 = if b {
            self.0 | 0x4u32
        } else {
            self.0 & !0x4u32
        };
    }

    /// Restart request.
    pub fn set_rrq(&mut self, b: bool)
        ensures
            final(self).0 == (if b {
                old(self).0 | 0x2u32
            } else {
                old(self).0 & !0x2u32
            }),
    {
        self.0 = if b {
            self.0 | 0x2u32
        } else {
            self.0 & !0x2u32
        };
    }

    /// Halt request.
    pub fn set_hrq(&mut self, b: bool)
        ensures
            final(self).0 == (if b {
                old(self).0 | 0x1u32
            } else {
                old(self).0 & !0x1u32
            }),
    {
        self.0 = if b {
            self.0 | 0x1u32
        } else {
            self.0 & !0x1u32
        };
    }
}

/// DBGBVR - Breakpoint Value Register.
#[derive(Debug, Clone, Copy, PartialEq, Eq, Structural)]
pub struct Dbgbvr(pub u32);

impl Armv7DebugRegister for Dbgbvr {
    open spec fn spec_number() -> u32 {
        64
    }

    fn number() -> (r: u32) {
        64
    }

    fn name() -> (r: &'static str) {
        "DBGBVR"
    }

    fn get_mmio_address(base_address: u32) -> (r: u32) {
        mmio_address(base_address, 64)
    }
}

/// DBGBCR - Breakpoint Control Register.
#[derive(Debug, Clone, Copy, PartialEq, Eq, Structural)]
pub struct Dbgbcr(pub u32);

impl Armv7DebugRegister for Dbgbcr {
    open spec fn spec_number() -> u32 {
        80
    }

    fn number() -> (r: u32) {
        80
    }

    fn name() -> (r: &'static str) {
        "DBGBCR"
    }

    fn get_mmio_address(base_address: u32) -> (r: u32) {
        mmio_address(base_address, 80)
    }
}

impl Dbgbcr {
    /// Breakpoint type: `0000` address match, `0100` address mismatch.
    pub fn set_bt(&mut self, x: u32)
        ensures
            final(self).0 == (old(self).0 & 0xFF0F_FFFF) | ((x & 0xF) << 20),
    {
        self.0 = (self.0 & 0xFF0F_FFFF) | ((x & 0xF) << 20);
    }

    /// Hyp-mode control.
    pub fn set_hmc(&mut self, b: bool)
        ensures
            final(self).0 == (if b {
                old(self).0 | 0x2000u32
            } else {
                old(self).0 & !0x2000u32
            }),
    {
        self.0 = if b {
            self.0 | 0x2000u32
        } else {
            self.0 & !0x2000u32
        };
    }

    /// Byte address select.
    pub fn set_bas(&mut self, x: u32)
        ensures
            final(self).0 == (old(self).0 & 0xFFFF_FE1F) | ((x & 0xF) << 5),
    {
        self.0 = (self.0 & 0xFFFF_FE1F) | ((x & 0xF) << 5);
    }

    /// Privileged-mode control.
    pub fn set_pmc(&mut self, x: u32)
        ensures
            final(self).0 == (old(self).0 & 0xFFFF_FFF9) | ((x & 0x3) << 1),
    {
        self.0 = (self.0 & 0xFFFF_FFF9) | ((x & 0x3) << 1);
    }

    /// Whether the breakpoint is enabled.
    pub fn e(&self) -> (r: bool)
        ensures
            r == (self.0 & 1 == 1),
    {
        self.0 & 1 == 1
    }

    /// Enable the breakpoint.
    pub fn set_e(&mut self, b: bool)
        ensures
            final(self).0 == (if b {
                old(self).0 | 0x1u32
            } else {
                old(self).0 & !0x1u32
            }),
    {
        self.0 = if b {
            self.0 | 0x1u32
        } else {
            self.0 & !0x1u32
        };
    }
}

/// DBGLAR - Lock Access Register.
#[derive(Debug, Clone, Copy, PartialEq, Eq, Structural)]
pub struct Dbglar(pub u32);

impl Armv7DebugRegister for Dbglar {
    open spec fn spec_number() -> u32 {
        1004
    }

    fn number() -> (r: u32) {
        1004
    }

    fn name() -> (r: &'static str) {
        "DBGLAR"
    }

    fn get_mmio_address(base_address: u32) -> (r: u32) {
        mmio_address(base_address, 1004)
    }
}

/// DBGDSCCR - State Cache Control Register.
#[derive(Debug, Clone, Copy, PartialEq, Eq, Structural)]
pub struct Dbgdsccr(pub u32);

impl Armv7DebugRegister for Dbgdsccr {
    open spec fn spec_number() -> u32 {
        10
    }

    fn number() -> (r: u32) {
        10
    }

    fn name() -> (r: &'static str) {
        "DBGDSCCR"
    }

    fn get_mmio_address(base_address: u32) -> (r: u32) {
        mmio_address(base_address, 10)
    }
}

/// DBGDSMCR - Debug State MMU Control Register.
#[derive(Debug, Clone, Copy, PartialEq, Eq, Structural)]
pub struct Dbgdsmcr(pub u32);

impl Armv7DebugRegister for Dbgdsmcr {
    open spec fn spec_number() -> u32 {
        11
    }

    fn number() -> (r: u32) {
        11
    }

    fn name() -> (r: &'static str) {
        "DBGDSMCR"
    }

    fn get_mmio_address(base_address: u32) -> (r: u32) {
        mmio_address(base_address, 11)
    }
}

/// DBGITR - Instruction Transfer Register.
#[derive(Debug, Clone, Copy, PartialEq, Eq, Structural)]
pub struct Dbgitr(pub u32);

impl Armv7DebugRegister for Dbgitr {
    open spec fn spec_number() -> u32 {
        33
    }

    fn number() -> (r: u32) {
        33
    }

    fn name() -> (r: &'static str) {
        "DBGITR"
    }

    fn get_mmio_address(base_address: u32) -> (r: u32) {
        mmio_address(base_address, 33)
    }
}

/// DBGDTRTX - target-to-host data transfer register.
#[derive(Debug, Clone, Copy, PartialEq, Eq, Structural)]
pub struct Dbgdtrtx(pub u32);

impl Armv7DebugRegister for Dbgdtrtx {
    open spec fn spec_number() -> u32 {
        35
    }

    fn number() -> (r: u32) {
        35
    }

    fn name() -> (r: &'static str) {
        "DBGDTRTX"
    }

    fn get_mmio_address(base_address: u32) -> (r: u32) {
        mmio_address(base_address, 35)
    }
}

/// DBGDTRRX - host-to-target data transfer register.
#[derive(Debug, Clone, Copy, PartialEq, Eq, Structural)]
pub struct Dbgdtrrx(pub u32);

impl Armv7DebugRegister for Dbgdtrrx {
    open spec fn spec_number() -> u32 {
        32
    }

    fn number() -> (r: u32) {
        32
    }

    fn name() -> (r: &'static str) {
        "DBGDTRRX"
    }

    fn get_mmio_address(base_address: u32) -> (r: u32) {
        mmio_address(base_address, 32)
    }
}

/// DBGPRCR - Powerdown and Reset Control Register.
#[derive(Debug, Clone, Copy, PartialEq, Eq, Structural)]
pub struct Dbgprcr(pub u32);

impl Armv7DebugRegister for Dbgprcr {
    open spec fn spec_number() -> u32 {
        196
    }

    fn number() -> (r: u32) {
        196
    }

    fn name() -> (r: &'static str) {
        "DBGPRCR"
    }

    fn get_mmio_address(base_address: u32) -> (r: u32) {
        mmio_address(base_address, 196)
    }
}

impl Dbgprcr {
    /// Hold the core in warm reset until it is halted.
    pub fn set_hcwr(&mut self, b: bool)
        ensures
            final(self).0 == (if b {
                old(self).0 | 0x4u32
            } else {
                old(self).0 & !0x4u32
            }),
    {
        self.0 = if b {
            self.0 | 0x4u32
        } else {
            self.0 & !0x4u32
        };
    }

    /// Request a core warm reset.
    pub fn set_cwrr(&mut self, b: bool)
        ensures
            final(self).0 == (if b {
                old(self).0 | 0x2u32
            } else {
                old(self).0 & !0x2u32
            }),
    {
        self.0 = if b {
            self.0 | 0x2u32
        } else {
            self.0 & !0x2u32
        };
    }
}

/// DBGPRSR - Powerdown and Reset Status Register.
#[derive(Debug, Clone, Copy, PartialEq, Eq, Structural)]
pub struct Dbgprsr(pub u32);

impl Armv7DebugRegister for Dbgprsr {
    open spec fn spec_number() -> u32 {
        197
    }

    fn number() -> (r: u32) {
        197
    }

    fn name() -> (r: &'static str) {
        "DBGPRSR"
    }

    fn get_mmio_address(base_address: u32) -> (r: u32) {
        mmio_address(base_address, 197)
    }
}

impl Dbgprsr {
    /// Sticky reset status.
    pub fn sr(&self) -> (r: bool)
        ensures
            r == ((self.0 >> 3) & 1 == 1),
    {
        (self.0 >> 3) & 1 == 1
    }
}

/// Build a MOV instruction `MOV rd, rm`.
pub fn build_mov(rd: u16, rm: u16) -> (r: u32)
    ensures
        r == (0xE1A0_0000u32 | ((rd as u32) << 12)) | (rm as u32),
{
    let ret = 0xE1A0_0000u32;
    (ret | ((rd as u32) << 12)) | (rm as u32)
}

/// Build an MCR instruction: move a core register to a coprocessor.
pub fn build_mcr(coproc: u8, opcode1: u8, reg: u16, ctrl_reg_n: u8, ctrl_reg_m: u8, opcode2: u8) -> (r: u32)
    ensures
        r == (((((0xEE00_0010u32 | ((coproc as u32) << 8)) | ((opcode1 as u32) << 21)) | ((
        reg as u32) << 12)) | ((ctrl_reg_n as u32) << 16)) | (ctrl_reg_m as u32)) | ((
        opcode2 as u32) << 5),
{
    let ret = 0xEE00_0010u32;
    (((((ret | ((coproc as u32) << 8)) | ((opcode1 as u32) << 21)) | ((reg as u32) << 12)) | ((
    ctrl_reg_n as u32) << 16)) | (ctrl_reg_m as u32)) | ((opcode2 as u32) << 5)
}

/// Build an MRC instruction: move a coprocessor register to the core.
pub fn build_mrc(coproc: u8, opcode1: u8, reg: u16, ctrl_reg_n: u8, ctrl_reg_m: u8, opcode2: u8) -> (r: u32)
    ensures
        r == (((((0xEE10_0010u32 | ((coproc as u32) << 8)) | ((opcode1 as u32) << 21)) | ((
        reg as u32) << 12)) | ((ctrl_reg_n as u32) << 16)) | (ctrl_reg_m as u32)) | ((
        opcode2 as u32) << 5),
{
    let ret = 0xEE10_0010u32;
    (((((ret | ((coproc as u32) << 8)) | ((opcode1 as u32) << 21)) | ((reg as u32) << 12)) | ((
    ctrl_reg_n as u32) << 16)) | (ctrl_reg_m as u32)) | ((opcode2 as u32) << 5)
}

/// Build a BX instruction `BX reg`.
pub fn build_bx(reg: u16) -> (r: u32)
    ensures
        r == 0xE12F_FF10u32 | (reg as u32),
{
    0xE12F_FF10u32 | (reg as u32)
}

/// Build an LDC instruction with post-indexed addressing.
pub fn build_ldc(coproc: u8, ctrl_reg: u8, reg: u16, imm: u8) -> (r: u32)
    ensures
        r == (((0xECB0_0000u32 | ((reg as u32) << 16)) | ((ctrl_reg as u32) << 12)) | ((
        coproc as u32) << 8)) | ((imm as u32) >> 2),
{
    let ret = 0xECB0_0000u32;
    (((ret | ((reg as u32) << 16)) | ((ctrl_reg as u32) << 12)) | ((coproc as u32) << 8)) | ((
    imm as u32) >> 2)
}

/// Build an STC instruction with post-indexed addressing.
pub fn build_stc(coproc: u8, ctrl_reg: u8, reg: u16, imm: u8) -> (r: u32)
    ensures
        r == (((0xECA0_0000u32 | ((reg as u32) << 16)) | ((ctrl_reg as u32) << 12)) | ((
        coproc as u32) << 8)) | ((imm as u32) >> 2),
{
    let ret = 0xECA0_0000u32;
    (((ret | ((reg as u32) << 16)) | ((ctrl_reg as u32) << 12)) | ((coproc as u32) << 8)) | ((
    imm as u32) >> 2)
}

/// Build an MRS instruction `MRS reg, CPSR`.
pub fn build_mrs(reg: u16) -> (r: u32)
    ensures
        r == 0xE10F_0000u32 | ((reg as u32) << 12),
{
    0xE10F_0000u32 | ((reg as u32) << 12)
}

/// `a + b` modulo the 32-bit address space.
pub fn wrap_add32(a: u32, b: u32) -> (r: u32)
    ensures
        r as int == (a + b) % 0x1_0000_0000,
{
    if a <= u32::MAX - b {
        a + b
    } else {
        proof {
            assert(a + b - 0x1_0000_0000 == (a + b) % 0x1_0000_0000) by {
                assert(0x1_0000_0000 <= a + b < 0x2_0000_0000);
            }
        }
        (b - (u32::MAX - a)) - 1
    }
}

/// A register cache with every slot empty.
fn empty_register_cache() -> (r: Vec<Option<(u32, bool)>>)
    ensures
        r@.len() == 17,
        forall|i: int| 0 <= i < 17 ==> r@[i] is None,
{
    let mut v: Vec<Option<(u32, bool)>> = Vec::new();
    let mut i: usize = 0;
    while i < 17
        invariant
            i <= 17,
            v@.len() == i,
            forall|k: int| 0 <= k < i ==> v@[k] is None,
        decreases 17 - i,
    {
        v.push(None);
        i = i + 1;
    }
    v
}

/// The ARMv7-A core driver.
pub struct Armv7a<P: ArmProbe> {
    memory: P,
    state: State,
    base_address: u32,
    sequence: DefaultArmSequence,
    num_breakpoints: Option<u32>,
    itr_enabled: bool,
    register_cache: Vec<Option<(u32, bool)>>,
}

/// The PC reads as PC + 8 because of the processor pipeline: undo the
/// offset, wrapping at the 32-bit boundary.
pub fn pc_pipeline_adjust(pra_plus_offset: u32) -> (r: u32)
    ensures
        r == (if pra_plus_offset >= 8 {
            (pra_plus_offset - 8) as u32
        } else {
            (pra_plus_offset + 0xFFFF_FFF8) as u32
        }),
{
    if pra_plus_offset >= 8 {
        pra_plus_offset - 8
    } else {
        pra_plus_offset + 0xFFFF_FFF8
    }
}

impl<P: ArmProbe> Armv7a<P> {
    /// The cached core status.
    pub closed spec fn spec_status(&self) -> CoreStatus {
        self.state.current_state
    }

    /// The register cache's contents.
    pub closed spec fn spec_cache(&self) -> Seq<Option<(u32, bool)>> {
        self.register_cache@
    }

    /// The cached number of breakpoint units, once read from DBGDIDR.
    pub closed spec fn spec_num_breakpoints(&self) -> Option<u32> {
        self.num_breakpoints
    }

    /// Whether the register cache holds no entry at all.
    pub closed spec fn cache_is_empty(&self) -> bool {
        forall|i: int| 0 <= i < self.register_cache@.len() ==> self.register_cache@[i] is None
    }

    /// Attach to the core: on first attach, read the current state.
    pub fn new(memory: P, state: State, base_address: u32, sequence: DefaultArmSequence) -> (r:
        Result<Armv7a<P>, Error>)
    {
        let mut memory = memory;
        let mut state = state;
        if !state.initialized() {
            let address = Dbgdscr::get_mmio_address(base_address);
            let dbgdscr = Dbgdscr(
                match memory.read_word_32(address) {
                    Ok(v) => v,
                    Err(e) => {
                        return Err(e);
                    }
                },
            );

            let core_state = if dbgdscr.halted() {
                CoreStatus::Halted(dbgdscr.halt_reason())
            } else {
                CoreStatus::Running
            };

            state.current_state = core_state;
            state.initialize();
        }

        Ok(
            Armv7a {
                memory,
                state,
                base_address,
                sequence,
                num_breakpoints: None,
                itr_enabled: false,
                register_cache: empty_register_cache(),
            },
        )
    }

    /// Forget every cached register value.
    fn reset_register_cache(&mut self)
        ensures
            final(self).cache_is_empty(),
            final(self).spec_status() == old(self).spec_status(),
    {
        self.register_cache = empty_register_cache();
    }

    /// Execute one instruction through the ITR; the core must be halted.
    fn execute_instruction(&mut self, instruction: u32) -> (r: Result<Dbgdscr, Error>)
        ensures
            final(self).spec_status() == old(self).spec_status(),
            final(self).spec_cache() == old(self).spec_cache(),
    {
        if !self.state.current_state.is_halted() {
            return Err(Error::ArchitectureSpecific(ArchitectureError::Armv7a(
                Armv7aError::NotHalted,
            )));
        }

        // Lazily enable the ITR on first use.
        if !self.itr_enabled {
            let address = Dbgdscr::get_mmio_address(self.base_address);
            let mut dbgdscr = Dbgdscr(
                match self.memory.read_word_32(address) {
                    Ok(v) => v,
                    Err(e) => {
                        return Err(e);
                    }
                },
            );
            dbgdscr.set_itren(true);
            match self.memory.write_word_32(address, dbgdscr.0) {
                Ok(()) => {}
                Err(e) => {
                    return Err(e);
                }
            }
            self.itr_enabled = true;
        }

        // Run the instruction.
        let address = Dbgitr::get_mmio_address(self.base_address);
        match self.memory.write_word_32(address, instruction) {
            Ok(()) => {}
            Err(e) => {
                return Err(e);
            }
        }

        // Wait for completion.
        let address = Dbgdscr::get_mmio_address(self.base_address);
        let mut dbgdscr = Dbgdscr(
            match self.memory.read_word_32(address) {
                Ok(v) => v,
                Err(e) => {
                    return Err(e);
                }
            },
        );
        let mut polls: u32 = 0;
        while !dbgdscr.instrcoml_l() && polls < EXECUTE_POLL_BUDGET
            invariant
                self.spec_status() == old(self).spec_status(),
                self.spec_cache() == old(self).spec_cache(),
                address == spec_mmio_address(self.base_address, 34),
            decreases EXECUTE_POLL_BUDGET - polls,
        {
            dbgdscr = Dbgdscr(
                match self.memory.read_word_32(address) {
                    Ok(v) => v,
                    Err(e) => {
                        return Err(e);
                    }
                },
            );
            polls = polls + 1;
        }
        if !dbgdscr.instrcoml_l() {
            return Err(Error::Probe(DebugProbeError::Timeout));
        }

        // A data abort means the instruction failed: clear the sticky
        // exception flags and report it.
        if dbgdscr.adabort_l() || dbgdscr.sdabort_l() {
            let address = Dbgdrcr::get_mmio_address(self.base_address);
            let mut dbgdrcr = Dbgdrcr(0);
            dbgdrcr.set_cse(true);
            match self.memory.write_word_32(address, dbgdrcr.0) {
                Ok(()) => {}
                Err(e) => {
                    return Err(e);
                }
            }
            return Err(Error::ArchitectureSpecific(ArchitectureError::Armv7a(
                Armv7aError::DataAbort,
            )));
        }

        Ok(dbgdscr)
    }

    /// Execute an instruction and read the value it left in DBGDTRTX.
    fn execute_instruction_with_result(&mut self, instruction: u32) -> (r: Result<u32, Error>)
        ensures
            final(self).spec_status() == old(self).spec_status(),
            final(self).spec_cache() == old(self).spec_cache(),
    {
        let mut dbgdscr = match self.execute_instruction(instruction) {
            Ok(d) => d,
            Err(e) => {
                return Err(e);
            }
        };

        // Wait for TXfull.
        let mut polls: u32 = 0;
        while !dbgdscr.txfull_l() && polls < EXECUTE_POLL_BUDGET
            invariant
                self.spec_status() == old(self).spec_status(),
                self.spec_cache() == old(self).spec_cache(),
            decreases EXECUTE_POLL_BUDGET - polls,
        {
            let address = Dbgdscr::get_mmio_address(self.base_address);
            dbgdscr = Dbgdscr(
                match self.memory.read_word_32(address) {
                    Ok(v) => v,
                    Err(e) => {
                        return Err(e);
                    }
                },
            );
            polls = polls + 1;
        }
        if !dbgdscr.txfull_l() {
            return Err(Error::Probe(DebugProbeError::Timeout));
        }

        let address = Dbgdtrtx::get_mmio_address(self.base_address);
        self.memory.read_word_32(address)
    }

    /// Place a value in DBGDTRRX, then execute an instruction that
    /// consumes it.
    fn execute_instruction_with_input(&mut self, instruction: u32, value: u32) -> (r: Result<
        (),
        Error,
    >)
        ensures
            final(self).spec_status() == old(self).spec_status(),
            final(self).spec_cache() == old(self).spec_cache(),
    {
        let address = Dbgdtrrx::get_mmio_address(self.base_address);
        match self.memory.write_word_32(address, value) {
            Ok(()) => {}
            Err(e) => {
                return Err(e);
            }
        }

        // Wait for RXfull.
        let address = Dbgdscr::get_mmio_address(self.base_address);
        let mut dbgdscr = Dbgdscr(
            match self.memory.read_word_32(address) {
                Ok(v) => v,
                Err(e) => {
                    return Err(e);
                }
            },
        );
        let mut polls: u32 = 0;
        while !dbgdscr.rxfull_l() && polls < EXECUTE_POLL_BUDGET
            invariant
                self.spec_status() == old(self).spec_status(),
                self.spec_cache() == old(self).spec_cache(),
            decreases EXECUTE_POLL_BUDGET - polls,
        {
            dbgdscr = Dbgdscr(
                match self.memory.read_word_32(address) {
                    Ok(v) => v,
                    Err(e) => {
                        return Err(e);
                    }
                },
            );
            polls = polls + 1;
        }
        if !dbgdscr.rxfull_l() {
            return Err(Error::Probe(DebugProbeError::Timeout));
        }

        match self.execute_instruction(instruction) {
            Ok(_) => Ok(()),
            Err(e) => Err(e),
        }
    }

    /// Save r0 into the cache before an instruction sequence clobbers it.
    fn prepare_r0_for_clobber(&mut self) -> (r: Result<(), Error>)
        ensures
            final(self).spec_status() == old(self).spec_status(),
            final(self).spec_cache().len() == old(self).spec_cache().len(),
    {
        if self.register_cache.len() > 0 {
            if self.register_cache[0].is_none() {
                let instruction = build_mcr(14, 0, 0, 0, 5, 0);
                let r0_val = match self.execute_instruction_with_result(instruction) {
                    Ok(v) => v,
                    Err(e) => {
                        return Err(e);
                    }
                };
                // r0 will be clobbered, so it must be written back on
                // resume.
                self.register_cache.set(0, Some((r0_val, true)));
            }
        }
        Ok(())
    }

    /// Move a value into r0 through the data transfer register.
    fn set_r0(&mut self, value: u32) -> (r: Result<(), Error>)
        ensures
            final(self).spec_status() == old(self).spec_status(),
            final(self).spec_cache() == old(self).spec_cache(),
    {
        let instruction = build_mrc(14, 0, 0, 0, 5, 0);
        self.execute_instruction_with_input(instruction, value)
    }

    /// Write every dirty cached register back to the core, the program
    /// counter last through `BX r0`, then forget the cache.
    fn writeback_registers(&mut self) -> (r: Result<(), Error>)
        ensures
            final(self).spec_status() == old(self).spec_status(),
            r matches Ok(()) ==> final(self).cache_is_empty(),
    {
        let ghost cache0 = self.register_cache@;
        let mut i: usize = 0;
        while i < self.register_cache.len()
            invariant
                self.register_cache@ == cache0,
                self.spec_status() == old(self).spec_status(),
                i <= cache0.len(),
            decreases self.register_cache@.len() - i,
        {
            let entry = self.register_cache[i];
            if let Some(value_writeback) = entry {
                let val = value_writeback.0;
                let writeback = value_writeback.1;
                if writeback {
                    if i <= 14 {
                        let instruction = build_mrc(14, 0, i as u16, 0, 5, 0);
                        match self.execute_instruction_with_input(instruction, val) {
                            Ok(()) => {}
                            Err(e) => {
                                return Err(e);
                            }
                        }
                    } else if i == 15 {
                        // The PC has no direct writeback: move the value
                        // to r0 and branch to it.
                        let instruction = build_mrc(14, 0, 0, 0, 5, 0);
                        match self.execute_instruction_with_input(instruction, val) {
                            Ok(()) => {}
                            Err(e) => {
                                return Err(e);
                            }
                        }
                        let instruction = build_bx(0);
                        match self.execute_instruction(instruction) {
                            Ok(_) => {}
                            Err(e) => {
                                return Err(e);
                            }
                        }
                    } else {
                        // No writeback path exists for this register.
                        return Err(Error::ArchitectureSpecific(ArchitectureError::Armv7a(
                            Armv7aError::InvalidRegisterNumber(i as u16),
                        )));
                    }
                }
            }
            i = i + 1;
        }

        self.reset_register_cache();
        Ok(())
    }
}

impl<P: ArmProbe> crate::cores::CoreInterface for Armv7a<P> {
    open spec fn spec_status_model(&self) -> CoreStatus {
        self.spec_status()
    }

    fn wait_for_core_halted(&mut self, timeout_ms: u32) -> (r: Result<(), Error>) {
        let address = Dbgdscr::get_mmio_address(self.base_address);
        let mut elapsed: u32 = 0;
        while elapsed < timeout_ms
            decreases timeout_ms - elapsed,
        {
            let dbgdscr = Dbgdscr(
                match self.memory.read_word_32(address) {
                    Ok(v) => v,
                    Err(e) => {
                        return Err(e);
                    }
                },
            );
            if dbgdscr.halted() {
                return Ok(());
            }
            crate::probe::sleep_ms(1);
            elapsed = elapsed + 1;
        }
        Err(Error::Probe(DebugProbeError::Timeout))
    }

    fn core_halted(&mut self) -> (r: Result<bool, Error>) {
        let address = Dbgdscr::get_mmio_address(self.base_address);
        let dbgdscr = Dbgdscr(
            match self.memory.read_word_32(address) {
                Ok(v) => v,
                Err(e) => {
                    return Err(e);
                }
            },
        );
        Ok(dbgdscr.halted())
    }

    fn halt(&mut self, timeout_ms: u32) -> (r: Result<CoreInformation, Error>) {
        let address = Dbgdrcr::get_mmio_address(self.base_address);
        let mut value = Dbgdrcr(0);
        value.set_hrq(true);

        match self.memory.write_word_32(address, value.0) {
            Ok(()) => {}
            Err(e) => {
                return Err(e);
            }
        }

        match self.wait_for_core_halted(timeout_ms) {
            Ok(()) => {}
            Err(e) => {
                return Err(e);
            }
        }

        // The cached values belong to the state before the halt.
        self.reset_register_cache();

        match self.status() {
            Ok(_) => {}
            Err(e) => {
                return Err(e);
            }
        }

        let pc_value = match self.read_core_reg(CoreRegisterAddress(15)) {
            Ok(v) => v,
            Err(e) => {
                return Err(e);
            }
        };
        Ok(CoreInformation { pc: pc_value })
    }

    fn run(&mut self) -> (r: Result<(), Error>)
        ensures
            r matches Ok(()) ==> final(self).cache_is_empty(),
    {
        // Push the deferred register writes back first.
        match self.writeback_registers() {
            Ok(()) => {}
            Err(e) => {
                return Err(e);
            }
        }

        let address = Dbgdrcr::get_mmio_address(self.base_address);
        let mut value = Dbgdrcr(0);
        value.set_rrq(true);

        match self.memory.write_word_32(address, value.0) {
            Ok(()) => {}
            Err(e) => {
                return Err(e);
            }
        }

        // Wait for the restart to be acknowledged.
        let address = Dbgdscr::get_mmio_address(self.base_address);
        let mut polls: u32 = 0;
        let mut restarted = false;
        while !restarted && polls < EXECUTE_POLL_BUDGET
            invariant
                polls <= EXECUTE_POLL_BUDGET,
                self.cache_is_empty(),
            decreases EXECUTE_POLL_BUDGET - polls,
        {
            let dbgdscr = Dbgdscr(
                match self.memory.read_word_32(address) {
                    Ok(v) => v,
                    Err(e) => {
                        return Err(e);
                    }
                },
            );
            restarted = dbgdscr.restarted();
            polls = polls + 1;
        }
        if !restarted {
            return Err(Error::Probe(DebugProbeError::Timeout));
        }

        self.state.current_state = CoreStatus::Running;
        match self.status() {
            Ok(_) => {}
            Err(e) => {
                return Err(e);
            }
        }
        Ok(())
    }

    fn reset(&mut self) -> (r: Result<(), Error>) {
        let base = self.base_address;
        match self.sequence.reset_system(&mut self.memory, CoreType::Armv7a, Some(base)) {
            Ok(()) => {}
            Err(e) => {
                return Err(e);
            }
        }
        self.reset_register_cache();
        Ok(())
    }

    fn reset_and_halt(&mut self, timeout_ms: u32) -> (r: Result<CoreInformation, Error>) {
        let base = self.base_address;
        match self.sequence.reset_catch_set(&mut self.memory, CoreType::Armv7a, Some(base)) {
            Ok(()) => {}
            Err(e) => {
                return Err(e);
            }
        }
        match self.sequence.reset_system(&mut self.memory, CoreType::Armv7a, Some(base)) {
            Ok(()) => {}
            Err(e) => {
                return Err(e);
            }
        }

        // Request a halt while the core is held in reset.
        let address = Dbgdrcr::get_mmio_address(self.base_address);
        let mut value = Dbgdrcr(0);
        value.set_hrq(true);
        match self.memory.write_word_32(address, value.0) {
            Ok(()) => {}
            Err(e) => {
                return Err(e);
            }
        }

        // Release the core from reset.
        match self.sequence.reset_catch_clear(&mut self.memory, CoreType::Armv7a, Some(base)) {
            Ok(()) => {}
            Err(e) => {
                return Err(e);
            }
        }

        match self.wait_for_core_halted(timeout_ms) {
            Ok(()) => {}
            Err(e) => {
                return Err(e);
            }
        }

        match self.status() {
            Ok(_) => {}
            Err(e) => {
                return Err(e);
            }
        }

        self.reset_register_cache();

        let pc_value = match self.read_core_reg(CoreRegisterAddress(15)) {
            Ok(v) => v,
            Err(e) => {
                return Err(e);
            }
        };
        Ok(CoreInformation { pc: pc_value })
    }

    fn step(&mut self) -> (r: Result<CoreInformation, Error>) {
        // ARMv7-A has no single-step bit: program the last breakpoint
        // unit as a mismatch breakpoint on the current PC, resume, and
        // wait for the halt.
        let units = match self.available_breakpoint_units() {
            Ok(n) => n,
            Err(e) => {
                return Err(e);
            }
        };
        if units == 0 {
            return Err(Error::NoAvailableBreakpointUnits);
        }
        let bp_unit_index = units - 1;
        if bp_unit_index > 0xF {
            return Err(Error::NoAvailableBreakpointUnits);
        }

        let bp_value_addr = wrap_add32(
            Dbgbvr::get_mmio_address(self.base_address),
            bp_unit_index * 4,
        );
        let saved_bp_value = match self.memory.read_word_32(bp_value_addr) {
            Ok(v) => v,
            Err(e) => {
                return Err(e);
            }
        };

        let bp_control_addr = wrap_add32(
            Dbgbcr::get_mmio_address(self.base_address),
            bp_unit_index * 4,
        );
        let saved_bp_control = match self.memory.read_word_32(bp_control_addr) {
            Ok(v) => v,
            Err(e) => {
                return Err(e);
            }
        };

        let current_pc = match self.read_core_reg(CoreRegisterAddress(15)) {
            Ok(v) => v,
            Err(e) => {
                return Err(e);
            }
        };

        let mut bp_control = Dbgbcr(0);
        // Address mismatch on all modes and bytes.
        bp_control.set_bt(0b0100);
        bp_control.set_hmc(true);
        bp_control.set_pmc(0b11);
        bp_control.set_bas(0b1111);
        bp_control.set_e(true);

        match self.memory.write_word_32(bp_value_addr, current_pc) {
            Ok(()) => {}
            Err(e) => {
                return Err(e);
            }
        }
        match self.memory.write_word_32(bp_control_addr, bp_control.0) {
            Ok(()) => {}
            Err(e) => {
                return Err(e);
            }
        }

        match self.run() {
            Ok(()) => {}
            Err(e) => {
                return Err(e);
            }
        }
        match self.wait_for_core_halted(100) {
            Ok(()) => {}
            Err(e) => {
                return Err(e);
            }
        }

        // Restore the borrowed breakpoint unit.
        match self.memory.write_word_32(bp_value_addr, saved_bp_value) {
            Ok(()) => {}
            Err(e) => {
                return Err(e);
            }
        }
        match self.memory.write_word_32(bp_control_addr, saved_bp_control) {
            Ok(()) => {}
            Err(e) => {
                return Err(e);
            }
        }

        self.state.current_state = CoreStatus::Halted(HaltReason::Step);

        let pc_value = match self.read_core_reg(CoreRegisterAddress(15)) {
            Ok(v) => v,
            Err(e) => {
                return Err(e);
            }
        };
        Ok(CoreInformation { pc: pc_value })
    }

    fn read_core_reg(&mut self, address: CoreRegisterAddress) -> (r: Result<u32, Error>)
        ensures
            final(self).spec_status() == old(self).spec_status(),
            final(self).spec_cache().len() == old(self).spec_cache().len(),
            ({
                let i = address.0 as int;
                let cache0 = old(self).spec_cache();
                (0 <= i < cache0.len() && cache0[i] is Some) ==> (r == Ok::<u32, Error>(
                    cache0[i]->Some_0.0,
                ) && final(self).spec_cache() == cache0)
            }),
            (address.0 > 16 && (address.0 as int) >= old(self).spec_cache().len()) ==> (r
                == Err::<u32, Error>(Error::ArchitectureSpecific(ArchitectureError::Armv7a(
                Armv7aError::InvalidRegisterNumber(address.0),
            ))) && final(self).spec_cache() == old(self).spec_cache()),
    {
        let reg_num = address.0;

        // A cached value answers without touching the target.
        if (reg_num as usize) < self.register_cache.len() {
            if let Some(cached) = self.register_cache[reg_num as usize] {
                return Ok(cached.0);
            }
        }

        let result: Result<u32, Error> = if reg_num <= 14 {
            let instruction = build_mcr(14, 0, reg_num, 0, 5, 0);
            self.execute_instruction_with_result(instruction)
        } else if reg_num == 15 {
            // The PC must travel through r0.
            match self.prepare_r0_for_clobber() {
                Ok(()) => {}
                Err(e) => {
                    return Err(e);
                }
            }
            let instruction = build_mov(0, 15);
            match self.execute_instruction(instruction) {
                Ok(_) => {}
                Err(e) => {
                    return Err(e);
                }
            }
            let instruction = build_mcr(14, 0, 0, 0, 5, 0);
            match self.execute_instruction_with_result(instruction) {
                Ok(pra_plus_offset) => Ok(pc_pipeline_adjust(pra_plus_offset)),
                Err(e) => Err(e),
            }
        } else if reg_num == 16 {
            // The CPSR must travel through r0.
            match self.prepare_r0_for_clobber() {
                Ok(()) => {}
                Err(e) => {
                    return Err(e);
                }
            }
            let instruction = build_mrs(0);
            match self.execute_instruction(instruction) {
                Ok(_) => {}
                Err(e) => {
                    return Err(e);
                }
            }
            let instruction = build_mcr(14, 0, 0, 0, 5, 0);
            self.execute_instruction_with_result(instruction)
        } else {
            return Err(Error::ArchitectureSpecific(ArchitectureError::Armv7a(
                Armv7aError::InvalidRegisterNumber(reg_num),
            )));
        };

        match result {
            Ok(value) => {
                if (reg_num as usize) < self.register_cache.len() {
                    self.register_cache.set(reg_num as usize, Some((value, false)));
                }
                Ok(value)
            }
            Err(e) => Err(e),
        }
    }

    fn write_core_reg(&mut self, address: CoreRegisterAddress, value: u32) -> (r: Result<
        (),
        Error,
    >)
        ensures
            final(self).spec_status() == old(self).spec_status(),
            (address.0 as int) < old(self).spec_cache().len() ==> r == Ok::<(), Error>(())
                && final(self).spec_cache() == old(self).spec_cache().update(
                address.0 as int,
                Some((value, true)),
            ),
            (address.0 as int) >= old(self).spec_cache().len() ==> r == Err::<(), Error>(
                Error::ArchitectureSpecific(ArchitectureError::Armv7a(
                    Armv7aError::InvalidRegisterNumber(address.0),
                )),
            ) && final(self).spec_cache() == old(self).spec_cache(),
    {
        let reg_num = address.0;
        if (reg_num as usize) >= self.register_cache.len() {
            return Err(Error::ArchitectureSpecific(ArchitectureError::Armv7a(
                Armv7aError::InvalidRegisterNumber(reg_num),
            )));
        }
        // The write is deferred: it lands in the cache, marked for
        // writeback on the next resume.
        self.register_cache.set(reg_num as usize, Some((value, true)));
        Ok(())
    }

    fn available_breakpoint_units(&mut self) -> (r: Result<u32, Error>)
        ensures
            r matches Ok(n) ==> final(self).spec_num_breakpoints() == Some(n),
    {
        if self.num_breakpoints.is_none() {
            let address = Dbgdidr::get_mmio_address(self.base_address);
            let dbgdidr = Dbgdidr(
                match self.memory.read_word_32(address) {
                    Ok(v) => v,
                    Err(e) => {
                        return Err(e);
                    }
                },
            );
            let brps = dbgdidr.brps();
            self.num_breakpoints = Some(
                if brps >= 0xF {
                    16
                } else {
                    brps + 1
                },
            );
        }
        match self.num_breakpoints {
            Some(n) => Ok(n),
            None => Err(Error::NoAvailableBreakpointUnits),
        }
    }

    fn hw_breakpoints(&mut self) -> (r: Result<Vec<Option<u32>>, Error>)
        ensures
            r matches Ok(v) ==> (final(self).spec_num_breakpoints() matches Some(n) && v@.len()
                == (if n > 0x10 {
                0x10int
            } else {
                n as int
            })),
    {
        let mut breakpoints: Vec<Option<u32>> = Vec::new();
        let num_hw_breakpoints = match self.available_breakpoint_units() {
            Ok(n) => n,
            Err(e) => {
                return Err(e);
            }
        };
        let count: u32 = if num_hw_breakpoints > 0x10 {
            0x10
        } else {
            num_hw_breakpoints
        };

        let mut bp_unit_index: u32 = 0;
        while bp_unit_index < count
            invariant
                bp_unit_index <= count,
                count <= 0x10,
                count as int == (if num_hw_breakpoints > 0x10 {
                    0x10int
                } else {
                    num_hw_breakpoints as int
                }),
                breakpoints@.len() == bp_unit_index,
                self.spec_num_breakpoints() == Some(num_hw_breakpoints),
            decreases count - bp_unit_index,
        {
            let bp_value_addr = wrap_add32(
                Dbgbvr::get_mmio_address(self.base_address),
                bp_unit_index * 4,
            );
            let bp_value = match self.memory.read_word_32(bp_value_addr) {
                Ok(v) => v,
                Err(e) => {
                    return Err(e);
                }
            };

            let bp_control_addr = wrap_add32(
                Dbgbcr::get_mmio_address(self.base_address),
                bp_unit_index * 4,
            );
            let bp_control = Dbgbcr(
                match self.memory.read_word_32(bp_control_addr) {
                    Ok(v) => v,
                    Err(e) => {
                        return Err(e);
                    }
                },
            );

            if bp_control.e() {
                breakpoints.push(Some(bp_value));
            } else {
                breakpoints.push(None);
            }
            bp_unit_index = bp_unit_index + 1;
        }
        Ok(breakpoints)
    }

    fn enable_breakpoints(&mut self, state: bool) -> (r: Result<(), Error>) {
        // Breakpoints are always on with ARMv7-A.
        Ok(())
    }

    fn set_hw_breakpoint(&mut self, bp_unit_index: usize, addr: u32) -> (r: Result<(), Error>) {
        if bp_unit_index > 0xF {
            return Err(Error::NoAvailableBreakpointUnits);
        }
        let bp_value_addr = wrap_add32(
            Dbgbvr::get_mmio_address(self.base_address),
            (bp_unit_index as u32) * 4,
        );
        let bp_control_addr = wrap_add32(
            Dbgbcr::get_mmio_address(self.base_address),
            (bp_unit_index as u32) * 4,
        );
        let mut bp_control = Dbgbcr(0);
        // Address match on all modes and bytes.
        bp_control.set_bt(0b0000);
        bp_control.set_hmc(true);
        bp_control.set_pmc(0b11);
        bp_control.set_bas(0b1111);
        bp_control.set_e(true);

        match self.memory.write_word_32(bp_value_addr, addr) {
            Ok(()) => {}
            Err(e) => {
                return Err(e);
            }
        }
        match self.memory.write_word_32(bp_control_addr, bp_control.0) {
            Ok(()) => {}
            Err(e) => {
                return Err(e);
            }
        }
        Ok(())
    }

    fn clear_hw_breakpoint(&mut self, bp_unit_index: usize) -> (r: Result<(), Error>) {
        if bp_unit_index > 0xF {
            return Err(Error::NoAvailableBreakpointUnits);
        }
        let bp_value_addr = wrap_add32(
            Dbgbvr::get_mmio_address(self.base_address),
            (bp_unit_index as u32) * 4,
        );
        let bp_control_addr = wrap_add32(
            Dbgbcr::get_mmio_address(self.base_address),
            (bp_unit_index as u32) * 4,
        );

        match self.memory.write_word_32(bp_value_addr, 0) {
            Ok(()) => {}
            Err(e) => {
                return Err(e);
            }
        }
        match self.memory.write_word_32(bp_control_addr, 0) {
            Ok(()) => {}
            Err(e) => {
                return Err(e);
            }
        }
        Ok(())
    }

    fn registers(&self) -> (r: RegisterFile) {
        arm_register_file()
    }

    fn hw_breakpoints_enabled(&self) -> (r: bool) {
        true
    }

    fn architecture(&self) -> (r: Architecture) {
        Architecture::Arm
    }

    fn core_type(&self) -> (r: CoreType) {
        CoreType::Armv7a
    }

    fn instruction_set(&mut self) -> (r: Result<InstructionSet, Error>) {
        let cpsr = match self.read_core_reg(CoreRegisterAddress(16)) {
            Ok(v) => v,
            Err(e) => {
                return Err(e);
            }
        };
        // CPSR bit 5: the Thumb state bit.
        if (cpsr >> 5) & 1 == 1 {
            Ok(InstructionSet::Thumb2)
        } else {
            Ok(InstructionSet::A32)
        }
    }

    fn status(&mut self) -> (r: Result<CoreStatus, Error>)
        ensures
            r matches Ok(s) ==> final(self).spec_status() == s && s != CoreStatus::Unknown,
            (r matches Ok(s) ==> (s == CoreStatus::Running ==> final(self).cache_is_empty())),
            old(self).cache_is_empty() ==> final(self).cache_is_empty(),
    {
        let address = Dbgdscr::get_mmio_address(self.base_address);
        let dbgdscr = Dbgdscr(
            match self.memory.read_word_32(address) {
                Ok(v) => v,
                Err(e) => {
                    return Err(e);
                }
            },
        );

        if dbgdscr.halted() {
            let reason = dbgdscr.halt_reason();
            self.state.current_state = CoreStatus::Halted(reason);
            return Ok(CoreStatus::Halted(reason));
        }

        // The core runs: whatever the cache held belongs to a state that
        // no longer exists.
        self.reset_register_cache();
        self.state.current_state = CoreStatus::Running;
        Ok(CoreStatus::Running)
    }

    fn read_word_32(&mut self, address: u32) -> (r: Result<u32, Error>) {
        // LDC p14, c5, [r0], #4
        let instr = build_ldc(14, 5, 0, 4);

        match self.prepare_r0_for_clobber() {
            Ok(()) => {}
            Err(e) => {
                return Err(e);
            }
        }
        match self.set_r0(address) {
            Ok(()) => {}
            Err(e) => {
                return Err(e);
            }
        }

        self.execute_instruction_with_result(instr)
    }

    fn read_word_8(&mut self, address: u32) -> (r: Result<u8, Error>) {
        // Read the surrounding word and pick the byte out of it.
        let byte_offset = address % 4;
        let word_start = address - byte_offset;

        let data = match self.read_word_32(word_start) {
            Ok(v) => v,
            Err(e) => {
                return Err(e);
            }
        };
        Ok(((data >> (8 * byte_offset)) & 0xFF) as u8)
    }

    fn read_32(&mut self, address: u32, data: &mut Vec<u32>) -> (r: Result<(), Error>) {
        let mut i: usize = 0;
        let len = data.len();
        while i < len
            invariant
                data@.len() == old(data)@.len(),
                len == data@.len(),
                i <= len,
            decreases len - i,
        {
            let a = wrap_add32(address, ((i % 0x4000_0000) as u32) * 4);
            let word = match self.read_word_32(a) {
                Ok(v) => v,
                Err(e) => {
                    return Err(e);
                }
            };
            data.set(i, word);
            i = i + 1;
        }
        Ok(())
    }

    fn read_8(&mut self, address: u32, data: &mut Vec<u8>) -> (r: Result<(), Error>) {
        let mut i: usize = 0;
        let len = data.len();
        while i < len
            invariant
                data@.len() == old(data)@.len(),
                len == data@.len(),
                i <= len,
            decreases len - i,
        {
            let a = wrap_add32(address, (i % 0x4000_0000) as u32);
            let byte = match self.read_word_8(a) {
                Ok(v) => v,
                Err(e) => {
                    return Err(e);
                }
            };
            data.set(i, byte);
            i = i + 1;
        }
        Ok(())
    }

    fn write_word_32(&mut self, address: u32, data: u32) -> (r: Result<(), Error>) {
        // STC p14, c5, [r0], #4
        let instr = build_stc(14, 5, 0, 4);

        match self.prepare_r0_for_clobber() {
            Ok(()) => {}
            Err(e) => {
                return Err(e);
            }
        }
        match self.set_r0(address) {
            Ok(()) => {}
            Err(e) => {
                return Err(e);
            }
        }

        self.execute_instruction_with_input(instr, data)
    }

    fn write_word_8(&mut self, address: u32, data: u8) -> (r: Result<(), Error>) {
        // Read the surrounding word, replace the byte, write it back.
        let byte_offset = address % 4;
        let word_start = address - byte_offset;

        let current_word = match self.read_word_32(word_start) {
            Ok(v) => v,
            Err(e) => {
                return Err(e);
            }
        };
        let shift = 8 * byte_offset;
        let new_word = (current_word & !(0xFFu32 << shift)) | ((data as u32) << shift);
        self.write_word_32(word_start, new_word)
    }

    fn write_32(&mut self, address: u32, data: &Vec<u32>) -> (r: Result<(), Error>) {
        let mut i: usize = 0;
        let len = data.len();
        while i < len
            invariant
                len == data@.len(),
                i <= len,
            decreases len - i,
        {
            let a = wrap_add32(address, ((i % 0x4000_0000) as u32) * 4);
            match self.write_word_32(a, data[i]) {
                Ok(()) => {}
                Err(e) => {
                    return Err(e);
                }
            }
            i = i + 1;
        }
        Ok(())
    }

    fn write_8(&mut self, address: u32, data: &Vec<u8>) -> (r: Result<(), Error>) {
        let mut i: usize = 0;
        let len = data.len();
        while i < len
            invariant
                len == data@.len(),
                i <= len,
            decreases len - i,
        {
            let a = wrap_add32(address, (i % 0x4000_0000) as u32);
            match self.write_word_8(a, data[i]) {
                Ok(()) => {}
                Err(e) => {
                    return Err(e);
                }
            }
            i = i + 1;
        }
        Ok(())
    }

    fn flush(&mut self) -> (r: Result<(), Error>) {
        // Accesses run through the CPU, which handles any caching.
        Ok(())
    }
}

} // verus!
