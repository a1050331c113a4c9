//! Debug sequences: the architecture-specific steps behind reset, reset
//! catch and debug-core start.

use vstd::prelude::*;

use crate::armv6m::{write_aircr, write_dhcsr, Aircr, Demcr, Dhcsr, DEMCR_ADDRESS, DHCSR_ADDRESS};
use crate::armv7a::{
    Armv7DebugRegister, Dbgdsccr, Dbgdscr, Dbgdsmcr, Dbglar, Dbgprcr, Dbgprsr,
};
use crate::dap::{DapError, DapTransfer, PortType, TransferDirection, TransferStatus};
use crate::error::{ArchitectureError, Error};
use crate::family::CoreType;
use crate::memory::ArmProbe;
use crate::probe::{DebugProbeError, JTAGAccess, RawProtocolIo, WireProtocol};
use crate::raw_dap::{
    raw_read_register, raw_write_register, spec_seg_requests, swj_sequence, TransferLog,
};

verus! {

/// An error occurred when executing an ARM debug sequence.
#[derive(Debug, Clone, Copy, PartialEq, Eq, Structural)]
pub enum ArmDebugSequenceError {
    /// Core access requires a debug base address, but none is specified.
    DebugBaseNotSpecified,
}

/// How many 1 ms polls a reset sequence waits for the reset to take
/// effect before giving up.
pub const RESET_POLL_BUDGET: u32 = 500;

/// Arm the "hold in warm reset until halted" catch on a Cortex-A core.
pub fn armv7a_reset_catch_set<P: ArmProbe>(core: &mut P, debug_base: Option<u32>) -> (r: Result<
    (),
    Error,
>)
{
    let base = match debug_base {
        Some(b) => b,
        None => {
            return Err(Error::ArchitectureSpecific(ArchitectureError::Sequence(
                ArmDebugSequenceError::DebugBaseNotSpecified,
            )));
        }
    };

    let address = Dbgprcr::get_mmio_address(base);
    let mut dbgprcr = Dbgprcr(
        match core.read_word_32(address) {
            Ok(v) => v,
            Err(e) => {
                return Err(e);
            }
        },
    );
    dbgprcr.set_hcwr(true);
    core.write_word_32(address, dbgprcr.0)
}

/// Release the warm-reset catch on a Cortex-A core.
pub fn armv7a_reset_catch_clear<P: ArmProbe>(core: &mut P, debug_base: Option<u32>) -> (r: Result<
    (),
    Error,
>)
{
    let base = match debug_base {
        Some(b) => b,
        None => {
            return Err(Error::ArchitectureSpecific(ArchitectureError::Sequence(
                ArmDebugSequenceError::DebugBaseNotSpecified,
            )));
        }
    };

    let address = Dbgprcr::get_mmio_address(base);
    let mut dbgprcr = Dbgprcr(
        match core.read_word_32(address) {
            Ok(v) => v,
            Err(e) => {
                return Err(e);
            }
        },
    );
    dbgprcr.set_hcwr(false);
    core.write_word_32(address, dbgprcr.0)
}

/// Request a warm reset of a Cortex-A core and wait until it happened.
pub fn armv7a_reset_system<P: ArmProbe>(interface: &mut P, debug_base: Option<u32>) -> (r: Result<
    (),
    Error,
>)
{
    let base = match debug_base {
        Some(b) => b,
        None => {
            return Err(Error::ArchitectureSpecific(ArchitectureError::Sequence(
                ArmDebugSequenceError::DebugBaseNotSpecified,
            )));
        }
    };

    // Request the reset.
    let address = Dbgprcr::get_mmio_address(base);
    let mut dbgprcr = Dbgprcr(
        match interface.read_word_32(address) {
            Ok(v) => v,
            Err(e) => {
                return Err(e);
            }
        },
    );
    dbgprcr.set_cwrr(true);
    match interface.write_word_32(address, dbgprcr.0) {
        Ok(()) => {}
        Err(e) => {
            return Err(e);
        }
    }

    // Wait until the sticky reset status shows it happened.
    let address = Dbgprsr::get_mmio_address(base);
    let mut polls: u32 = 0;
    while polls < RESET_POLL_BUDGET
        decreases RESET_POLL_BUDGET - polls,
    {
        let dbgprsr = Dbgprsr(
            match interface.read_word_32(address) {
                Ok(v) => v,
                Err(e) => {
                    return Err(e);
                }
            },
        );
        if dbgprsr.sr() {
            return Ok(());
        }
        crate::probe::sleep_ms(1);
        polls = polls + 1;
    }
    Err(Error::Probe(DebugProbeError::Timeout))
}

/// Start the debug block of a Cortex-A core: lock OS register access,
/// force write-through, disable TLB matching, and enable halting debug.
pub fn armv7a_core_start<P: ArmProbe>(core: &mut P, debug_base: Option<u32>) -> (r: Result<
    (),
    Error,
>)
{
    let base = match debug_base {
        Some(b) => b,
        None => {
            return Err(Error::ArchitectureSpecific(ArchitectureError::Sequence(
                ArmDebugSequenceError::DebugBaseNotSpecified,
            )));
        }
    };

    // Lock OS register access to prevent race conditions.
    let address = Dbglar::get_mmio_address(base);
    match core.write_word_32(address, 0) {
        Ok(()) => {}
        Err(e) => {
            return Err(e);
        }
    }

    // Force write-through / disable caching for debugger access.
    let address = Dbgdsccr::get_mmio_address(base);
    match core.write_word_32(address, 0) {
        Ok(()) => {}
        Err(e) => {
            return Err(e);
        }
    }

    // Disable TLB matching and updates for debugger operations.
    let address = Dbgdsmcr::get_mmio_address(base);
    match core.write_word_32(address, 0) {
        Ok(()) => {}
        Err(e) => {
            return Err(e);
        }
    }

    // Enable halting debug, unless it already is.
    let address = Dbgdscr::get_mmio_address(base);
    let mut dbgdscr = Dbgdscr(
        match core.read_word_32(address) {
            Ok(v) => v,
            Err(e) => {
                return Err(e);
            }
        },
    );
    if dbgdscr.hdbgen() {
        return Ok(());
    }
    dbgdscr.set_hdbgen(true);
    core.write_word_32(address, dbgdscr.0)
}

/// Start the debug block of a Cortex-M core: enable halting debug via
/// DHCSR, with the debug key.
pub fn cortex_m_core_start<P: ArmProbe>(core: &mut P) -> (r: Result<(), Error>)
{
    let current_dhcsr = Dhcsr(
        match core.read_word_32(DHCSR_ADDRESS) {
            Ok(v) => v,
            Err(e) => {
                return Err(e);
            }
        },
    );

    if current_dhcsr.c_debugen() {
        return Ok(());
    }

    let mut dhcsr = Dhcsr(0);
    dhcsr.set_c_debugen(true);
    dhcsr.enable_write();
    write_dhcsr(core, dhcsr)
}

/// Release the reset vector catch on a Cortex-M core.
pub fn cortex_m_reset_catch_clear<P: ArmProbe>(core: &mut P) -> (r: Result<(), Error>)
{
    let mut demcr = Demcr(
        match core.read_word_32(DEMCR_ADDRESS) {
            Ok(v) => v,
            Err(e) => {
                return Err(e);
            }
        },
    );
    demcr.set_vc_corereset(false);
    core.write_word_32(DEMCR_ADDRESS, demcr.0)
}

/// Arm the reset vector catch on a Cortex-M core, so it halts when it
/// comes out of reset.
pub fn cortex_m_reset_catch_set<P: ArmProbe>(core: &mut P) -> (r: Result<(), Error>)
{
    let mut demcr = Demcr(
        match core.read_word_32(DEMCR_ADDRESS) {
            Ok(v) => v,
            Err(e) => {
                return Err(e);
            }
        },
    );
    demcr.set_vc_corereset(true);
    match core.write_word_32(DEMCR_ADDRESS, demcr.0) {
        Ok(()) => {}
        Err(e) => {
            return Err(e);
        }
    }

    // Clear the sticky status bits by reading DHCSR once.
    match core.read_word_32(DHCSR_ADDRESS) {
        Ok(_) => Ok(()),
        Err(e) => Err(e),
    }
}

/// Reset a Cortex-M core through AIRCR.SYSRESETREQ, with the vector key,
/// and wait until the sticky reset flag reads clear.
///
/// Read errors while the target resets are tolerated: some probe and
/// target pairs fail register reads during the reset.
pub fn cortex_m_reset_system<P: ArmProbe>(interface: &mut P) -> (r: Result<(), Error>)
{
    let mut aircr = Aircr(0);
    aircr.vectkey();
    aircr.set_sysresetreq(true);
    proof {
        assert((((0u32 & 0x0000_FFFF) | 0x05FA_0000) | 0x4u32) >> 16 == 0x05FA) by (bit_vector);
    }

    match write_aircr(interface, aircr) {
        Ok(()) => {}
        Err(e) => {
            return Err(e);
        }
    }

    let mut polls: u32 = 0;
    while polls < RESET_POLL_BUDGET
        decreases RESET_POLL_BUDGET - polls,
    {
        match interface.read_word_32(DHCSR_ADDRESS) {
            Ok(val) => {
                // Wait until the sticky reset flag is cleared on a read.
                if !Dhcsr(val).s_reset_st() {
                    return Ok(());
                }
            }
            Err(_) => {}
        }
        crate::probe::sleep_ms(1);
        polls = polls + 1;
    }

    Err(Error::Probe(DebugProbeError::Timeout))
}

/// CTRL/STAT value requesting debug and system power-up.
pub const CTRL_POWER_UP_REQUEST: u32 = 0x5000_0000;

/// CTRL/STAT value requesting power-up with all byte lanes enabled.
pub const CTRL_POWER_UP_MASK_LANE: u32 = 0x5000_0F00;

/// ABORT value clearing every sticky flag.
pub const ABORT_CLEAR_ALL: u32 = 0x1E;

/// A CTRL/STAT read that was acknowledged OK and shows both CSYSPWRUPACK
/// (bit 31) and CDBGPWRUPACK (bit 29) set: the target reported debug and
/// system power.
pub open spec fn spec_powered_ctrl(t: DapTransfer) -> bool {
    &&& t.port == PortType::DebugPort
    &&& t.address == crate::dap::CTRL_ADDRESS
    &&& t.direction == TransferDirection::Read
    &&& t.status == TransferStatus::Succeeded
    &&& (t.value >> 31) & 1 == 1
    &&& (t.value >> 29) & 1 == 1
}

/// Prepare the target debug port for connection: a line reset, the
/// switch sequence into the probe's active protocol, another line reset,
/// two idle cycles, and a DPIDR read to enable the interface.
///
/// On success every transfer driven was the enabling DPIDR read or a
/// recovery transfer; the read's answer is deliberately ignored.
pub fn debug_port_setup<P: RawProtocolIo + JTAGAccess>(interface: &mut P, log: &mut TransferLog) -> (r: Result<
    (),
    Error,
>)
    ensures
        crate::raw_dap::spec_log_extends(old(log).spec_driven(), final(log).spec_driven()),
        r matches Ok(()) ==> spec_seg_requests(
            final(log).spec_driven(),
            old(log).spec_driven().len() as int,
            PortType::DebugPort,
            crate::dap::DPIDR_ADDRESS,
            TransferDirection::Read,
        ),
{
    // Make sure the current debug interface is in reset state.
    match swj_sequence(interface, 51, 0x0007_FFFF_FFFF_FFFF) {
        Ok(()) => {}
        Err(e) => {
            return Err(Error::Probe(e));
        }
    }

    // Put the debug port into the mode the probe has selected.
    let switch: u64 = match interface.active_protocol() {
        // The SWD-to-JTAG switch sequence.
        WireProtocol::Jtag => 0xE73C,
        // The JTAG-to-SWD switch sequence.
        WireProtocol::Swd => 0xE79E,
    };
    match swj_sequence(interface, 16, switch) {
        Ok(()) => {}
        Err(e) => {
            return Err(Error::Probe(e));
        }
    }

    // More than 50 cycles with the line high, then at least two idle
    // cycles with the line low.
    match swj_sequence(interface, 51, 0x0007_FFFF_FFFF_FFFF) {
        Ok(()) => {}
        Err(e) => {
            return Err(Error::Probe(e));
        }
    }
    match swj_sequence(interface, 3, 0x00) {
        Ok(()) => {}
        Err(e) => {
            return Err(Error::Probe(e));
        }
    }

    // Read DPIDR to enable the SWD interface; over JTAG the read result
    // does not matter.
    let _ = raw_read_register(interface, log, PortType::DebugPort, crate::dap::DPIDR_ADDRESS);

    Ok(())
}

/// Connect to the target debug port and power it up: clear the sticky
/// flags, select bank 0, and request debug and system power with all
/// byte lanes enabled, polling the acknowledge bits on a 100 ms budget.
///
/// On success some CTRL/STAT read driven by this call was acknowledged OK
/// with both power-up acknowledge bits set.
pub fn debug_port_start<P: RawProtocolIo + JTAGAccess>(interface: &mut P, log: &mut TransferLog) -> (r: Result<
    (),
    Error,
>)
    ensures
        crate::raw_dap::spec_log_extends(old(log).spec_driven(), final(log).spec_driven()),
        r matches Ok(()) ==> exists|j: int|
            old(log).spec_driven().len() <= j < final(log).spec_driven().len()
                && spec_powered_ctrl(#[trigger] final(log).spec_driven()[j]),
{
    let ghost l0 = log.spec_driven();
    // Clear all sticky errors first; some targets fault on the next
    // access otherwise.
    match raw_write_register(
        interface,
        log,
        PortType::DebugPort,
        crate::dap::ABORT_ADDRESS,
        ABORT_CLEAR_ALL,
    ) {
        Ok(()) => {}
        Err(e) => {
            return Err(Error::Probe(e));
        }
    }

    let ghost l1 = log.spec_driven();
    match raw_write_register(interface, log, PortType::DebugPort, crate::dap::SELECT_ADDRESS, 0) {
        Ok(()) => {}
        Err(e) => {
            proof {
                crate::raw_dap::lemma_extends_trans(l0, l1, log.spec_driven());
            }
            return Err(Error::Probe(e));
        }
    }
    proof {
        crate::raw_dap::lemma_extends_trans(l0, l1, log.spec_driven());
    }

    let ghost l2 = log.spec_driven();
    let ctrl = match raw_read_register(interface, log, PortType::DebugPort, crate::dap::CTRL_ADDRESS) {
        Ok(v) => v,
        Err(e) => {
            proof {
                crate::raw_dap::lemma_extends_trans(l0, l2, log.spec_driven());
            }
            return Err(Error::Probe(e));
        }
    };
    proof {
        crate::raw_dap::lemma_extends_trans(l0, l2, log.spec_driven());
    }
    let ghost first_read = log.spec_driven();

    // CSYSPWRUPACK is bit 31, CDBGPWRUPACK bit 29.
    let powered_down = !((ctrl >> 31) & 1 == 1 && (ctrl >> 29) & 1 == 1);

    if powered_down {
        let ghost l3 = log.spec_driven();
        match raw_write_register(
            interface,
            log,
            PortType::DebugPort,
            crate::dap::CTRL_ADDRESS,
            CTRL_POWER_UP_REQUEST,
        ) {
            Ok(()) => {}
            Err(e) => {
                proof {
                    crate::raw_dap::lemma_extends_trans(l0, l3, log.spec_driven());
                }
                return Err(Error::Probe(e));
            }
        }
        proof {
            crate::raw_dap::lemma_extends_trans(l0, l3, log.spec_driven());
        }

        let mut polls: u32 = 0;
        let mut acked = false;
        while !acked && polls < 100
            invariant
                polls <= 100,
                l0 == old(log).spec_driven(),
                crate::raw_dap::spec_log_extends(l0, log.spec_driven()),
            decreases 100 - polls,
        {
            let ghost lp = log.spec_driven();
            let ctrl = match raw_read_register(
                interface,
                log,
                PortType::DebugPort,
                crate::dap::CTRL_ADDRESS,
            ) {
                Ok(v) => v,
                Err(e) => {
                    proof {
                        crate::raw_dap::lemma_extends_trans(l0, lp, log.spec_driven());
                    }
                    return Err(Error::Probe(e));
                }
            };
            proof {
                crate::raw_dap::lemma_extends_trans(l0, lp, log.spec_driven());
            }
            acked = (ctrl >> 31) & 1 == 1 && (ctrl >> 29) & 1 == 1;
            if !acked {
                crate::probe::sleep_ms(1);
            }
            polls = polls + 1;
        }
        if !acked {
            return Err(Error::Probe(DebugProbeError::Timeout));
        }

        // Normal transfer mode, all byte lanes included.
        let ghost l4 = log.spec_driven();
        match raw_write_register(
            interface,
            log,
            PortType::DebugPort,
            crate::dap::CTRL_ADDRESS,
            CTRL_POWER_UP_MASK_LANE,
        ) {
            Ok(()) => {}
            Err(e) => {
                proof {
                    crate::raw_dap::lemma_extends_trans(l0, l4, log.spec_driven());
                }
                return Err(Error::Probe(e));
            }
        }
        proof {
            crate::raw_dap::lemma_extends_trans(l0, l4, log.spec_driven());
        }

        let ghost l5 = log.spec_driven();
        let ctrl = match raw_read_register(
            interface,
            log,
            PortType::DebugPort,
            crate::dap::CTRL_ADDRESS,
        ) {
            Ok(v) => v,
            Err(e) => {
                proof {
                    crate::raw_dap::lemma_extends_trans(l0, l5, log.spec_driven());
                }
                return Err(Error::Probe(e));
            }
        };
        proof {
            crate::raw_dap::lemma_extends_trans(l0, l5, log.spec_driven());
        }
        if !((ctrl >> 31) & 1 == 1 && (ctrl >> 29) & 1 == 1) {
            return Err(Error::Probe(DebugProbeError::Dap(DapError::TargetPowerUpFailed)));
        }
        proof {
            let post = log.spec_driven();
            assert(spec_powered_ctrl(post[post.len() - 1]));
            assert(l0.len() <= post.len() - 1 < post.len());
        }
    } else {
        proof {
            assert(spec_powered_ctrl(first_read[first_read.len() - 1]));
            crate::raw_dap::lemma_extends_trans(l0, l2, first_read);
        }
    }

    Ok(())
}

/// The default debug sequence, used for ARM chips that do not need any
/// special handling.
#[derive(Debug, Clone, Copy, PartialEq, Eq, Structural)]
pub struct DefaultArmSequence;

impl DefaultArmSequence {
    /// Create the default ARM debug sequence.
    pub fn create() -> (r: DefaultArmSequence) {
        DefaultArmSequence
    }

    /// Initialize the core's debug system, dispatching on the core type.
    pub fn debug_core_start<P: ArmProbe>(&self, core: &mut P, core_type: CoreType, debug_base: Option<u32>) -> (r: Result<(), Error>)
        requires
            core_type != CoreType::Riscv,
    {
        match core_type {
            CoreType::Armv7a => armv7a_core_start(core, debug_base),
            CoreType::Armv6m | CoreType::Armv7m | CoreType::Armv7em | CoreType::Armv8m => {
                cortex_m_core_start(core)
            }
            CoreType::Riscv => Err(Error::UnsupportedCore),
        }
    }

    /// Configure the core to stop at the reset vector after the next
    /// reset, dispatching on the core type.
    pub fn reset_catch_set<P: ArmProbe>(&self, core: &mut P, core_type: CoreType, debug_base: Option<u32>) -> (r: Result<(), Error>)
        requires
            core_type != CoreType::Riscv,
    {
        match core_type {
            CoreType::Armv7a => armv7a_reset_catch_set(core, debug_base),
            CoreType::Armv6m | CoreType::Armv7m | CoreType::Armv7em | CoreType::Armv8m => {
                cortex_m_reset_catch_set(core)
            }
            CoreType::Riscv => Err(Error::UnsupportedCore),
        }
    }

    /// Free the resources of [`DefaultArmSequence::reset_catch_set`],
    /// dispatching on the core type.
    pub fn reset_catch_clear<P: ArmProbe>(&self, core: &mut P, core_type: CoreType, debug_base: Option<u32>) -> (r: Result<(), Error>)
        requires
            core_type != CoreType::Riscv,
    {
        match core_type {
            CoreType::Armv7a => armv7a_reset_catch_clear(core, debug_base),
            CoreType::Armv6m | CoreType::Armv7m | CoreType::Armv7em | CoreType::Armv8m => {
                cortex_m_reset_catch_clear(core)
            }
            CoreType::Riscv => Err(Error::UnsupportedCore),
        }
    }

    /// Execute a system-wide reset without the debug domain, dispatching
    /// on the core type.
    pub fn reset_system<P: ArmProbe>(&self, interface: &mut P, core_type: CoreType, debug_base: Option<u32>) -> (r: Result<(), Error>)
        requires
            core_type != CoreType::Riscv,
    {
        match core_type {
            CoreType::Armv7a => armv7a_reset_system(interface, debug_base),
            CoreType::Armv6m | CoreType::Armv7m | CoreType::Armv7em | CoreType::Armv8m => {
                cortex_m_reset_system(interface)
            }
            CoreType::Riscv => Err(Error::UnsupportedCore),
        }
    }
}

} // verus!
