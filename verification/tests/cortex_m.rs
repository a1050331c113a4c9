//! The Cortex-M driver against a scripted memory interface: halting an
//! already-halted core, the halt/run round trip, and the breakpoint
//! address boundary.

use probe_rs::armv6m::{
    Armv6m, BP_COMP_ADDRESS, DFSR_ADDRESS, DHCSR_ADDRESS,
};
use probe_rs::armv6m::{decode_core_status, Dhcsr};
use probe_rs::cores::{CoreInterface, CoreStatus, HaltReason, State};
use probe_rs::error::{ArchitectureError, Error};
use probe_rs::memory::ArmProbe;
use probe_rs::registers::CoreRegisterAddress;
use probe_rs::sequences::DefaultArmSequence;

enum Op {
    Read(u32, u32),
    Write(u32, u32),
    ReadReg(u16, u32),
}

struct MockProbe {
    expected_ops: Vec<Op>,
    cursor: usize,
}

impl MockProbe {
    fn new() -> Self {
        MockProbe { expected_ops: vec![], cursor: 0 }
    }

    fn expected_read(&mut self, addr: u32, value: u32) {
        self.expected_ops.push(Op::Read(addr, value));
    }

    fn expected_write(&mut self, addr: u32, value: u32) {
        self.expected_ops.push(Op::Write(addr, value));
    }

    fn expected_reg_read(&mut self, reg: u16, value: u32) {
        self.expected_ops.push(Op::ReadReg(reg, value));
    }

    fn next(&mut self) -> &Op {
        assert!(self.cursor < self.expected_ops.len(), "unexpected extra operation");
        let op = &self.expected_ops[self.cursor];
        self.cursor += 1;
        op
    }
}

impl ArmProbe for MockProbe {
    fn read_core_reg(&mut self, addr: CoreRegisterAddress) -> Result<u32, Error> {
        match self.next() {
            Op::ReadReg(reg, value) => {
                assert_eq!(*reg, addr.0, "core register read mismatch");
                Ok(*value)
            }
            _ => panic!("expected a different operation, got core register read {}", addr.0),
        }
    }

    fn write_core_reg(&mut self, _addr: CoreRegisterAddress, _value: u32) -> Result<(), Error> {
        panic!("unused in these tests")
    }

    fn read_word_32(&mut self, address: u32) -> Result<u32, Error> {
        match self.next() {
            Op::Read(addr, value) => {
                assert_eq!(*addr, address, "read from unexpected address");
                Ok(*value)
            }
            _ => panic!("expected a different operation, got read of {:#010x}", address),
        }
    }

    fn write_word_32(&mut self, address: u32, data: u32) -> Result<(), Error> {
        match self.next() {
            Op::Write(addr, value) => {
                assert_eq!(*addr, address, "write to unexpected address");
                assert_eq!(*value, data, "write value mismatch at {:#010x}", address);
                Ok(())
            }
            _ => panic!("expected a different operation, got write of {:#010x}", address),
        }
    }

    fn read_word_8(&mut self, _address: u32) -> Result<u8, Error> {
        panic!("unused in these tests")
    }

    fn write_word_8(&mut self, _address: u32, _data: u8) -> Result<(), Error> {
        panic!("unused in these tests")
    }

    fn read_32(&mut self, _address: u32, _data: &mut Vec<u32>) -> Result<(), Error> {
        panic!("unused in these tests")
    }

    fn write_32(&mut self, _address: u32, _data: &Vec<u32>) -> Result<(), Error> {
        panic!("unused in these tests")
    }

    fn read_8(&mut self, _address: u32, _data: &mut Vec<u8>) -> Result<(), Error> {
        panic!("unused in these tests")
    }

    fn write_8(&mut self, _address: u32, _data: &Vec<u8>) -> Result<(), Error> {
        panic!("unused in these tests")
    }

    fn flush(&mut self) -> Result<(), Error> {
        Ok(())
    }
}

const S_HALT: u32 = 1 << 17;
const DFSR_HALTED: u32 = 1;
const DFSR_CLEAR: u32 = 0b11111;
const DHCSR_HALT_CMD: u32 = 0xA05F_0003;
const DHCSR_STEP_CMD: u32 = 0xA05F_000D;
const DHCSR_RUN_CMD: u32 = 0xA05F_0001;

/// Halting an already-halted Cortex-M0: the status poll sees S_HALT on
/// its first read, and the PC is read and returned.
#[test]
fn cortex_m_halt_when_already_halted() {
    let mut probe = MockProbe::new();

    // Attach: the core is already halted; the halt reason is read and the
    // sticky flags cleared.
    probe.expected_read(DHCSR_ADDRESS, S_HALT);
    probe.expected_read(DFSR_ADDRESS, DFSR_HALTED);
    probe.expected_write(DFSR_ADDRESS, DFSR_CLEAR);

    // halt: the command is written with the debug key; the first poll
    // already sees S_HALT.
    probe.expected_write(DHCSR_ADDRESS, DHCSR_HALT_CMD);
    probe.expected_read(DHCSR_ADDRESS, S_HALT);

    // status: halted, the (cleared) reason is read, flags cleared again.
    probe.expected_read(DHCSR_ADDRESS, S_HALT);
    probe.expected_read(DFSR_ADDRESS, 0);
    probe.expected_write(DFSR_ADDRESS, DFSR_CLEAR);

    // The PC is read through the probe.
    probe.expected_reg_read(15, 0x0000_1234);

    let mut core = Armv6m::new(probe, State::new(), DefaultArmSequence::create()).unwrap();

    let info = core.halt(100).unwrap();
    assert_eq!(info.pc, 0x0000_1234);
}

/// `halt(); run()` starting from Running returns to a state where the
/// next `status()` reads Running.
#[test]
fn cortex_m_halt_run_round_trip() {
    let mut probe = MockProbe::new();

    // Attach: the core runs.
    probe.expected_read(DHCSR_ADDRESS, 0);
    probe.expected_write(DFSR_ADDRESS, DFSR_CLEAR);

    // halt.
    probe.expected_write(DHCSR_ADDRESS, DHCSR_HALT_CMD);
    probe.expected_read(DHCSR_ADDRESS, S_HALT);
    probe.expected_read(DHCSR_ADDRESS, S_HALT);
    probe.expected_read(DFSR_ADDRESS, DFSR_HALTED);
    probe.expected_write(DFSR_ADDRESS, DFSR_CLEAR);
    probe.expected_reg_read(15, 0x100);

    // run: a single step first (the halt reason is Request, so the
    // breakpoints stay on), then the run command.
    probe.expected_write(DHCSR_ADDRESS, DHCSR_STEP_CMD);
    probe.expected_read(DHCSR_ADDRESS, S_HALT);
    probe.expected_reg_read(15, 0x102);
    probe.expected_write(DHCSR_ADDRESS, DHCSR_RUN_CMD);

    // status: the core runs again.
    probe.expected_read(DHCSR_ADDRESS, 0);

    let mut core = Armv6m::new(probe, State::new(), DefaultArmSequence::create()).unwrap();

    core.halt(100).unwrap();
    core.run().unwrap();
    assert_eq!(core.status().unwrap(), CoreStatus::Running);
}

/// A breakpoint just below the code-memory boundary succeeds with the
/// upper half-word match kind; one at the boundary is rejected.
#[test]
fn cortex_m_breakpoint_boundary() {
    let mut probe = MockProbe::new();

    // Attach, halted.
    probe.expected_read(DHCSR_ADDRESS, S_HALT);
    probe.expected_read(DFSR_ADDRESS, DFSR_HALTED);
    probe.expected_write(DFSR_ADDRESS, DFSR_CLEAR);

    // 0x1FFF_FFFE % 4 == 2: the upper half-word is matched (kind 0b10).
    let expected_comp = (0b10u32 << 30) | (((0x1FFF_FFFEu32 >> 2) & 0x07FF_FFFF) << 2) | 1;
    probe.expected_write(BP_COMP_ADDRESS, expected_comp);

    let mut core = Armv6m::new(probe, State::new(), DefaultArmSequence::create()).unwrap();

    core.set_hw_breakpoint(0, 0x1FFF_FFFE).unwrap();

    // The breakpoint unit only covers addresses below 0x2000_0000.
    let result = core.set_hw_breakpoint(0, 0x2000_0000);
    assert_eq!(
        result,
        Err(Error::ArchitectureSpecific(ArchitectureError::UnsupportedBreakpointAddress(
            0x2000_0000
        )))
    );
}

/// Every DHCSR control write the driver emits carries the debug key in
/// its upper half.
#[test]
fn cortex_m_dhcsr_writes_carry_key() {
    assert_eq!(DHCSR_HALT_CMD >> 16, 0xA05F);
    assert_eq!(DHCSR_STEP_CMD >> 16, 0xA05F);
    assert_eq!(DHCSR_RUN_CMD >> 16, 0xA05F);

    let mut dhcsr = probe_rs::armv6m::Dhcsr(0x1234_0003);
    dhcsr.enable_write();
    assert_eq!(dhcsr.0, 0xA05F_0003);
}

#[test]
fn decode_core_status_priority_order() {

    // Lock-up wins over sleeping and halted.
    let mut dhcsr = Dhcsr(0);
    dhcsr.0 = (1 << 19) | (1 << 18) | (1 << 17);
    assert_eq!(
        decode_core_status(dhcsr, HaltReason::Request, CoreStatus::Unknown),
        CoreStatus::LockedUp
    );

    // Sleeping wins over halted.
    dhcsr.0 = (1 << 18) | (1 << 17);
    assert_eq!(
        decode_core_status(dhcsr, HaltReason::Request, CoreStatus::Unknown),
        CoreStatus::Sleeping
    );

    // Halted decodes the DFSR reason.
    dhcsr.0 = 1 << 17;
    assert_eq!(
        decode_core_status(dhcsr, HaltReason::Request, CoreStatus::Unknown),
        CoreStatus::Halted(HaltReason::Request)
    );

    // No status bit set: the core runs.
    dhcsr.0 = 0;
    assert_eq!(
        decode_core_status(dhcsr, HaltReason::Unknown, CoreStatus::Unknown),
        CoreStatus::Running
    );
}

#[test]
fn decode_core_status_keeps_cached_reason_on_empty_dfsr() {

    // The core was already halted and the sticky flags were cleared on
    // the earlier read: the cached reason stands.
    let dhcsr = Dhcsr(1 << 17);
    assert_eq!(
        decode_core_status(dhcsr, HaltReason::Unknown, CoreStatus::Halted(HaltReason::Breakpoint)),
        CoreStatus::Halted(HaltReason::Breakpoint)
    );

    // A fresh reason replaces the cached one.
    assert_eq!(
        decode_core_status(dhcsr, HaltReason::Request, CoreStatus::Halted(HaltReason::Breakpoint)),
        CoreStatus::Halted(HaltReason::Request)
    );

    // A core that was not halted before reports Unknown as the reason.
    assert_eq!(
        decode_core_status(dhcsr, HaltReason::Unknown, CoreStatus::Running),
        CoreStatus::Halted(HaltReason::Unknown)
    );
}
