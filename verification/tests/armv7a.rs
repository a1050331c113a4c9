//! The ARMv7-A driver against a scripted memory interface: exact MMIO
//! access sequences for attach, halt, run, register reads, breakpoints
//! and memory access through instruction injection.

use probe_rs::armv7a::{
    pc_pipeline_adjust,
    build_ldc, build_mcr, build_mov, build_mrc, build_mrs, Armv7DebugRegister, Armv7a, Dbgbcr, Dbgbvr,
    Dbgdidr, Dbgdrcr, Dbgdscr, Dbgdtrrx, Dbgdtrtx, Dbgitr,
};
use probe_rs::cores::{CoreInterface, CoreStatus, HaltReason, State};
use probe_rs::error::Error;
use probe_rs::memory::ArmProbe;
use probe_rs::registers::CoreRegisterAddress;
use probe_rs::sequences::DefaultArmSequence;

const TEST_BASE_ADDRESS: u32 = 0x8000_1000;

fn address_to_reg_num(address: u32) -> u32 {
    (address - TEST_BASE_ADDRESS) / 4
}

pub struct ExpectedMemoryOp {
    read: bool,
    address: u32,
    value: u32,
}

pub struct MockProbe {
    expected_ops: Vec<ExpectedMemoryOp>,
}

impl MockProbe {
    pub fn new() -> Self {
        MockProbe { expected_ops: vec![] }
    }

    pub fn expected_read(&mut self, addr: u32, value: u32) {
        self.expected_ops.push(ExpectedMemoryOp { read: true, address: addr, value });
    }

    pub fn expected_write(&mut self, addr: u32, value: u32) {
        self.expected_ops.push(ExpectedMemoryOp { read: false, address: addr, value });
    }
}

impl ArmProbe for MockProbe {
    fn read_core_reg(&mut self, _addr: CoreRegisterAddress) -> Result<u32, Error> {
        panic!("unused in these tests")
    }

    fn write_core_reg(&mut self, _addr: CoreRegisterAddress, _value: u32) -> Result<(), Error> {
        panic!("unused in these tests")
    }

    fn read_word_32(&mut self, address: u32) -> Result<u32, Error> {
        if self.expected_ops.is_empty() {
            panic!(
                "Received unexpected read_word_32 op: register {:#}",
                address_to_reg_num(address)
            );
        }

        let expected_op = self.expected_ops.remove(0);

        assert_eq!(
            expected_op.read,
            true,
            "R/W mismatch for register: Expected {:#} Actual: {:#}",
            address_to_reg_num(expected_op.address),
            address_to_reg_num(address)
        );
        assert_eq!(
            expected_op.address,
            address,
            "Read from unexpected register: Expected {:#} Actual: {:#}",
            address_to_reg_num(expected_op.address),
            address_to_reg_num(address)
        );

        Ok(expected_op.value)
    }

    fn write_word_32(&mut self, address: u32, data: u32) -> Result<(), Error> {
        if self.expected_ops.is_empty() {
            panic!(
                "Received unexpected write_word_32 op: register {:#}",
                address_to_reg_num(address)
            );
        }

        let expected_op = self.expected_ops.remove(0);

        assert_eq!(expected_op.read, false);
        assert_eq!(
            expected_op.address,
            address,
            "Write to unexpected register: Expected {:#} Actual: {:#}",
            address_to_reg_num(expected_op.address),
            address_to_reg_num(address)
        );
        assert_eq!(
            expected_op.value, data,
            "Write value mismatch Expected {:#X} Actual: {:#X}",
            expected_op.value, data
        );

        Ok(())
    }

    fn read_word_8(&mut self, _address: u32) -> Result<u8, Error> {
        panic!("unused in these tests")
    }

    fn write_word_8(&mut self, _address: u32, _data: u8) -> Result<(), Error> {
        panic!("unused in these tests")
    }

    fn read_32(&mut self, _address: u32, _data: &mut Vec<u32>) -> Result<(), Error> {
        panic!("unused in these tests")
    }

    fn write_32(&mut self, _address: u32, _data: &Vec<u32>) -> Result<(), Error> {
        panic!("unused in these tests")
    }

    fn read_8(&mut self, _address: u32, _data: &mut Vec<u8>) -> Result<(), Error> {
        panic!("unused in these tests")
    }

    fn write_8(&mut self, _address: u32, _data: &Vec<u8>) -> Result<(), Error> {
        panic!("unused in these tests")
    }

    fn flush(&mut self) -> Result<(), Error> {
        panic!("unused in these tests")
    }
}

fn add_status_expectations(probe: &mut MockProbe, halted: bool) {
    let mut dbgdscr = Dbgdscr(0);
    dbgdscr.set_halted(halted);
    dbgdscr.set_restarted(true);
    probe.expected_read(Dbgdscr::get_mmio_address(TEST_BASE_ADDRESS), dbgdscr.0);
}

fn add_enable_itr_expectations(probe: &mut MockProbe) {
    let mut dbgdscr = Dbgdscr(0);
    dbgdscr.set_halted(true);
    probe.expected_read(Dbgdscr::get_mmio_address(TEST_BASE_ADDRESS), dbgdscr.0);
    dbgdscr.set_itren(true);
    probe.expected_write(Dbgdscr::get_mmio_address(TEST_BASE_ADDRESS), dbgdscr.0);
}

fn add_read_reg_expectations(probe: &mut MockProbe, reg: u16, value: u32) {
    probe.expected_write(
        Dbgitr::get_mmio_address(TEST_BASE_ADDRESS),
        build_mcr(14, 0, reg, 0, 5, 0),
    );
    let mut dbgdscr = Dbgdscr(0);
    dbgdscr.set_instrcoml_l(true);
    dbgdscr.set_txfull_l(true);

    probe.expected_read(Dbgdscr::get_mmio_address(TEST_BASE_ADDRESS), dbgdscr.0);
    probe.expected_read(Dbgdtrtx::get_mmio_address(TEST_BASE_ADDRESS), value);
}

fn add_read_pc_expectations(probe: &mut MockProbe, value: u32) {
    let mut dbgdscr = Dbgdscr(0);
    dbgdscr.set_instrcoml_l(true);
    dbgdscr.set_txfull_l(true);

    probe.expected_write(Dbgitr::get_mmio_address(TEST_BASE_ADDRESS), build_mov(0, 15));
    probe.expected_read(Dbgdscr::get_mmio_address(TEST_BASE_ADDRESS), dbgdscr.0);
    // + 8 to add the expected pipeline offset on halt
    add_read_reg_expectations(probe, 0, value + 8);
}

fn add_read_cpsr_expectations(probe: &mut MockProbe, value: u32) {
    let mut dbgdscr = Dbgdscr(0);
    dbgdscr.set_instrcoml_l(true);
    dbgdscr.set_txfull_l(true);

    probe.expected_write(Dbgitr::get_mmio_address(TEST_BASE_ADDRESS), build_mrs(0));
    probe.expected_read(Dbgdscr::get_mmio_address(TEST_BASE_ADDRESS), dbgdscr.0);
    add_read_reg_expectations(probe, 0, value);
}

fn add_idr_expectations(probe: &mut MockProbe, bp_count: u32) {
    let mut dbgdidr = Dbgdidr(0);
    dbgdidr.set_brps(bp_count - 1);
    probe.expected_read(Dbgdidr::get_mmio_address(TEST_BASE_ADDRESS), dbgdidr.0);
}

fn add_set_r0_expectation(probe: &mut MockProbe, value: u32) {
    let mut dbgdscr = Dbgdscr(0);
    dbgdscr.set_instrcoml_l(true);
    dbgdscr.set_rxfull_l(true);

    probe.expected_write(Dbgdtrrx::get_mmio_address(TEST_BASE_ADDRESS), value);
    probe.expected_read(Dbgdscr::get_mmio_address(TEST_BASE_ADDRESS), dbgdscr.0);

    probe.expected_write(
        Dbgitr::get_mmio_address(TEST_BASE_ADDRESS),
        build_mrc(14, 0, 0, 0, 5, 0),
    );
    probe.expected_read(Dbgdscr::get_mmio_address(TEST_BASE_ADDRESS), dbgdscr.0);
}

fn add_read_memory_expectations(probe: &mut MockProbe, address: u32, value: u32) {
    add_set_r0_expectation(probe, address);

    let mut dbgdscr = Dbgdscr(0);
    dbgdscr.set_instrcoml_l(true);
    dbgdscr.set_txfull_l(true);

    probe.expected_write(
        Dbgitr::get_mmio_address(TEST_BASE_ADDRESS),
        build_ldc(14, 5, 0, 4),
    );
    probe.expected_read(Dbgdscr::get_mmio_address(TEST_BASE_ADDRESS), dbgdscr.0);
    probe.expected_read(Dbgdtrtx::get_mmio_address(TEST_BASE_ADDRESS), value);
}

#[test]
fn armv7a_new() {
    let mut probe = MockProbe::new();

    add_status_expectations(&mut probe, true);

    let _ = Armv7a::new(
        probe,
        State::new(),
        TEST_BASE_ADDRESS,
        DefaultArmSequence::create(),
    )
    .unwrap();
}

#[test]
fn armv7a_core_halted() {
    let mut probe = MockProbe::new();

    add_status_expectations(&mut probe, true);

    let mut dbgdscr = Dbgdscr(0);
    dbgdscr.set_halted(false);
    probe.expected_read(Dbgdscr::get_mmio_address(TEST_BASE_ADDRESS), dbgdscr.0);

    dbgdscr.set_halted(true);
    probe.expected_read(Dbgdscr::get_mmio_address(TEST_BASE_ADDRESS), dbgdscr.0);

    let mut armv7a = Armv7a::new(
        probe,
        State::new(),
        TEST_BASE_ADDRESS,
        DefaultArmSequence::create(),
    )
    .unwrap();

    // First read false, second read true
    assert_eq!(false, armv7a.core_halted().unwrap());
    assert_eq!(true, armv7a.core_halted().unwrap());
}

#[test]
fn armv7a_wait_for_core_halted() {
    let mut probe = MockProbe::new();

    add_status_expectations(&mut probe, true);

    let mut dbgdscr = Dbgdscr(0);
    dbgdscr.set_halted(false);
    probe.expected_read(Dbgdscr::get_mmio_address(TEST_BASE_ADDRESS), dbgdscr.0);

    dbgdscr.set_halted(true);
    probe.expected_read(Dbgdscr::get_mmio_address(TEST_BASE_ADDRESS), dbgdscr.0);

    let mut armv7a = Armv7a::new(
        probe,
        State::new(),
        TEST_BASE_ADDRESS,
        DefaultArmSequence::create(),
    )
    .unwrap();

    // Should halt on the second read
    armv7a.wait_for_core_halted(100).unwrap();
}

#[test]
fn armv7a_status_running() {
    let mut probe = MockProbe::new();

    add_status_expectations(&mut probe, true);

    let mut dbgdscr = Dbgdscr(0);
    dbgdscr.set_halted(false);
    probe.expected_read(Dbgdscr::get_mmio_address(TEST_BASE_ADDRESS), dbgdscr.0);

    let mut armv7a = Armv7a::new(
        probe,
        State::new(),
        TEST_BASE_ADDRESS,
        DefaultArmSequence::create(),
    )
    .unwrap();

    assert_eq!(CoreStatus::Running, armv7a.status().unwrap());
}

#[test]
fn armv7a_status_halted() {
    let mut probe = MockProbe::new();

    add_status_expectations(&mut probe, true);

    let mut dbgdscr = Dbgdscr(0);
    dbgdscr.set_halted(true);
    probe.expected_read(Dbgdscr::get_mmio_address(TEST_BASE_ADDRESS), dbgdscr.0);

    let mut armv7a = Armv7a::new(
        probe,
        State::new(),
        TEST_BASE_ADDRESS,
        DefaultArmSequence::create(),
    )
    .unwrap();

    assert_eq!(CoreStatus::Halted(HaltReason::Request), armv7a.status().unwrap());
}

#[test]
fn armv7a_read_core_reg_common() {
    const REG_VALUE: u32 = 0xABCD;

    let mut probe = MockProbe::new();

    add_status_expectations(&mut probe, true);

    // Read status, update ITR
    add_enable_itr_expectations(&mut probe);

    // Read register
    add_read_reg_expectations(&mut probe, 2, REG_VALUE);

    let mut armv7a = Armv7a::new(
        probe,
        State::new(),
        TEST_BASE_ADDRESS,
        DefaultArmSequence::create(),
    )
    .unwrap();

    // First read will hit expectations
    assert_eq!(REG_VALUE, armv7a.read_core_reg(CoreRegisterAddress(2)).unwrap());

    // Second read will cache, no new expectations
    assert_eq!(REG_VALUE, armv7a.read_core_reg(CoreRegisterAddress(2)).unwrap());
}

#[test]
fn armv7a_read_core_reg_pc() {
    const REG_VALUE: u32 = 0xABCD;

    let mut probe = MockProbe::new();

    add_status_expectations(&mut probe, true);

    // Read status, update ITR
    add_enable_itr_expectations(&mut probe);

    // Read PC
    add_read_reg_expectations(&mut probe, 0, 0);
    add_read_pc_expectations(&mut probe, REG_VALUE);

    let mut armv7a = Armv7a::new(
        probe,
        State::new(),
        TEST_BASE_ADDRESS,
        DefaultArmSequence::create(),
    )
    .unwrap();

    // First read will hit expectations
    assert_eq!(REG_VALUE, armv7a.read_core_reg(CoreRegisterAddress(15)).unwrap());

    // Second read will cache, no new expectations
    assert_eq!(REG_VALUE, armv7a.read_core_reg(CoreRegisterAddress(15)).unwrap());
}

#[test]
fn armv7a_read_core_reg_cpsr() {
    const REG_VALUE: u32 = 0xABCD;

    let mut probe = MockProbe::new();

    add_status_expectations(&mut probe, true);

    // Read status, update ITR
    add_enable_itr_expectations(&mut probe);

    // Read CPSR
    add_read_reg_expectations(&mut probe, 0, 0);
    add_read_cpsr_expectations(&mut probe, REG_VALUE);

    let mut armv7a = Armv7a::new(
        probe,
        State::new(),
        TEST_BASE_ADDRESS,
        DefaultArmSequence::create(),
    )
    .unwrap();

    // First read will hit expectations
    assert_eq!(REG_VALUE, armv7a.read_core_reg(CoreRegisterAddress(16)).unwrap());

    // Second read will cache, no new expectations
    assert_eq!(REG_VALUE, armv7a.read_core_reg(CoreRegisterAddress(16)).unwrap());
}

#[test]
fn armv7a_halt() {
    const REG_VALUE: u32 = 0xABCD;

    let mut probe = MockProbe::new();

    add_status_expectations(&mut probe, true);

    // Write halt request
    let mut dbgdrcr = Dbgdrcr(0);
    dbgdrcr.set_hrq(true);
    probe.expected_write(Dbgdrcr::get_mmio_address(TEST_BASE_ADDRESS), dbgdrcr.0);

    // Wait for halted
    add_status_expectations(&mut probe, true);

    // Read status
    add_status_expectations(&mut probe, true);

    // Read status, update ITR
    add_enable_itr_expectations(&mut probe);

    // Read PC
    add_read_reg_expectations(&mut probe, 0, 0);
    add_read_pc_expectations(&mut probe, REG_VALUE);

    let mut armv7a = Armv7a::new(
        probe,
        State::new(),
        TEST_BASE_ADDRESS,
        DefaultArmSequence::create(),
    )
    .unwrap();

    // Verify PC
    assert_eq!(REG_VALUE, armv7a.halt(100).unwrap().pc);
}

#[test]
fn armv7a_run() {
    let mut probe = MockProbe::new();

    add_status_expectations(&mut probe, true);

    // Write resume request
    let mut dbgdrcr = Dbgdrcr(0);
    dbgdrcr.set_rrq(true);
    probe.expected_write(Dbgdrcr::get_mmio_address(TEST_BASE_ADDRESS), dbgdrcr.0);

    // Wait for running
    add_status_expectations(&mut probe, false);

    // Read status
    add_status_expectations(&mut probe, false);

    let mut armv7a = Armv7a::new(
        probe,
        State::new(),
        TEST_BASE_ADDRESS,
        DefaultArmSequence::create(),
    )
    .unwrap();

    armv7a.run().unwrap();
}

#[test]
fn armv7a_available_breakpoint_units() {
    const BP_COUNT: u32 = 4;
    let mut probe = MockProbe::new();

    add_status_expectations(&mut probe, true);

    // Read breakpoint count
    add_idr_expectations(&mut probe, BP_COUNT);

    let mut armv7a = Armv7a::new(
        probe,
        State::new(),
        TEST_BASE_ADDRESS,
        DefaultArmSequence::create(),
    )
    .unwrap();

    assert_eq!(BP_COUNT, armv7a.available_breakpoint_units().unwrap());
}

#[test]
fn armv7a_hw_breakpoints() {
    const BP_COUNT: u32 = 4;
    const BP1: u32 = 0x2345;
    const BP2: u32 = 0x8000_0000;
    let mut probe = MockProbe::new();

    add_status_expectations(&mut probe, true);

    // Read breakpoint count
    add_idr_expectations(&mut probe, BP_COUNT);

    // Read BP values and controls
    probe.expected_read(Dbgbvr::get_mmio_address(TEST_BASE_ADDRESS), BP1);
    probe.expected_read(Dbgbcr::get_mmio_address(TEST_BASE_ADDRESS), 1);

    probe.expected_read(Dbgbvr::get_mmio_address(TEST_BASE_ADDRESS) + (1 * 4), BP2);
    probe.expected_read(Dbgbcr::get_mmio_address(TEST_BASE_ADDRESS) + (1 * 4), 1);

    probe.expected_read(Dbgbvr::get_mmio_address(TEST_BASE_ADDRESS) + (2 * 4), 0);
    probe.expected_read(Dbgbcr::get_mmio_address(TEST_BASE_ADDRESS) + (2 * 4), 0);

    probe.expected_read(Dbgbvr::get_mmio_address(TEST_BASE_ADDRESS) + (3 * 4), 0);
    probe.expected_read(Dbgbcr::get_mmio_address(TEST_BASE_ADDRESS) + (3 * 4), 0);

    let mut armv7a = Armv7a::new(
        probe,
        State::new(),
        TEST_BASE_ADDRESS,
        DefaultArmSequence::create(),
    )
    .unwrap();

    let results = armv7a.hw_breakpoints().unwrap();
    assert_eq!(Some(BP1), results[0]);
    assert_eq!(Some(BP2), results[1]);
    assert_eq!(None, results[2]);
    assert_eq!(None, results[3]);
}

#[test]
fn armv7a_set_hw_breakpoint() {
    const BP_VALUE: u32 = 0x2345;
    let mut probe = MockProbe::new();

    add_status_expectations(&mut probe, true);

    // Update BP value and control
    let mut dbgbcr = Dbgbcr(0);
    // Match on all modes
    dbgbcr.set_hmc(true);
    dbgbcr.set_pmc(0b11);
    // Match on all bytes
    dbgbcr.set_bas(0b1111);
    // Enable
    dbgbcr.set_e(true);

    probe.expected_write(Dbgbvr::get_mmio_address(TEST_BASE_ADDRESS), BP_VALUE);
    probe.expected_write(Dbgbcr::get_mmio_address(TEST_BASE_ADDRESS), dbgbcr.0);

    let mut armv7a = Armv7a::new(
        probe,
        State::new(),
        TEST_BASE_ADDRESS,
        DefaultArmSequence::create(),
    )
    .unwrap();

    armv7a.set_hw_breakpoint(0, BP_VALUE).unwrap();
}

#[test]
fn armv7a_clear_hw_breakpoint() {
    let mut probe = MockProbe::new();

    add_status_expectations(&mut probe, true);

    // Update BP value and control
    probe.expected_write(Dbgbvr::get_mmio_address(TEST_BASE_ADDRESS), 0);
    probe.expected_write(Dbgbcr::get_mmio_address(TEST_BASE_ADDRESS), 0);

    let mut armv7a = Armv7a::new(
        probe,
        State::new(),
        TEST_BASE_ADDRESS,
        DefaultArmSequence::create(),
    )
    .unwrap();

    armv7a.clear_hw_breakpoint(0).unwrap();
}

#[test]
fn armv7a_read_word_32() {
    const MEMORY_VALUE: u32 = 0xBA5EBA11;
    const MEMORY_ADDRESS: u32 = 0x12345678;

    let mut probe = MockProbe::new();

    add_status_expectations(&mut probe, true);
    add_enable_itr_expectations(&mut probe);

    // Read memory
    add_read_reg_expectations(&mut probe, 0, 0);
    add_read_memory_expectations(&mut probe, MEMORY_ADDRESS, MEMORY_VALUE);

    let mut armv7a = Armv7a::new(
        probe,
        State::new(),
        TEST_BASE_ADDRESS,
        DefaultArmSequence::create(),
    )
    .unwrap();

    assert_eq!(MEMORY_VALUE, armv7a.read_word_32(MEMORY_ADDRESS).unwrap());
}

#[test]
fn armv7a_read_word_8() {
    const MEMORY_VALUE: u32 = 0xBA5EBA11;
    const MEMORY_ADDRESS: u32 = 0x12345679;
    const MEMORY_WORD_ADDRESS: u32 = 0x12345678;

    let mut probe = MockProbe::new();

    add_status_expectations(&mut probe, true);
    add_enable_itr_expectations(&mut probe);

    // Read memory
    add_read_reg_expectations(&mut probe, 0, 0);
    add_read_memory_expectations(&mut probe, MEMORY_WORD_ADDRESS, MEMORY_VALUE);

    let mut armv7a = Armv7a::new(
        probe,
        State::new(),
        TEST_BASE_ADDRESS,
        DefaultArmSequence::create(),
    )
    .unwrap();

    assert_eq!(0xBA, armv7a.read_word_8(MEMORY_ADDRESS).unwrap());
}

#[test]
fn armv7a_run_clears_register_cache() {
    const REG_VALUE: u32 = 0xABCD;

    let mut probe = MockProbe::new();

    add_status_expectations(&mut probe, true);

    // Read a register: it lands in the cache.
    add_enable_itr_expectations(&mut probe);
    add_read_reg_expectations(&mut probe, 2, REG_VALUE);

    // Resume: the cache holds nothing dirty, so only the resume request
    // and the status reads happen.
    let mut dbgdrcr = Dbgdrcr(0);
    dbgdrcr.set_rrq(true);
    probe.expected_write(Dbgdrcr::get_mmio_address(TEST_BASE_ADDRESS), dbgdrcr.0);
    add_status_expectations(&mut probe, false);
    add_status_expectations(&mut probe, false);

    let mut armv7a = Armv7a::new(
        probe,
        State::new(),
        TEST_BASE_ADDRESS,
        DefaultArmSequence::create(),
    )
    .unwrap();

    assert_eq!(REG_VALUE, armv7a.read_core_reg(CoreRegisterAddress(2)).unwrap());
    armv7a.run().unwrap();

    // The cached value is gone with the core running: reading a register
    // now demands a halted core.
    assert!(armv7a.read_core_reg(CoreRegisterAddress(2)).is_err());
}

#[test]
fn pc_pipeline_adjust_subtracts_the_prefetch_offset() {
    assert_eq!(pc_pipeline_adjust(100), 92);
    assert_eq!(pc_pipeline_adjust(8), 0);
    // Below 8 the subtraction wraps around the 32-bit boundary.
    assert_eq!(pc_pipeline_adjust(4), 0xFFFF_FFFC);
    assert_eq!(pc_pipeline_adjust(0), 0xFFFF_FFF8);
}
