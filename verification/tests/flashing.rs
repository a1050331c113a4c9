//! The flash engine against a simulated core: routine call order, error
//! propagation with uninit still running, layout building, and the
//! breakpoint set/clear round trip on the generic core handle.

use std::collections::HashMap;

use probe_rs::cores::{Core, CoreInterface, CoreState, CoreStatus, HaltReason};
use probe_rs::error::Error;
use probe_rs::family::{AddressRange, Architecture, CoreType, InstructionSet, NvmRegion, RamRegion};
use probe_rs::flash_algorithm::{FlashAlgorithm, FlashError, RawFlashAlgorithm};
use probe_rs::flash_builder::FlashBuilder;
use probe_rs::flash_properties::{FlashProperties, SectorDescription};
use probe_rs::flasher::{Flasher, FlashProgress};
use probe_rs::registers::{CoreInformation, CoreRegisterAddress, RegisterFile};

/// One recorded routine call: the entry point and the first three
/// arguments.
#[derive(Debug, Clone, Copy, PartialEq)]
struct RoutineCall {
    pc: u32,
    r0: u32,
    r1: u32,
    r2: u32,
}

/// A simulated core: registers, a byte-addressed memory, and a list of
/// the routine calls it executed.  Resuming the core "runs" the routine
/// at the current PC instantly: a program-page routine copies its bytes
/// into flash, and the configured return value lands in r0.
struct MockCore {
    regs: [u32; 17],
    memory: HashMap<u32, u8>,
    calls: Vec<RoutineCall>,
    return_values: HashMap<u32, u32>,
    program_page_pc: Option<u32>,
    bps: Vec<Option<u32>>,
}

impl MockCore {
    fn new() -> Self {
        MockCore {
            regs: [0; 17],
            memory: HashMap::new(),
            calls: Vec::new(),
            return_values: HashMap::new(),
            program_page_pc: None,
            bps: vec![None, None, None, None],
        }
    }
}

impl CoreInterface for MockCore {
    // The status model is proof-only state; the erased trait still asks
    // for an item, and the mock always reports a halted core.
    fn spec_status_model(&self) -> CoreStatus {
        CoreStatus::Halted(HaltReason::Request)
    }

    fn wait_for_core_halted(&mut self, _timeout_ms: u32) -> Result<(), Error> {
        Ok(())
    }

    fn core_halted(&mut self) -> Result<bool, Error> {
        Ok(true)
    }

    fn status(&mut self) -> Result<CoreStatus, Error> {
        Ok(CoreStatus::Halted(HaltReason::Request))
    }

    fn halt(&mut self, _timeout_ms: u32) -> Result<CoreInformation, Error> {
        Ok(CoreInformation { pc: self.regs[15] })
    }

    fn run(&mut self) -> Result<(), Error> {
        // "Execute" the routine at the current PC.
        let call = RoutineCall {
            pc: self.regs[15],
            r0: self.regs[0],
            r1: self.regs[1],
            r2: self.regs[2],
        };
        self.calls.push(call);

        if Some(call.pc) == self.program_page_pc {
            // The program-page routine copies r1 bytes from the staging
            // address in r2 to the flash address in r0.
            for k in 0..call.r1 {
                let byte = *self.memory.get(&(call.r2 + k)).unwrap_or(&0);
                self.memory.insert(call.r0 + k, byte);
            }
        }

        let ret = *self.return_values.get(&call.pc).unwrap_or(&0);
        self.regs[0] = ret;
        Ok(())
    }

    fn reset(&mut self) -> Result<(), Error> {
        Ok(())
    }

    fn reset_and_halt(&mut self, _timeout_ms: u32) -> Result<CoreInformation, Error> {
        Ok(CoreInformation { pc: self.regs[15] })
    }

    fn step(&mut self) -> Result<CoreInformation, Error> {
        Ok(CoreInformation { pc: self.regs[15] })
    }

    fn read_core_reg(&mut self, address: CoreRegisterAddress) -> Result<u32, Error> {
        Ok(self.regs[address.0 as usize])
    }

    fn write_core_reg(&mut self, address: CoreRegisterAddress, value: u32) -> Result<(), Error> {
        self.regs[address.0 as usize] = value;
        Ok(())
    }

    fn available_breakpoint_units(&mut self) -> Result<u32, Error> {
        Ok(self.bps.len() as u32)
    }

    fn hw_breakpoints(&mut self) -> Result<Vec<Option<u32>>, Error> {
        Ok(self.bps.clone())
    }

    fn enable_breakpoints(&mut self, _state: bool) -> Result<(), Error> {
        Ok(())
    }

    fn set_hw_breakpoint(&mut self, unit_index: usize, addr: u32) -> Result<(), Error> {
        self.bps[unit_index] = Some(addr);
        Ok(())
    }

    fn clear_hw_breakpoint(&mut self, unit_index: usize) -> Result<(), Error> {
        self.bps[unit_index] = None;
        Ok(())
    }

    fn registers(&self) -> RegisterFile {
        probe_rs::registers::arm_register_file()
    }

    fn hw_breakpoints_enabled(&self) -> bool {
        true
    }

    fn architecture(&self) -> Architecture {
        Architecture::Arm
    }

    fn core_type(&self) -> CoreType {
        CoreType::Armv7m
    }

    fn instruction_set(&mut self) -> Result<InstructionSet, Error> {
        Ok(InstructionSet::Thumb2)
    }

    fn read_word_32(&mut self, address: u32) -> Result<u32, Error> {
        let mut w: u32 = 0;
        for k in 0..4 {
            w |= (*self.memory.get(&(address + k)).unwrap_or(&0) as u32) << (8 * k);
        }
        Ok(w)
    }

    fn read_word_8(&mut self, address: u32) -> Result<u8, Error> {
        Ok(*self.memory.get(&address).unwrap_or(&0))
    }

    fn read_32(&mut self, address: u32, data: &mut Vec<u32>) -> Result<(), Error> {
        for i in 0..data.len() {
            let w = self.read_word_32(address + 4 * i as u32)?;
            data[i] = w;
        }
        Ok(())
    }

    fn read_8(&mut self, address: u32, data: &mut Vec<u8>) -> Result<(), Error> {
        for i in 0..data.len() {
            data[i] = *self.memory.get(&(address + i as u32)).unwrap_or(&0);
        }
        Ok(())
    }

    fn write_word_32(&mut self, address: u32, data: u32) -> Result<(), Error> {
        for k in 0..4 {
            self.memory.insert(address + k, ((data >> (8 * k)) & 0xFF) as u8);
        }
        Ok(())
    }

    fn write_word_8(&mut self, address: u32, data: u8) -> Result<(), Error> {
        self.memory.insert(address, data);
        Ok(())
    }

    fn write_32(&mut self, address: u32, data: &Vec<u32>) -> Result<(), Error> {
        for i in 0..data.len() {
            self.write_word_32(address + 4 * i as u32, data[i])?;
        }
        Ok(())
    }

    fn write_8(&mut self, address: u32, data: &Vec<u8>) -> Result<(), Error> {
        for i in 0..data.len() {
            self.memory.insert(address + i as u32, data[i]);
        }
        Ok(())
    }

    fn flush(&mut self) -> Result<(), Error> {
        Ok(())
    }
}

const FLASH_START: u32 = 0x0800_0000;
const RAM_START: u32 = 0x2000_0000;

fn test_raw_algorithm() -> RawFlashAlgorithm {
    RawFlashAlgorithm {
        name: String::from("test algorithm"),
        load_address: None,
        instructions: vec![0xAAAA_AAAA, 0xBBBB_BBBB],
        pc_init: Some(0),
        pc_uninit: Some(4),
        pc_program_page: 8,
        pc_erase_sector: 12,
        pc_erase_all: None,
        data_section_offset: 0,
        stack_size: 64,
        flash_properties: FlashProperties {
            address_range: AddressRange { start: FLASH_START, end: FLASH_START + 0x1_0000 },
            page_size: 256,
            erased_byte_value: 0xFF,
            program_page_timeout: 100,
            erase_sector_timeout: 100,
            sectors: vec![SectorDescription { size: 1024, address: 0 }],
        },
    }
}

// The assembled layout of `test_raw_algorithm` over a RAM region starting
// at RAM_START: a one-word sentinel, two instruction words, 64 bytes of
// stack, then the page buffer.
const CODE_START: u32 = RAM_START + 4;
const PC_INIT: u32 = CODE_START;
const PC_UNINIT: u32 = CODE_START + 4;
const PC_PROGRAM_PAGE: u32 = CODE_START + 8;
const PC_ERASE_SECTOR: u32 = CODE_START + 12;
const BEGIN_DATA: u32 = RAM_START + 12 + 64;

fn single_buffer_ram() -> RamRegion {
    // Room for exactly one page buffer after code and stack.
    RamRegion {
        range: AddressRange { start: RAM_START, end: BEGIN_DATA + 256 },
        cores: vec![String::from("main")],
        is_boot_memory: false,
    }
}

fn nvm_region() -> NvmRegion {
    NvmRegion {
        range: AddressRange { start: FLASH_START, end: FLASH_START + 0x1_0000 },
        cores: vec![String::from("main")],
        is_boot_memory: true,
    }
}

fn single_buffer_flasher() -> Flasher<MockCore> {
    let mut mock = MockCore::new();
    mock.program_page_pc = Some(PC_PROGRAM_PAGE);
    let core = Core::new(mock, CoreState::new(0));
    let raw = test_raw_algorithm();
    let flasher = Flasher::new(core, &raw, &single_buffer_ram()).unwrap();
    assert!(!flasher.double_buffering_supported());
    flasher
}

/// The assembly places code, data, stack and the page buffer at the
/// documented addresses.
#[test]
fn algorithm_assembly_layout() {
    let raw = test_raw_algorithm();
    let algo = FlashAlgorithm::assemble_from_raw(&raw, &single_buffer_ram()).unwrap();

    assert_eq!(algo.load_address, RAM_START);
    assert_eq!(algo.instructions, vec![0xBE00_BE00, 0xAAAA_AAAA, 0xBBBB_BBBB]);
    assert_eq!(algo.pc_init, Some(PC_INIT));
    assert_eq!(algo.pc_uninit, Some(PC_UNINIT));
    assert_eq!(algo.pc_program_page, PC_PROGRAM_PAGE);
    assert_eq!(algo.pc_erase_sector, PC_ERASE_SECTOR);
    assert_eq!(algo.begin_stack, BEGIN_DATA);
    assert_eq!(algo.begin_data, BEGIN_DATA);
    assert_eq!(algo.page_buffers, vec![BEGIN_DATA]);
}

/// A RAM region with room for two page buffers enables double buffering.
#[test]
fn algorithm_assembly_double_buffer() {
    let raw = test_raw_algorithm();
    let ram = RamRegion {
        range: AddressRange { start: RAM_START, end: RAM_START + 0x1000 },
        cores: vec![String::from("main")],
        is_boot_memory: false,
    };
    let algo = FlashAlgorithm::assemble_from_raw(&raw, &ram).unwrap();
    assert_eq!(algo.page_buffers, vec![BEGIN_DATA, BEGIN_DATA + 256]);
}

/// Programming a single 256-byte page with a single page buffer calls, in
/// order: init for the program operation, erase_sector, program_page with
/// the staging address, and uninit.  Each returns zero; the job succeeds.
#[test]
fn program_single_page_call_order() {
    let mut flasher = single_buffer_flasher();

    let mut builder = FlashBuilder::new();
    builder.add_data(FLASH_START, vec![0xAB; 256]).unwrap();

    let mut progress = FlashProgress::new();
    flasher
        .program(&nvm_region(), &builder, false, false, false, &mut progress)
        .unwrap();

    let (mock, _) = flasher.into_core().into_parts();
    assert_eq!(
        mock.calls,
        vec![
            RoutineCall { pc: PC_INIT, r0: FLASH_START, r1: 0, r2: 2 },
            RoutineCall { pc: PC_ERASE_SECTOR, r0: FLASH_START, r1: 0, r2: 2 },
            RoutineCall { pc: PC_PROGRAM_PAGE, r0: FLASH_START, r1: 256, r2: BEGIN_DATA },
            RoutineCall { pc: PC_UNINIT, r0: 2, r1: 256, r2: BEGIN_DATA },
        ]
    );
}

/// After programming, a read of the page's range gives exactly the
/// page's data.
#[test]
fn programmed_page_reads_back() {
    let mut flasher = single_buffer_flasher();

    let mut data: Vec<u8> = Vec::new();
    for i in 0..256u32 {
        data.push((i & 0xFF) as u8);
    }

    let mut builder = FlashBuilder::new();
    builder.add_data(FLASH_START, data.clone()).unwrap();

    let mut progress = FlashProgress::new();
    flasher
        .program(&nvm_region(), &builder, false, false, false, &mut progress)
        .unwrap();

    let (mock, _) = flasher.into_core().into_parts();
    let mut readback: Vec<u8> = Vec::new();
    for i in 0..256u32 {
        readback.push(*mock.memory.get(&(FLASH_START + i)).unwrap_or(&0));
    }
    assert_eq!(readback, data);
}

/// When the program-page routine returns 1, the job fails with a page
/// write error wrapping the routine failure — and uninit still runs
/// before the error propagates.
#[test]
fn program_page_failure_still_uninits() {
    let mut mock = MockCore::new();
    mock.program_page_pc = Some(PC_PROGRAM_PAGE);
    mock.return_values.insert(PC_PROGRAM_PAGE, 0x1);
    let core = Core::new(mock, CoreState::new(0));
    let raw = test_raw_algorithm();
    let mut flasher = Flasher::new(core, &raw, &single_buffer_ram()).unwrap();

    let mut builder = FlashBuilder::new();
    builder.add_data(FLASH_START, vec![0xAB; 256]).unwrap();

    let mut progress = FlashProgress::new();
    let result = flasher.program(&nvm_region(), &builder, false, false, false, &mut progress);

    match result {
        Err(FlashError::PageWrite { page_address, source }) => {
            assert_eq!(page_address, FLASH_START);
            match *source {
                FlashError::RoutineCallFailed { name, error_code } => {
                    assert_eq!(name, "program_page");
                    assert_eq!(error_code, 1);
                }
                other => panic!("unexpected source error: {:?}", other),
            }
        }
        other => panic!("unexpected result: {:?}", other.err()),
    }

    // The last routine call is still the uninit.
    let (mock, _) = flasher.into_core().into_parts();
    assert_eq!(mock.calls.last().unwrap().pc, PC_UNINIT);
}

/// A page size of zero is rejected by the layout builder.
#[test]
fn zero_page_size_rejected() {
    let mut raw = test_raw_algorithm();
    raw.flash_properties.page_size = 0;
    // Assembly itself accepts it; the layout rejects it.
    let algo = FlashAlgorithm::assemble_from_raw(&raw, &single_buffer_ram()).unwrap();

    let mut builder = FlashBuilder::new();
    builder.add_data(FLASH_START, vec![1, 2, 3]).unwrap();

    let result = builder.build_sectors_and_pages(&nvm_region(), &algo, false);
    assert!(matches!(result, Err(FlashError::InvalidPageSize)));
}

/// The layout carries the written bytes at their places and the erased
/// value elsewhere, pages are page-aligned, and the touched sector is
/// listed.
#[test]
fn layout_page_contents() {
    let raw = test_raw_algorithm();
    let algo = FlashAlgorithm::assemble_from_raw(&raw, &single_buffer_ram()).unwrap();

    let mut builder = FlashBuilder::new();
    builder.add_data(FLASH_START + 300, vec![0x11, 0x22, 0x33]).unwrap();

    let layout = builder.build_sectors_and_pages(&nvm_region(), &algo, false).unwrap();

    let pages = layout.pages();
    assert_eq!(pages.len(), 1);
    assert_eq!(pages[0].address(), FLASH_START + 256);
    assert_eq!(pages[0].data().len(), 256);
    assert_eq!(pages[0].data()[44], 0x11);
    assert_eq!(pages[0].data()[45], 0x22);
    assert_eq!(pages[0].data()[46], 0x33);
    assert_eq!(pages[0].data()[0], 0xFF);
    assert_eq!(pages[0].data()[47], 0xFF);

    let sectors = layout.sectors();
    assert_eq!(sectors.len(), 1);
    assert_eq!(sectors[0].address(), FLASH_START);
    assert_eq!(sectors[0].size(), 1024);
}

/// Overlapping spans are rejected by the builder.
#[test]
fn overlapping_spans_rejected() {
    let mut builder = FlashBuilder::new();
    builder.add_data(FLASH_START, vec![0; 16]).unwrap();
    let result = builder.add_data(FLASH_START + 8, vec![0; 16]);
    assert!(matches!(result, Err(FlashError::DataOverlaps { address: _ })));
}

/// With restore-unwritten enabled, the untouched ranges of a page become
/// fills, and filling reads them back from the target.
#[test]
fn fills_cover_unwritten_ranges() {
    let raw = test_raw_algorithm();
    let algo = FlashAlgorithm::assemble_from_raw(&raw, &single_buffer_ram()).unwrap();

    let mut builder = FlashBuilder::new();
    builder.add_data(FLASH_START + 16, vec![0x55; 16]).unwrap();

    let layout = builder.build_sectors_and_pages(&nvm_region(), &algo, true).unwrap();

    let fills = layout.fills();
    assert_eq!(fills.len(), 2);
    assert_eq!(fills[0].address(), FLASH_START);
    assert_eq!(fills[0].size(), 16);
    assert_eq!(fills[1].address(), FLASH_START + 32);
    assert_eq!(fills[1].size(), 256 - 32);
    assert_eq!(fills[0].page_index(), 0);
    assert_eq!(fills[1].page_index(), 0);
}

/// Setting a breakpoint at a fresh address and clearing it again leaves
/// the unit list exactly as it was.
#[test]
fn set_then_clear_breakpoint_restores_units() {
    let mut mock = MockCore::new();
    mock.bps = vec![Some(0x4000), None, None, None];
    let before = mock.bps.clone();

    let mut core = Core::new(mock, CoreState::new(0));

    core.set_hw_breakpoint(0x1000).unwrap();
    assert_eq!(core.hw_breakpoints().unwrap(), vec![Some(0x4000), Some(0x1000), None, None]);

    core.clear_hw_breakpoint(0x1000).unwrap();
    assert_eq!(core.hw_breakpoints().unwrap(), before);
}
