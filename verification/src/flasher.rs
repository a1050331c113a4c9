//! The flash-programming engine: loading a flash algorithm into target
//! RAM, invoking its entry points by forging CPU state, and the erase /
//! program pipelines, simple and double-buffered.
//!
//! A whole programming job runs under one init/uninit pair: `init` with
//! the program operation, the sector erases, the page programs, and then
//! `uninit` — which is called before an error propagates, so the chip is
//! released even when a routine fails.

use vstd::prelude::*;

use crate::cores::{Core, CoreInterface};
use crate::error::Error;
use crate::family::{Architecture, NvmRegion, RamRegion};
use crate::flash_algorithm::{FlashAlgorithm, FlashError, RawFlashAlgorithm};
use crate::flash_builder::{FlashBuilder, FlashFill, FlashLayout};
use crate::registers::CoreRegisterAddress;

verus! {

/// The operation an algorithm is initialized for.
#[derive(Debug, Clone, Copy, PartialEq, Eq, Structural)]
pub enum Operation {
    /// Erase sectors or the whole chip.
    Erase,
    /// Program pages.
    Program,
    /// Verify or read back flash contents.
    Verify,
}

/// The operation code handed to the algorithm's init and uninit routines.
pub open spec fn spec_operation_code(operation: Operation) -> u32 {
    match operation {
        Operation::Erase => 1u32,
        Operation::Program => 2u32,
        Operation::Verify => 3u32,
    }
}

impl Operation {
    /// The operation code handed to the algorithm's init routine.
    pub fn operation(&self) -> (r: u32)
        ensures
            r == spec_operation_code(*self),
    {
        match self {
            Operation::Erase => 1,
            Operation::Program => 2,
            Operation::Verify => 3,
        }
    }

    /// The operation's name, for error reports.
    pub fn operation_name(&self) -> (r: &'static str) {
        match self {
            Operation::Erase => "Erase",
            Operation::Program => "Program",
            Operation::Verify => "Verify",
        }
    }
}

/// The CPU state forged for one routine call: the entry point and up to
/// four arguments.
#[derive(Debug, Clone, Copy, PartialEq, Eq, Structural)]
pub struct Registers {
    /// The routine's entry point.
    pub pc: u32,
    /// The first argument, if any.
    pub r0: Option<u32>,
    /// The second argument, if any.
    pub r1: Option<u32>,
    /// The third argument, if any.
    pub r2: Option<u32>,
    /// The fourth argument, if any.
    pub r3: Option<u32>,
}

/// A phase boundary the flash engine reports.
#[derive(Debug, Clone, Copy, PartialEq, Eq, Structural)]
pub enum ProgressEvent {
    /// The layout was built; programming covers this many pages.
    Initialized {
        /// How many pages will be programmed.
        total_pages: usize,
    },
    /// Reading unwritten bytes back from flash started.
    StartedFilling,
    /// One fill was read back.
    PageFilled {
        /// The size of the fill in bytes.
        size: u32,
    },
    /// Reading unwritten bytes back failed.
    FailedFilling,
    /// All fills were read back.
    FinishedFilling,
    /// Erasing started.
    StartedErasing,
    /// One sector was erased.
    SectorErased {
        /// The size of the sector in bytes.
        size: u32,
    },
    /// Erasing failed.
    FailedErasing,
    /// All sectors were erased.
    FinishedErasing,
    /// Programming started.
    StartedProgramming,
    /// One page was programmed.
    PageProgrammed {
        /// The size of the page in bytes.
        size: u32,
    },
    /// Programming failed.
    FailedProgramming,
    /// All pages were programmed.
    FinishedProgramming,
}

/// Collects the progress events of one programming job.
#[derive(Debug, Clone)]
pub struct FlashProgress {
    events: Vec<ProgressEvent>,
}

impl FlashProgress {
    /// An empty event log.
    pub fn new() -> (r: FlashProgress)
        ensures
            r.spec_events() == Seq::<ProgressEvent>::empty(),
    {
        FlashProgress { events: Vec::new() }
    }

    /// The events reported so far, in order.
    pub closed spec fn spec_events(&self) -> Seq<ProgressEvent> {
        self.events@
    }

    /// The events reported so far, in order.
    pub fn events(&self) -> (r: &Vec<ProgressEvent>)
        ensures
            r@ == self.spec_events(),
    {
        &self.events
    }

    /// Report a phase boundary.
    pub fn emit(&mut self, event: ProgressEvent)
        ensures
            final(self).spec_events() == old(self).spec_events().push(event),
    {
        self.events.push(event);
    }
}

/// Every page of a layout fits the address space, so its size can be
/// reported in 32 bits.
pub open spec fn layout_pages_bounded(layout: FlashLayout) -> bool {
    forall|pi: int|
        0 <= pi < layout.spec_pages().len() ==> (#[trigger] layout.spec_pages()[pi]).spec_data().len()
            <= u32::MAX
}

/// A structure to control the flash of an attached chip.
pub struct Flasher<C: CoreInterface> {
    core: Core<C>,
    flash_algorithm: FlashAlgorithm,
    calls: Ghost<Seq<Registers>>,
    uninit_attempted: Ghost<bool>,
}

/// The register writes that forge the CPU state of one routine call: the
/// entry point into the program counter, each given argument into its
/// argument register, for init calls the static base into platform
/// register 9 and the initial stack pointer, and the return address —
/// the load address, with bit 0 set on Thumb cores — into the link
/// register.
pub open spec fn spec_routine_register_writes(
    file: crate::registers::RegisterFile,
    regs: Registers,
    init: bool,
    is_thumb: bool,
    static_base: u32,
    begin_stack: u32,
    load_address: u32,
) -> Seq<(CoreRegisterAddress, u32)> {
    let args = (match regs.r0 {
        Some(v) => seq![(file.argument_registers@[0].address, v)],
        None => Seq::empty(),
    }) + (match regs.r1 {
        Some(v) => seq![(file.argument_registers@[1].address, v)],
        None => Seq::empty(),
    }) + (match regs.r2 {
        Some(v) => seq![(file.argument_registers@[2].address, v)],
        None => Seq::empty(),
    }) + (match regs.r3 {
        Some(v) => seq![(file.argument_registers@[3].address, v)],
        None => Seq::empty(),
    });
    let setup = if init {
        seq![
            (file.platform_registers@[9].address, static_base),
            (file.stack_pointer.address, begin_stack),
        ]
    } else {
        Seq::empty()
    };
    let return_address = if is_thumb {
        (((load_address as int) + 1) % 0x1_0000_0000) as u32
    } else {
        load_address
    };
    seq![(file.program_counter.address, regs.pc)] + args + setup + seq![
        (file.return_address.address, return_address),
    ]
}

/// Build the register writes of one routine call.
pub fn routine_register_writes(file: &crate::registers::RegisterFile, regs: &Registers, init: bool, is_thumb: bool, static_base: u32, begin_stack: u32, load_address: u32) -> (r: Vec<
    (CoreRegisterAddress, u32),
>)
    requires
        file.well_formed(),
    ensures
        r@ == spec_routine_register_writes(
            *file,
            *regs,
            init,
            is_thumb,
            static_base,
            begin_stack,
            load_address,
        ),
{
    let mut writes: Vec<(CoreRegisterAddress, u32)> = Vec::new();
    writes.push((file.program_counter().address, regs.pc));
    if let Some(v) = regs.r0 {
        writes.push((file.argument_register(0).address, v));
    }
    if let Some(v) = regs.r1 {
        writes.push((file.argument_register(1).address, v));
    }
    if let Some(v) = regs.r2 {
        writes.push((file.argument_register(2).address, v));
    }
    if let Some(v) = regs.r3 {
        writes.push((file.argument_register(3).address, v));
    }
    if init {
        writes.push((file.platform_register(9).address, static_base));
        writes.push((file.stack_pointer().address, begin_stack));
    }
    let return_address = if is_thumb {
        crate::armv7a::wrap_add32(load_address, 1)
    } else {
        load_address
    };
    writes.push((file.return_address().address, return_address));
    proof {
        assert(writes@ =~= spec_routine_register_writes(
            *file,
            *regs,
            init,
            is_thumb,
            static_base,
            begin_stack,
            load_address,
        ));
    }
    writes
}

/// The byte a packed word takes from position `j`, with positions past
/// the end reading as zero.
pub open spec fn spec_byte_or_zero(s: Seq<u8>, j: int) -> u8 {
    if 0 <= j < s.len() {
        s[j]
    } else {
        0
    }
}

/// Word `i` of a byte stream packed little-endian, the trailing partial
/// word padded with zeroes.
pub open spec fn spec_packed_word(s: Seq<u8>, i: int) -> u32 {
    ((spec_byte_or_zero(s, 4 * i) as u32) | ((spec_byte_or_zero(s, 4 * i + 1) as u32) << 8) | ((
    spec_byte_or_zero(s, 4 * i + 2) as u32) << 16)) | ((spec_byte_or_zero(s, 4 * i + 3) as u32)
        << 24)
}

/// Fetch the byte at `base + off`, or zero past the end of the stream.
fn byte_or_zero(bytes: &Vec<u8>, base: usize, off: usize) -> (r: u8)
    requires
        base + off <= usize::MAX,
    ensures
        r == spec_byte_or_zero(bytes@, base + off),
{
    if base + off < bytes.len() {
        bytes[base + off]
    } else {
        0
    }
}

/// Pack a byte stream into little-endian words, padding the trailing
/// partial word with zeroes.
pub fn pack_words(bytes: &Vec<u8>) -> (r: Vec<u32>)
    requires
        bytes@.len() <= 0x0FFF_FFFF,
    ensures
        r@.len() == bytes@.len() / 4 + (if bytes@.len() % 4 == 0 {
            0int
        } else {
            1int
        }),
        forall|i: int| 0 <= i < r@.len() ==> #[trigger] r@[i] == spec_packed_word(bytes@, i),
{
    let len = bytes.len();
    let n_words = len / 4 + (if len % 4 == 0 {
        0
    } else {
        1
    });
    let mut words: Vec<u32> = Vec::new();
    let mut i: usize = 0;
    while i < n_words
        invariant
            i <= n_words,
            len == bytes@.len(),
            len <= 0x0FFF_FFFF,
            n_words <= len / 4 + 1,
            words@.len() == i,
            forall|k: int| 0 <= k < i ==> #[trigger] words@[k] == spec_packed_word(bytes@, k),
        decreases n_words - i,
    {
        let base = 4 * i;
        let w = ((byte_or_zero(bytes, base, 0) as u32) | ((byte_or_zero(bytes, base, 1) as u32)
            << 8) | ((byte_or_zero(bytes, base, 2) as u32) << 16)) | ((byte_or_zero(bytes, base, 3)
            as u32) << 24);
        words.push(w);
        i = i + 1;
    }
    words
}

/// Compare the words read back from RAM with the loaded algorithm: they
/// must match word for word, else the algorithm is not loaded.
pub fn verify_loaded(expected: &Vec<u32>, readback: &Vec<u32>) -> (r: Result<(), FlashError>)
    ensures
        r matches Ok(()) <==> readback@ == expected@,
        r matches Err(e) ==> e matches FlashError::FlashAlgorithmNotLoaded,
{
    if readback.len() != expected.len() {
        return Err(FlashError::FlashAlgorithmNotLoaded);
    }
    let mut j: usize = 0;
    while j < expected.len()
        invariant
            j <= expected@.len(),
            readback@.len() == expected@.len(),
            forall|k: int| 0 <= k < j ==> readback@[k] == expected@[k],
        decreases expected@.len() - j,
    {
        if readback[j] != expected[j] {
            return Err(FlashError::FlashAlgorithmNotLoaded);
        }
        j = j + 1;
    }
    proof {
        assert(readback@ =~= expected@);
    }
    Ok(())
}

/// Map an algorithm routine's result to the engine's outcome: zero is
/// success, anything else fails with the routine's name and code.
pub fn check_routine_result(name: &'static str, result: u32) -> (r: Result<(), FlashError>)
    ensures
        result == 0 <==> r matches Ok(()),
        result != 0 ==> (r matches Err(e) && e == (FlashError::RoutineCallFailed {
            name,
            error_code: result,
        })),
{
    if result != 0 {
        Err(FlashError::RoutineCallFailed { name, error_code: result })
    } else {
        Ok(())
    }
}

/// The call the init routine is invoked with, if the algorithm has one:
/// the flash base address, the clock, and the operation code.
pub open spec fn spec_init_calls(algo: FlashAlgorithm, operation_code: u32, clock_arg: u32) -> Seq<
    Registers,
> {
    match algo.pc_init {
        Some(p) => seq![
            (Registers {
                pc: p,
                r0: Some(algo.flash_properties.address_range.start),
                r1: Some(clock_arg),
                r2: Some(operation_code),
                r3: None,
            }),
        ],
        None => Seq::empty(),
    }
}

/// The call the uninit routine is invoked with, if the algorithm has one:
/// the operation code.
pub open spec fn spec_uninit_calls(algo: FlashAlgorithm, operation_code: u32) -> Seq<Registers> {
    match algo.pc_uninit {
        Some(p) => seq![
            (Registers { pc: p, r0: Some(operation_code), r1: None, r2: None, r3: None }),
        ],
        None => Seq::empty(),
    }
}

impl<C: CoreInterface> Flasher<C> {
    /// The algorithm this flasher works with.
    pub closed spec fn spec_flash_algorithm(&self) -> FlashAlgorithm {
        self.flash_algorithm
    }

    /// The routine calls started on the target so far, in order, each with
    /// the CPU state it was invoked with.
    pub closed spec fn spec_calls(&self) -> Seq<Registers> {
        self.calls@
    }

    /// Whether the engine has run its uninit step since the last
    /// programming job began.
    pub closed spec fn spec_uninit_attempted(&self) -> bool {
        self.uninit_attempted@
    }

    /// Assemble the raw algorithm against the RAM region and load it onto
    /// the target.
    pub fn new(core: Core<C>, raw_flash_algorithm: &RawFlashAlgorithm, ram: &RamRegion) -> (r:
        Result<Flasher<C>, FlashError>)
    {
        let flash_algorithm = match FlashAlgorithm::assemble_from_raw(raw_flash_algorithm, ram) {
            Ok(a) => a,
            Err(e) => {
                return Err(e);
            }
        };
        let mut this = Flasher {
            core,
            flash_algorithm,
            calls: Ghost(Seq::empty()),
            uninit_attempted: Ghost(false),
        };
        match this.load() {
            Ok(()) => Ok(this),
            Err(e) => Err(e),
        }
    }

    /// Give the core handle back, dissolving the flasher.
    pub fn into_core(self) -> (r: Core<C>) {
        self.core
    }

    /// The algorithm this flasher works with.
    pub fn flash_algorithm(&self) -> (r: &FlashAlgorithm)
        ensures
            *r == self.spec_flash_algorithm(),
    {
        &self.flash_algorithm
    }

    /// Whether the algorithm has two page buffers, enabling the
    /// double-buffered pipeline.
    pub fn double_buffering_supported(&self) -> (r: bool)
        ensures
            r == (self.spec_flash_algorithm().page_buffers@.len() > 1),
    {
        self.flash_algorithm.page_buffers.len() > 1
    }

    /// Whether the algorithm has a chip-wide erase routine.
    pub fn is_chip_erase_supported(&self) -> (r: bool)
        ensures
            r == (self.spec_flash_algorithm().pc_erase_all is Some),
    {
        self.flash_algorithm.pc_erase_all.is_some()
    }

    /// Halt and reset the core, write the algorithm into RAM, read it
    /// back and compare word by word.
    pub fn load(&mut self) -> (r: Result<(), FlashError>)
        ensures
            final(self).spec_flash_algorithm() == old(self).spec_flash_algorithm(),
            final(self).spec_calls() == old(self).spec_calls(),
            final(self).spec_uninit_attempted() == old(self).spec_uninit_attempted(),
    {
        match self.core.halt(100) {
            Ok(_) => {}
            Err(e) => {
                return Err(FlashError::Core(e));
            }
        }
        match self.core.reset_and_halt(500) {
            Ok(_) => {}
            Err(e) => {
                return Err(FlashError::Core(e));
            }
        }

        let load_address = self.flash_algorithm.load_address;
        match self.core.write_32(load_address, &self.flash_algorithm.instructions) {
            Ok(()) => {}
            Err(e) => {
                return Err(FlashError::Core(e));
            }
        }

        let count = self.flash_algorithm.instructions.len();
        let mut readback: Vec<u32> = Vec::new();
        let mut i: usize = 0;
        while i < count
            invariant
                readback@.len() == i,
                i <= count,
            decreases count - i,
        {
            readback.push(0);
            i = i + 1;
        }
        match self.core.read_32(load_address, &mut readback) {
            Ok(()) => {}
            Err(e) => {
                return Err(FlashError::Core(e));
            }
        }

        verify_loaded(&self.flash_algorithm.instructions, &readback)
    }

    /// Forge the CPU state for a routine call and resume the core: the
    /// arguments in the first four argument registers, for init calls the
    /// static base in platform register 9 and the stack pointer, and the
    /// return address pointing at the sentinel so the core halts when the
    /// routine returns.  On success the call is appended to the routine
    /// log.
    pub fn call_function(&mut self, registers: &Registers, init: bool) -> (r: Result<(), Error>)
        ensures
            final(self).spec_flash_algorithm() == old(self).spec_flash_algorithm(),
            final(self).spec_uninit_attempted() == old(self).spec_uninit_attempted(),
            r matches Ok(()) ==> final(self).spec_calls() == old(self).spec_calls().push(
                *registers,
            ),
            r matches Err(e) ==> final(self).spec_calls() == old(self).spec_calls(),
    {
        let regs = self.core.registers();

        // The return address lands on the sentinel breakpoint at the load
        // address; Thumb cores need bit 0 set to stay in Thumb state.
        let is_thumb = match self.core.instruction_set() {
            Ok(crate::family::InstructionSet::Thumb2) => true,
            Ok(_) => false,
            Err(e) => {
                return Err(e);
            }
        };

        let writes = routine_register_writes(
            &regs,
            registers,
            init,
            is_thumb,
            self.flash_algorithm.static_base,
            self.flash_algorithm.begin_stack,
            self.flash_algorithm.load_address,
        );
        let mut w: usize = 0;
        while w < writes.len()
            invariant
                self.spec_flash_algorithm() == old(self).spec_flash_algorithm(),
                self.spec_calls() == old(self).spec_calls(),
                self.spec_uninit_attempted() == old(self).spec_uninit_attempted(),
            decreases writes@.len() - w,
        {
            let pair = writes[w];
            match self.core.write_core_reg(pair.0, pair.1) {
                Ok(()) => {}
                Err(e) => {
                    return Err(e);
                }
            }
            w = w + 1;
        }

        if self.core.architecture() == Architecture::Riscv {
            // Make sure `ebreak` traps into debug mode, so the sentinel
            // halts the core.
            let dcsr = match self.core.read_core_reg(CoreRegisterAddress(0x7b0)) {
                Ok(v) => v,
                Err(e) => {
                    return Err(e);
                }
            };
            match self.core.write_core_reg(
                CoreRegisterAddress(0x7b0),
                dcsr | 0x8000 | 0x2000 | 0x1000,
            ) {
                Ok(()) => {}
                Err(e) => {
                    return Err(e);
                }
            }
        }

        match self.core.run() {
            Ok(()) => {
                self.calls = Ghost(self.calls@.push(*registers));
                Ok(())
            }
            Err(e) => Err(e),
        }
    }

    /// Wait until the routine returned (the core halted), and read its    /// Wait until the routine returned (the core halted), and read its
    /// result from the first result register.
    pub fn wait_for_completion(&mut self, timeout_ms: u32) -> (r: Result<u32, Error>)
        ensures
            final(self).spec_flash_algorithm() == old(self).spec_flash_algorithm(),
            final(self).spec_calls() == old(self).spec_calls(),
            final(self).spec_uninit_attempted() == old(self).spec_uninit_attempted(),
    {
        match self.core.wait_for_core_halted(timeout_ms) {
            Ok(()) => {}
            Err(e) => {
                return Err(e);
            }
        }
        let regs = self.core.registers();
        self.core.read_core_reg(regs.result_register(0).address)
    }

    /// Call a routine and wait for its result.
    pub fn call_function_and_wait(&mut self, registers: &Registers, init: bool, timeout_ms: u32) -> (r: Result<u32, Error>)
        ensures
            final(self).spec_flash_algorithm() == old(self).spec_flash_algorithm(),
            final(self).spec_uninit_attempted() == old(self).spec_uninit_attempted(),
            r matches Ok(v) ==> final(self).spec_calls() == old(self).spec_calls().push(
                *registers,
            ),
            final(self).spec_calls() == old(self).spec_calls() || final(self).spec_calls() == old(
                self,
            ).spec_calls().push(*registers),
    {
        match self.call_function(registers, init) {
            Ok(()) => {}
            Err(e) => {
                return Err(e);
            }
        }
        self.wait_for_completion(timeout_ms)
    }

    /// Run the algorithm's init routine, if it has one, for the given
    /// operation.
    pub fn init(&mut self, operation: Operation, clock: Option<u32>) -> (r: Result<
        (),
        FlashError,
    >)
        ensures
            final(self).spec_flash_algorithm() == old(self).spec_flash_algorithm(),
            final(self).spec_uninit_attempted() == old(self).spec_uninit_attempted(),
            old(self).spec_flash_algorithm().pc_init is None ==> r == Ok::<(), FlashError>(())
                && final(self).spec_calls() == old(self).spec_calls(),
            r matches Err(e) ==> (e matches FlashError::Init(source)) || (e matches
            FlashError::RoutineCallFailed { name, error_code }),
            r matches Ok(()) ==> final(self).spec_calls() == old(self).spec_calls()
                + spec_init_calls(
                old(self).spec_flash_algorithm(),
                spec_operation_code(operation),
                (match clock {
                    Some(c) => c,
                    None => 0u32,
                }),
            ),
    {
        let address = self.flash_algorithm.flash_properties.address_range.start;
        if let Some(pc_init) = self.flash_algorithm.pc_init {
            let clock_arg = match clock {
                Some(c) => c,
                None => 0,
            };
            let call = Registers {
                pc: pc_init,
                r0: Some(address),
                r1: Some(clock_arg),
                r2: Some(operation.operation()),
                r3: None,
            };
            let result = match self.call_function_and_wait(&call, true, 2000) {
                Ok(v) => v,
                Err(e) => {
                    return Err(FlashError::Init(Box::new(FlashError::Core(e))));
                }
            };
            match check_routine_result("init", result) {
                Ok(()) => {}
                Err(e) => {
                    return Err(e);
                }
            }
            proof {
                assert(self.spec_calls() =~= old(self).spec_calls() + spec_init_calls(
                    old(self).spec_flash_algorithm(),
                    spec_operation_code(operation),
                    clock_arg,
                ));
            }
        }
        Ok(())
    }

    /// Run the algorithm's uninit routine, if it has one, for the given
    /// operation.
    pub fn uninit(&mut self, operation: Operation) -> (r: Result<(), FlashError>)
        ensures
            final(self).spec_flash_algorithm() == old(self).spec_flash_algorithm(),
            final(self).spec_uninit_attempted(),
            old(self).spec_flash_algorithm().pc_uninit is None ==> r == Ok::<(), FlashError>(())
                && final(self).spec_calls() == old(self).spec_calls(),
            r matches Err(e) ==> (e matches FlashError::Uninit(source)) || (e matches
            FlashError::RoutineCallFailed { name, error_code }),
            r matches Ok(()) ==> final(self).spec_calls() == old(self).spec_calls()
                + spec_uninit_calls(
                old(self).spec_flash_algorithm(),
                spec_operation_code(operation),
            ),
    {
        self.uninit_attempted = Ghost(true);
        if let Some(pc_uninit) = self.flash_algorithm.pc_uninit {
            let call = Registers {
                pc: pc_uninit,
                r0: Some(operation.operation()),
                r1: None,
                r2: None,
                r3: None,
            };
            let result = match self.call_function_and_wait(&call, false, 2000) {
                Ok(v) => v,
                Err(e) => {
                    return Err(FlashError::Uninit(Box::new(FlashError::Core(e))));
                }
            };
            match check_routine_result("uninit", result) {
                Ok(()) => {}
                Err(e) => {
                    return Err(e);
                }
            }
            proof {
                assert(self.spec_calls() =~= old(self).spec_calls() + spec_uninit_calls(
                    old(self).spec_flash_algorithm(),
                    spec_operation_code(operation),
                ));
            }
        }
        Ok(())
    }

    /// Erase the whole chip, where the algorithm supports it.
    pub fn erase_all(&mut self) -> (r: Result<(), FlashError>)
        ensures
            final(self).spec_flash_algorithm() == old(self).spec_flash_algorithm(),
            final(self).spec_uninit_attempted() == old(self).spec_uninit_attempted(),
            old(self).spec_flash_algorithm().pc_erase_all is None ==> (r matches Err(e) && (
            e matches FlashError::ChipEraseNotSupported)),
            r matches Ok(()) ==> (old(self).spec_flash_algorithm().pc_erase_all matches Some(p)
                && final(self).spec_calls() == old(self).spec_calls().push(
                (Registers { pc: p, r0: None, r1: None, r2: None, r3: None }),
            )),
    {
        match self.flash_algorithm.pc_erase_all {
            Some(pc_erase_all) => {
                let result = match self.call_function_and_wait(
                    &Registers { pc: pc_erase_all, r0: None, r1: None, r2: None, r3: None },
                    false,
                    30_000,
                ) {
                    Ok(v) => v,
                    Err(e) => {
                        return Err(FlashError::ChipEraseFailed {
                            source: Box::new(FlashError::Core(e)),
                        });
                    }
                };
                if result != 0 {
                    Err(
                        FlashError::ChipEraseFailed {
                            source: Box::new(
                                FlashError::RoutineCallFailed {
                                    name: "chip_erase",
                                    error_code: result,
                                },
                            ),
                        },
                    )
                } else {
                    Ok(())
                }
            }
            None => Err(FlashError::ChipEraseNotSupported),
        }
    }

    /// Erase the sector at `address`.
    pub fn erase_sector(&mut self, address: u32) -> (r: Result<(), FlashError>)
        ensures
            final(self).spec_flash_algorithm() == old(self).spec_flash_algorithm(),
            final(self).spec_uninit_attempted() == old(self).spec_uninit_attempted(),
            r matches Ok(()) ==> final(self).spec_calls() == old(self).spec_calls().push(
                (Registers {
                    pc: old(self).spec_flash_algorithm().pc_erase_sector,
                    r0: Some(address),
                    r1: None,
                    r2: None,
                    r3: None,
                }),
            ),
    {
        let timeout = self.flash_algorithm.flash_properties.erase_sector_timeout;
        let pc = self.flash_algorithm.pc_erase_sector;
        let result = match self.call_function_and_wait(
            &Registers { pc, r0: Some(address), r1: None, r2: None, r3: None },
            false,
            timeout,
        ) {
            Ok(v) => v,
            Err(e) => {
                return Err(FlashError::Core(e));
            }
        };
        check_routine_result("erase_sector", result)
    }

    /// Program one page: stage the bytes at the data address, then run
    /// the program-page routine on them.
    pub fn program_page(&mut self, address: u32, bytes: &Vec<u8>) -> (r: Result<(), FlashError>)
        ensures
            final(self).spec_flash_algorithm() == old(self).spec_flash_algorithm(),
            final(self).spec_uninit_attempted() == old(self).spec_uninit_attempted(),
            bytes@.len() > 0xFFFF_FFFF ==> (r matches Err(e) && (e matches
            FlashError::AlgorithmTooLarge)) && final(self).spec_calls() == old(self).spec_calls(),
            r matches Ok(()) ==> final(self).spec_calls() == old(self).spec_calls().push(
                (Registers {
                    pc: old(self).spec_flash_algorithm().pc_program_page,
                    r0: Some(address),
                    r1: Some(bytes@.len() as u32),
                    r2: Some(old(self).spec_flash_algorithm().begin_data),
                    r3: None,
                }),
            ),
    {
        if bytes.len() > 0xFFFF_FFFF {
            return Err(FlashError::AlgorithmTooLarge);
        }

        let begin_data = self.flash_algorithm.begin_data;
        match self.core.write_8(begin_data, bytes) {
            Ok(()) => {}
            Err(e) => {
                return Err(FlashError::Core(e));
            }
        }

        let timeout = self.flash_algorithm.flash_properties.program_page_timeout;
        let pc = self.flash_algorithm.pc_program_page;
        let result = match self.call_function_and_wait(
            &Registers {
                pc,
                r0: Some(address),
                r1: Some(bytes.len() as u32),
                r2: Some(begin_data),
                r3: None,
            },
            false,
            timeout,
        ) {
            Ok(v) => v,
            Err(e) => {
                return Err(FlashError::Core(e));
            }
        };
        check_routine_result("program_page", result)
    }

    /// Start the program-page routine on a page buffer without waiting
    /// for it: the host can stream the next page meanwhile.
    pub fn start_program_page_with_buffer(&mut self, address: u32, buffer_number: usize) -> (r:
        Result<(), FlashError>)
        requires
            buffer_number < old(self).spec_flash_algorithm().page_buffers@.len(),
        ensures
            final(self).spec_flash_algorithm() == old(self).spec_flash_algorithm(),
            final(self).spec_uninit_attempted() == old(self).spec_uninit_attempted(),
            r matches Ok(()) ==> final(self).spec_calls() == old(self).spec_calls().push(
                (Registers {
                    pc: old(self).spec_flash_algorithm().pc_program_page,
                    r0: Some(address),
                    r1: Some(old(self).spec_flash_algorithm().flash_properties.page_size),
                    r2: Some(
                        old(self).spec_flash_algorithm().page_buffers@[buffer_number as int],
                    ),
                    r3: None,
                }),
            ),
    {
        let page_size = self.flash_algorithm.flash_properties.page_size;
        let buffer_address = self.flash_algorithm.page_buffers[buffer_number];
        let pc = self.flash_algorithm.pc_program_page;
        match self.call_function(
            &Registers {
                pc,
                r0: Some(address),
                r1: Some(page_size),
                r2: Some(buffer_address),
                r3: None,
            },
            false,
        ) {
            Ok(()) => Ok(()),
            Err(e) => Err(FlashError::PageWrite {
                page_address: address,
                source: Box::new(FlashError::Core(e)),
            }),
        }
    }

    /// Stream a page's bytes into the given page buffer.
    pub fn load_page_buffer(&mut self, bytes: &Vec<u8>, buffer_number: usize) -> (r: Result<
        (),
        FlashError,
    >)
        requires
            buffer_number < old(self).spec_flash_algorithm().page_buffers@.len(),
        ensures
            final(self).spec_flash_algorithm() == old(self).spec_flash_algorithm(),
            final(self).spec_calls() == old(self).spec_calls(),
            final(self).spec_uninit_attempted() == old(self).spec_uninit_attempted(),
    {
        if bytes.len() > 0x0FFF_FFFF {
            return Err(FlashError::AlgorithmTooLarge);
        }
        let words = pack_words(bytes);

        let buffer_address = self.flash_algorithm.page_buffers[buffer_number];
        match self.core.write_32(buffer_address, &words) {
            Ok(()) => Ok(()),
            Err(e) => Err(FlashError::Core(e)),
        }
    }

    /// Read every fill range back from flash into its page, so the
    /// programmed page restores the bytes nothing writes.
    pub fn fill_page(&mut self, layout: &mut FlashLayout, fill: &FlashFill) -> (r: Result<
        (),
        FlashError,
    >)
        requires
            fill.spec_page_index() < old(layout).spec_pages().len(),
        ensures
            final(self).spec_flash_algorithm() == old(self).spec_flash_algorithm(),
            final(self).spec_calls() == old(self).spec_calls(),
            final(self).spec_uninit_attempted() == old(self).spec_uninit_attempted(),
            final(layout).spec_pages().len() == old(layout).spec_pages().len(),
            forall|pi: int|
                0 <= pi < old(layout).spec_pages().len()
                    ==> (#[trigger] final(layout).spec_pages()[pi]).spec_data().len()
                    == old(layout).spec_pages()[pi].spec_data().len(),
            final(layout).spec_sectors() == old(layout).spec_sectors(),
            final(layout).spec_fills() == old(layout).spec_fills(),
    {
        let page_index = fill.page_index();
        let mut page = layout.take_page(page_index);

        let page_address = page.address();
        let fill_address = fill.address();
        let fill_size = fill.size();
        let plen = page.data().len();

        // The fill must lie within its page.
        let ok = fill_address >= page_address && (fill_size as usize) <= plen && ((fill_address
            - page_address) as usize) <= plen - (fill_size as usize);
        if !ok {
            layout.put_page(page_index, page);
            return Err(FlashError::InvalidPageSize);
        }

        let offset = (fill_address - page_address) as usize;

        let mut buffer: Vec<u8> = Vec::new();
        let mut k: u32 = 0;
        while k < fill_size
            invariant
                k <= fill_size,
                buffer@.len() == k,
            decreases fill_size - k,
        {
            buffer.push(0);
            k = k + 1;
        }

        match self.core.read_8(fill_address, &mut buffer) {
            Ok(()) => {}
            Err(e) => {
                layout.put_page(page_index, page);
                return Err(FlashError::Core(e));
            }
        }

        let mut m: usize = 0;
        while m < buffer.len()
            invariant
                m <= buffer@.len(),
                buffer@.len() == fill_size,
                page.spec_data().len() == plen,
                offset + fill_size <= plen,
            decreases buffer@.len() - m,
        {
            page.set_byte(offset + m, buffer[m]);
            m = m + 1;
        }

        layout.put_page(page_index, page);
        Ok(())
    }

    /// Program every page of the layout, one call per page, waiting for
    /// each.
    pub fn program_simple(&mut self, flash_layout: &FlashLayout, progress: &mut FlashProgress) -> (r: Result<(), FlashError>)
        requires
            layout_pages_bounded(*flash_layout),
        ensures
            final(self).spec_flash_algorithm() == old(self).spec_flash_algorithm(),
            final(self).spec_uninit_attempted() == old(self).spec_uninit_attempted(),
            r matches Ok(()) ==> final(self).spec_calls() == old(self).spec_calls() + Seq::new(
                flash_layout.spec_pages().len(),
                |i: int|
                    (Registers {
                        pc: old(self).spec_flash_algorithm().pc_program_page,
                        r0: Some(flash_layout.spec_pages()[i].spec_address()),
                        r1: Some(flash_layout.spec_pages()[i].spec_data().len() as u32),
                        r2: Some(old(self).spec_flash_algorithm().begin_data),
                        r3: None,
                    }),
            ),
    {
        let ghost page_call = |i: int|
            (Registers {
                pc: old(self).spec_flash_algorithm().pc_program_page,
                r0: Some(flash_layout.spec_pages()[i].spec_address()),
                r1: Some(flash_layout.spec_pages()[i].spec_data().len() as u32),
                r2: Some(old(self).spec_flash_algorithm().begin_data),
                r3: None,
            });
        let pages = flash_layout.pages();
        let mut i: usize = 0;
        while i < pages.len()
            invariant
                i <= flash_layout.spec_pages().len(),
                pages@ == flash_layout.spec_pages(),
                layout_pages_bounded(*flash_layout),
                self.spec_flash_algorithm() == old(self).spec_flash_algorithm(),
                self.spec_uninit_attempted() == old(self).spec_uninit_attempted(),
                page_call == (|k: int|
                    (Registers {
                        pc: old(self).spec_flash_algorithm().pc_program_page,
                        r0: Some(flash_layout.spec_pages()[k].spec_address()),
                        r1: Some(flash_layout.spec_pages()[k].spec_data().len() as u32),
                        r2: Some(old(self).spec_flash_algorithm().begin_data),
                        r3: None,
                    })),
                self.spec_calls() == old(self).spec_calls() + Seq::new(i as nat, page_call),
            decreases flash_layout.spec_pages().len() - i,
        {
            let address = pages[i].address();
            match self.program_page(address, pages[i].data()) {
                Ok(()) => {}
                Err(e) => {
                    return Err(FlashError::PageWrite {
                        page_address: address,
                        source: Box::new(e),
                    });
                }
            }
            progress.emit(ProgressEvent::PageProgrammed { size: pages[i].size() });
            i = i + 1;
            proof {
                assert(self.spec_calls() =~= old(self).spec_calls() + Seq::new(
                    i as nat,
                    page_call,
                ));
            }
        }
        proof {
            assert(Seq::new(flash_layout.spec_pages().len(), page_call) =~= Seq::new(
                i as nat,
                page_call,
            ));
        }
        Ok(())
    }

    /// Erase every sector of the layout, in order.
    pub fn sector_erase(&mut self, flash_layout: &FlashLayout, progress: &mut FlashProgress) -> (r:
        Result<(), FlashError>)
        ensures
            final(self).spec_flash_algorithm() == old(self).spec_flash_algorithm(),
            final(self).spec_uninit_attempted() == old(self).spec_uninit_attempted(),
            r matches Ok(()) ==> final(self).spec_calls() == old(self).spec_calls() + Seq::new(
                flash_layout.spec_sectors().len(),
                |i: int|
                    (Registers {
                        pc: old(self).spec_flash_algorithm().pc_erase_sector,
                        r0: Some(flash_layout.spec_sectors()[i].spec_address()),
                        r1: None,
                        r2: None,
                        r3: None,
                    }),
            ),
    {
        let ghost erase_call = |i: int|
            (Registers {
                pc: old(self).spec_flash_algorithm().pc_erase_sector,
                r0: Some(flash_layout.spec_sectors()[i].spec_address()),
                r1: None,
                r2: None,
                r3: None,
            });
        let sectors = flash_layout.sectors();
        let mut i: usize = 0;
        while i < sectors.len()
            invariant
                i <= flash_layout.spec_sectors().len(),
                sectors@ == flash_layout.spec_sectors(),
                self.spec_flash_algorithm() == old(self).spec_flash_algorithm(),
                self.spec_uninit_attempted() == old(self).spec_uninit_attempted(),
                erase_call == (|k: int|
                    (Registers {
                        pc: old(self).spec_flash_algorithm().pc_erase_sector,
                        r0: Some(flash_layout.spec_sectors()[k].spec_address()),
                        r1: None,
                        r2: None,
                        r3: None,
                    })),
                self.spec_calls() == old(self).spec_calls() + Seq::new(i as nat, erase_call),
            decreases flash_layout.spec_sectors().len() - i,
        {
            let address = sectors[i].address();
            match self.erase_sector(address) {
                Ok(()) => {}
                Err(e) => {
                    return Err(FlashError::EraseFailed {
                        sector_address: address,
                        source: Box::new(e),
                    });
                }
            }
            progress.emit(ProgressEvent::SectorErased { size: sectors[i].size() });
            i = i + 1;
            proof {
                assert(self.spec_calls() =~= old(self).spec_calls() + Seq::new(
                    i as nat,
                    erase_call,
                ));
            }
        }
        proof {
            assert(Seq::new(flash_layout.spec_sectors().len(), erase_call) =~= Seq::new(
                i as nat,
                erase_call,
            ));
        }
        Ok(())
    }

    /// Program the layout's pages with two page buffers: while the core
    /// programs one buffer, the host streams the next page into the
    /// other.
    pub fn program_double_buffer(&mut self, flash_layout: &FlashLayout, progress: &mut FlashProgress) -> (r: Result<(), FlashError>)
        requires
            layout_pages_bounded(*flash_layout),
        ensures
            final(self).spec_flash_algorithm() == old(self).spec_flash_algorithm(),
            final(self).spec_uninit_attempted() == old(self).spec_uninit_attempted(),
            old(self).spec_flash_algorithm().page_buffers@.len() <= 1 ==> (r matches Err(e) && (
            e matches FlashError::DoubleBufferingNotSupported)) && final(self).spec_calls() == old(
                self,
            ).spec_calls(),
            r matches Ok(()) ==> final(self).spec_calls() == old(self).spec_calls() + Seq::new(
                flash_layout.spec_pages().len(),
                |i: int|
                    (Registers {
                        pc: old(self).spec_flash_algorithm().pc_program_page,
                        r0: Some(flash_layout.spec_pages()[i].spec_address()),
                        r1: Some(old(self).spec_flash_algorithm().flash_properties.page_size),
                        r2: Some(old(self).spec_flash_algorithm().page_buffers@[i % 2]),
                        r3: None,
                    }),
            ),
    {
        if !self.double_buffering_supported() {
            return Err(FlashError::DoubleBufferingNotSupported);
        }

        let ghost page_call = |i: int|
            (Registers {
                pc: old(self).spec_flash_algorithm().pc_program_page,
                r0: Some(flash_layout.spec_pages()[i].spec_address()),
                r1: Some(old(self).spec_flash_algorithm().flash_properties.page_size),
                r2: Some(old(self).spec_flash_algorithm().page_buffers@[i % 2]),
                r3: None,
            });
        let mut current_buf: usize = 0;
        let mut last_page_address: u32 = 0;
        let pages = flash_layout.pages();
        let mut i: usize = 0;
        while i < pages.len()
            invariant
                i <= flash_layout.spec_pages().len(),
                pages@ == flash_layout.spec_pages(),
                layout_pages_bounded(*flash_layout),
                self.spec_flash_algorithm() == old(self).spec_flash_algorithm(),
                self.spec_uninit_attempted() == old(self).spec_uninit_attempted(),
                self.spec_flash_algorithm().page_buffers@.len() > 1,
                current_buf == i % 2,
                page_call == (|k: int|
                    (Registers {
                        pc: old(self).spec_flash_algorithm().pc_program_page,
                        r0: Some(flash_layout.spec_pages()[k].spec_address()),
                        r1: Some(old(self).spec_flash_algorithm().flash_properties.page_size),
                        r2: Some(old(self).spec_flash_algorithm().page_buffers@[k % 2]),
                        r3: None,
                    })),
                self.spec_calls() == old(self).spec_calls() + Seq::new(i as nat, page_call),
            decreases flash_layout.spec_pages().len() - i,
        {
            // Stream the page into the idle buffer.
            match self.load_page_buffer(pages[i].data(), current_buf) {
                Ok(()) => {}
                Err(e) => {
                    return Err(e);
                }
            }

            // Wait for the previous program call to finish, and check it
            // succeeded.
            let result = match self.wait_for_completion(2000) {
                Ok(v) => v,
                Err(e) => {
                    return Err(FlashError::PageWrite {
                        page_address: last_page_address,
                        source: Box::new(FlashError::Core(e)),
                    });
                }
            };
            if result != 0 {
                return Err(FlashError::RoutineCallFailed {
                    name: "program_page",
                    error_code: result,
                });
            }

            // Start programming this buffer, and swap.
            let address = pages[i].address();
            last_page_address = address;
            match self.start_program_page_with_buffer(address, current_buf) {
                Ok(()) => {}
                Err(e) => {
                    return Err(e);
                }
            }
            progress.emit(ProgressEvent::PageProgrammed { size: pages[i].size() });

            current_buf = if current_buf == 1 {
                0
            } else {
                1
            };
            i = i + 1;
            proof {
                assert(self.spec_calls() =~= old(self).spec_calls() + Seq::new(
                    i as nat,
                    page_call,
                ));
            }
        }
        proof {
            assert(Seq::new(flash_layout.spec_pages().len(), page_call) =~= Seq::new(
                i as nat,
                page_call,
            ));
        }

        // Collect the final program call.
        let result = match self.wait_for_completion(2000) {
            Ok(v) => v,
            Err(e) => {
                return Err(FlashError::PageWrite {
                    page_address: last_page_address,
                    source: Box::new(FlashError::Core(e)),
                });
            }
        };
        if result != 0 {
            return Err(FlashError::RoutineCallFailed {
                name: "wait_for_completion",
                error_code: result,
            });
        }
        Ok(())
    }

    /// Program the builder's contents into the region: build the layout,
    /// read the fills back where unwritten bytes are restored, then under
    /// one init/uninit pair erase the sectors and program the pages.
    /// `uninit` runs before an error propagates.
    ///
    /// On success without fill restoration the routine log shows the
    /// whole job in order: the init call for the program operation, one
    /// erase-sector call per sector (none when erasing is skipped), one
    /// program-page call per page, and the uninit call.  When a sector
    /// erase or page write fails, the uninit step has still run before
    /// the error propagates.
    /// Run the erase and program phase under one init/uninit pair for the
    /// program operation: erase every layout sector (unless skipped), then
    /// program every layout page, single- or double-buffered.
    ///
    /// On success the routine-call record grew by exactly the init calls,
    /// one erase-sector call per layout sector (none when erasing is
    /// skipped), one program-page call per layout page, and the uninit
    /// calls, in that order.
    #[verifier::rlimit(100)]
    fn program_phase(&mut self, flash_layout: &FlashLayout, progress: &mut FlashProgress, enable_double_buffering: bool, skip_erasing: bool) -> (r: Result<(), FlashError>)
        requires
            layout_pages_bounded(*flash_layout),
        ensures
            final(self).spec_flash_algorithm() == old(self).spec_flash_algorithm(),
            r matches Ok(()) ==> final(progress).spec_events().len() > 0
                && final(progress).spec_events().last() == ProgressEvent::FinishedProgramming,
            r matches Err(e) && (e matches FlashError::EraseFailed { sector_address, source })
                ==> final(self).spec_uninit_attempted(),
            r matches Err(e) && (e matches FlashError::PageWrite { page_address, source }) ==>
                final(self).spec_uninit_attempted(),
            r matches Ok(()) ==> exists|erases: Seq<Registers>, page_calls: Seq<Registers>|
                #![trigger erases.len(), page_calls.len()]
                {
                    let algo = old(self).spec_flash_algorithm();
                    &&& final(self).spec_calls() == old(self).spec_calls() + spec_init_calls(
                        algo,
                        2,
                        0,
                    ) + erases + page_calls + spec_uninit_calls(algo, 2)
                    &&& (skip_erasing ==> erases.len() == 0)
                    &&& (forall|i: int|
                        0 <= i < erases.len() ==> (#[trigger] erases[i]).pc
                            == algo.pc_erase_sector && erases[i].r0 is Some && erases[i].r1 is None
                            && erases[i].r2 is None && erases[i].r3 is None)
                    &&& (forall|i: int|
                        0 <= i < page_calls.len() ==> (#[trigger] page_calls[i]).pc
                            == algo.pc_program_page && page_calls[i].r0 is Some
                            && page_calls[i].r1 is Some && page_calls[i].r2 is Some
                            && page_calls[i].r3 is None)
                },
    {
        let ghost calls0 = self.spec_calls();
        let ghost algo0 = self.spec_flash_algorithm();
        // The whole erase and program phase runs under one init/uninit
        // pair for the program operation.
        let ghost calls_before_init = self.spec_calls();
        match self.init(Operation::Program, None) {
            Ok(()) => {}
            Err(e) => {
                return Err(e);
            }
        }
        let ghost calls_after_init = self.spec_calls();

        let ghost mut erases: Seq<Registers> = Seq::empty();
        if !skip_erasing {
            progress.emit(ProgressEvent::StartedErasing);
            match self.sector_erase(flash_layout, progress) {
                Ok(()) => {
                    proof {
                        erases = self.spec_calls().subrange(
                            calls_after_init.len() as int,
                            self.spec_calls().len() as int,
                        );
                        assert(self.spec_calls() =~= calls_after_init + erases);
                        assert forall|i: int| 0 <= i < erases.len() implies ((
                        #[trigger] erases[i]).pc == algo0.pc_erase_sector && erases[i].r0 is Some
                            && erases[i].r1 is None && erases[i].r2 is None && erases[i].r3
                            is None) by {
                            assert(erases[i] == self.spec_calls()[calls_after_init.len() + i]);
                        };
                    }
                    progress.emit(ProgressEvent::FinishedErasing);
                }
                Err(e) => {
                    progress.emit(ProgressEvent::FailedErasing);
                    let _ = self.uninit(Operation::Program);
                    return Err(e);
                }
            }
        }
        proof {
            if skip_erasing {
                assert(self.spec_calls() =~= calls_after_init + erases);
            }
        }
        let ghost calls_after_erase = self.spec_calls();

        progress.emit(ProgressEvent::StartedProgramming);
        let ghost mut page_calls: Seq<Registers> = Seq::empty();
        let result = if self.double_buffering_supported() && enable_double_buffering {
            let r2 = self.program_double_buffer(flash_layout, progress);
            proof {
                if r2 is Ok {
                    page_calls = self.spec_calls().subrange(
                        calls_after_erase.len() as int,
                        self.spec_calls().len() as int,
                    );
                    assert(self.spec_calls() =~= calls_after_erase + page_calls);
                    assert forall|i: int| 0 <= i < page_calls.len() implies ((
                    #[trigger] page_calls[i]).pc == algo0.pc_program_page && page_calls[i].r0
                        is Some && page_calls[i].r1 is Some && page_calls[i].r2 is Some
                        && page_calls[i].r3 is None) by {
                        assert(page_calls[i] == self.spec_calls()[calls_after_erase.len() + i]);
                    };
                }
            }
            r2
        } else {
            let r2 = self.program_simple(flash_layout, progress);
            proof {
                if r2 is Ok {
                    page_calls = self.spec_calls().subrange(
                        calls_after_erase.len() as int,
                        self.spec_calls().len() as int,
                    );
                    assert(self.spec_calls() =~= calls_after_erase + page_calls);
                    assert forall|i: int| 0 <= i < page_calls.len() implies ((
                    #[trigger] page_calls[i]).pc == algo0.pc_program_page && page_calls[i].r0
                        is Some && page_calls[i].r1 is Some && page_calls[i].r2 is Some
                        && page_calls[i].r3 is None) by {
                        assert(page_calls[i] == self.spec_calls()[calls_after_erase.len() + i]);
                    };
                }
            }
            r2
        };

        match result {
            Ok(()) => {
                progress.emit(ProgressEvent::FinishedProgramming);
                match self.uninit(Operation::Program) {
                    Ok(()) => {
                        proof {
                            assert(self.spec_calls() == calls0 + spec_init_calls(algo0, 2, 0)
                                + erases + page_calls + spec_uninit_calls(algo0, 2));
                            assert(erases.len() == erases.len());
                            assert(page_calls.len() == page_calls.len());
                        }
                        Ok(())
                    }
                    Err(e) => Err(e),
                }
            }
            Err(e) => {
                progress.emit(ProgressEvent::FailedProgramming);
                // The chip is released even when programming failed.
                let _ = self.uninit(Operation::Program);
                Err(e)
            }
        }
    }


    #[verifier::rlimit(100)]
    pub fn program(&mut self, region: &NvmRegion, flash_builder: &FlashBuilder, restore_unwritten_bytes: bool, enable_double_buffering: bool, skip_erasing: bool, progress: &mut FlashProgress) -> (r: Result<(), FlashError>)
        requires
            flash_builder.wf(),
        ensures
            old(self).spec_flash_algorithm().flash_properties.page_size == 0 ==> (r matches Err(
                e,
            )) && final(self).spec_calls() == old(self).spec_calls(),
            r matches Ok(()) ==> final(progress).spec_events().len() > 0
                && final(progress).spec_events().last() == ProgressEvent::FinishedProgramming,
            r matches Err(e) && (e matches FlashError::EraseFailed { sector_address, source })
                ==> final(self).spec_uninit_attempted(),
            r matches Err(e) && (e matches FlashError::PageWrite { page_address, source }) ==>
                final(self).spec_uninit_attempted(),
            r matches Ok(()) && !restore_unwritten_bytes ==> exists|
                erases: Seq<Registers>,
                page_calls: Seq<Registers>,
            |
                #![trigger erases.len(), page_calls.len()]
                {
                    let algo = old(self).spec_flash_algorithm();
                    &&& final(self).spec_calls() == old(self).spec_calls() + spec_init_calls(
                        algo,
                        2,
                        0,
                    ) + erases + page_calls + spec_uninit_calls(algo, 2)
                    &&& (skip_erasing ==> erases.len() == 0)
                    &&& (forall|i: int|
                        0 <= i < erases.len() ==> (#[trigger] erases[i]).pc
                            == algo.pc_erase_sector && erases[i].r0 is Some && erases[i].r1 is None
                            && erases[i].r2 is None && erases[i].r3 is None)
                    &&& (forall|i: int|
                        0 <= i < page_calls.len() ==> (#[trigger] page_calls[i]).pc
                            == algo.pc_program_page && page_calls[i].r0 is Some
                            && page_calls[i].r1 is Some && page_calls[i].r2 is Some
                            && page_calls[i].r3 is None)
                },
    {
        self.uninit_attempted = Ghost(false);
        let ghost calls0 = self.spec_calls();
        let ghost algo0 = self.spec_flash_algorithm();

        let mut flash_layout = match flash_builder.build_sectors_and_pages(
            region,
            &self.flash_algorithm,
            restore_unwritten_bytes,
        ) {
            Ok(l) => l,
            Err(e) => {
                return Err(e);
            }
        };

        progress.emit(ProgressEvent::Initialized { total_pages: flash_layout.pages().len() });

        // Read all fill areas back from the flash.
        progress.emit(ProgressEvent::StartedFilling);
        if restore_unwritten_bytes {
            match self.init(Operation::Verify, None) {
                Ok(()) => {}
                Err(e) => {
                    progress.emit(ProgressEvent::FailedFilling);
                    return Err(e);
                }
            }
            let fills = flash_layout.fills().clone();
            let mut fi: usize = 0;
            let mut fill_failed: Option<FlashError> = None;
            while fi < fills.len()
                invariant
                    fi <= fills@.len(),
                    layout_pages_bounded(flash_layout),
                decreases fills@.len() - fi,
            {
                let fill = fills[fi];
                if fill.page_index() < flash_layout.pages().len() {
                    match self.fill_page(&mut flash_layout, &fill) {
                        Ok(()) => {
                            progress.emit(ProgressEvent::PageFilled { size: fill.size() });
                        }
                        Err(e) => {
                            fill_failed = Some(e);
                            break;
                        }
                    }
                }
                fi = fi + 1;
            }
            match self.uninit(Operation::Verify) {
                Ok(()) => {}
                Err(e) => {
                    progress.emit(ProgressEvent::FailedFilling);
                    return Err(e);
                }
            }
            if let Some(e) = fill_failed {
                progress.emit(ProgressEvent::FailedFilling);
                return Err(e);
            }
        }
        progress.emit(ProgressEvent::FinishedFilling);

        // The whole erase and program phase runs under one init/uninit
        // pair for the program operation.
        let ghost calls_pre_phase = self.spec_calls();
        let result = self.program_phase(&flash_layout, progress, enable_double_buffering, skip_erasing);
        proof {
            if result is Ok && !restore_unwritten_bytes {
                assert(calls_pre_phase == calls0);
            }
        }
        result
    }
}

} // verus!
