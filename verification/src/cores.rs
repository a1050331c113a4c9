//! The generic core handle: cached core state, the capability set every
//! core driver implements, and the breakpoint policies composed on top.

use vstd::prelude::*;

use crate::armv6m::Armv6m;
use crate::armv7a::Armv7a;
use crate::error::Error;
use crate::family::{Architecture, CoreType, InstructionSet};
use crate::memory::ArmProbe;
use crate::registers::{CoreInformation, CoreRegisterAddress, RegisterFile};
use crate::sequences::{ArmDebugSequenceError, DefaultArmSequence};

verus! {

/// The status of a core.
#[derive(Debug, Clone, Copy, PartialEq, Eq, Structural)]
pub enum CoreStatus {
    /// The core is currently running.
    Running,
    /// The core is halted, for the given reason.
    Halted(HaltReason),
    /// A Cortex-M specific status: locked up on an unrecoverable
    /// exception.
    LockedUp,
    /// The core is sleeping.
    Sleeping,
    /// The core state is not known yet; always the case right after the
    /// core handle is created.
    Unknown,
}

impl CoreStatus {
    /// Whether the core is halted.
    pub fn is_halted(&self) -> (r: bool)
        ensures
            r == (*self matches CoreStatus::Halted(_)),
    {
        matches!(self, CoreStatus::Halted(_))
    }
}

/// The reason why a core halted.
#[derive(Debug, Clone, Copy, PartialEq, Eq, Structural)]
pub enum HaltReason {
    /// Several reasons at once, for example a single step that landed on
    /// a breakpoint.
    Multiple,
    /// A soft or hard breakpoint.
    Breakpoint,
    /// An exception, e.g. an interrupt.
    Exception,
    /// A data watchpoint.
    Watchpoint,
    /// A single step completed.
    Step,
    /// A debugger request.
    Request,
    /// An external halt request.
    External,
    /// The reason is not known, for example because the core was already
    /// halted when the debugger connected.
    Unknown,
}

/// The generic part of a core's cached state.
#[derive(Debug, Clone, Copy, PartialEq, Eq, Structural)]
pub struct CoreState {
    id: usize,
}

impl CoreState {
    /// A core state for the core with the given ID.
    pub fn new(id: usize) -> (r: Self)
        ensures
            r.spec_id() == id,
    {
        CoreState { id }
    }

    /// The core's ID.
    pub closed spec fn spec_id(self) -> usize {
        self.id
    }

    /// The core's ID.
    pub fn id(&self) -> (r: usize)
        ensures
            r == self.spec_id(),
    {
        self.id
    }
}

/// The id of a breakpoint.
#[derive(Debug, Clone, Copy, PartialEq, Eq, Structural)]
pub struct BreakpointId(pub usize);

impl BreakpointId {
    /// A breakpoint ID from a plain number.
    pub fn new(id: usize) -> (r: Self)
        ensures
            r.0 == id,
    {
        BreakpointId(id)
    }
}

/// The architecture-specific cached state of an ARM core, persisted
/// across operations of one session.
#[derive(Debug, Clone, Copy, PartialEq, Eq, Structural)]
pub struct State {
    pub(crate) initialized: bool,
    pub(crate) current_state: CoreStatus,
    pub(crate) hw_breakpoints_enabled: bool,
}

impl State {
    /// A fresh, uninitialized state.
    pub fn new() -> (r: State)
        ensures
            !r.spec_initialized(),
            r.spec_current_state() == CoreStatus::Unknown,
    {
        State {
            initialized: false,
            current_state: CoreStatus::Unknown,
            hw_breakpoints_enabled: false,
        }
    }

    /// Whether the state has been filled from the hardware.
    pub closed spec fn spec_initialized(self) -> bool {
        self.initialized
    }

    /// The cached core status.
    pub closed spec fn spec_current_state(self) -> CoreStatus {
        self.current_state
    }

    /// Whether the state has been filled from the hardware.
    pub fn initialized(&self) -> (r: bool)
        ensures
            r == self.spec_initialized(),
    {
        self.initialized
    }

    /// Mark the state as filled.
    pub fn initialize(&mut self)
        ensures
            final(self).spec_initialized(),
            final(self).spec_current_state() == old(self).spec_current_state(),
    {
        self.initialized = true;
    }
}

/// The capability set every core driver implements: status, halt, run,
/// step, reset, register access, breakpoints, and memory access.
pub trait CoreInterface: Sized {
    /// The driver's cached view of the core's run state: what the last
    /// status decode concluded.
    spec fn spec_status_model(&self) -> CoreStatus;

    /// Wait until the core is halted, or fail with a timeout.
    fn wait_for_core_halted(&mut self, timeout_ms: u32) -> (r: Result<(), Error>);

    /// Whether the core is halted right now.
    fn core_halted(&mut self) -> (r: Result<bool, Error>);

    /// The current status of the core.  A successful decode is cached:
    /// afterwards the model holds the returned status, never `Unknown`.
    fn status(&mut self) -> (r: Result<CoreStatus, Error>)
        ensures
            r matches Ok(s) ==> final(self).spec_status_model() == s && s != CoreStatus::Unknown,
    ;

    /// Halt the core and report the program counter it stopped at.  On
    /// success the status has been re-decoded: the model is not `Unknown`.
    fn halt(&mut self, timeout_ms: u32) -> (r: Result<CoreInformation, Error>)
        ensures
            r matches Ok(info) ==> final(self).spec_status_model() != CoreStatus::Unknown,
    ;

    /// Continue executing instructions.  On success the status has been
    /// updated: the model is not `Unknown`.
    fn run(&mut self) -> (r: Result<(), Error>)
        ensures
            r matches Ok(()) ==> final(self).spec_status_model() != CoreStatus::Unknown,
    ;

    /// Reset the core and let it run.
    fn reset(&mut self) -> (r: Result<(), Error>);

    /// Reset the core and halt it at the reset vector.  On success the
    /// status has been re-decoded: the model is not `Unknown`.
    fn reset_and_halt(&mut self, timeout_ms: u32) -> (r: Result<CoreInformation, Error>)
        ensures
            r matches Ok(info) ==> final(self).spec_status_model() != CoreStatus::Unknown,
    ;

    /// Execute one instruction and halt again.
    fn step(&mut self) -> (r: Result<CoreInformation, Error>);

    /// Read a core register.
    fn read_core_reg(&mut self, address: CoreRegisterAddress) -> (r: Result<u32, Error>);

    /// Write a core register.
    fn write_core_reg(&mut self, address: CoreRegisterAddress, value: u32) -> (r: Result<
        (),
        Error,
    >);

    /// How many hardware breakpoint units the core has.
    fn available_breakpoint_units(&mut self) -> (r: Result<u32, Error>);

    /// The breakpoint units in order: the address each one holds, or
    /// `None` where a unit is unset, whether enabled or not.
    fn hw_breakpoints(&mut self) -> (r: Result<Vec<Option<u32>>, Error>);

    /// Enable or disable breakpoints globally.
    fn enable_breakpoints(&mut self, state: bool) -> (r: Result<(), Error>);

    /// Program breakpoint unit `unit_index` with `addr`.
    fn set_hw_breakpoint(&mut self, unit_index: usize, addr: u32) -> (r: Result<(), Error>);

    /// Clear breakpoint unit `unit_index`.
    fn clear_hw_breakpoint(&mut self, unit_index: usize) -> (r: Result<(), Error>);

    /// The register file of this core.
    fn registers(&self) -> (r: RegisterFile)
        ensures
            r.well_formed(),
    ;

    /// Whether hardware breakpoints are enabled.
    fn hw_breakpoints_enabled(&self) -> (r: bool);

    /// The architecture of the core.
    fn architecture(&self) -> (r: Architecture);

    /// The core type of the core.
    fn core_type(&self) -> (r: CoreType);

    /// The instruction set the core currently runs; a runtime decision on
    /// some cores, so it must be queried while halted.
    fn instruction_set(&mut self) -> (r: Result<InstructionSet, Error>);

    /// Read one word from memory.
    fn read_word_32(&mut self, address: u32) -> (r: Result<u32, Error>);

    /// Read one byte from memory.
    fn read_word_8(&mut self, address: u32) -> (r: Result<u8, Error>);

    /// Fill `data` with consecutive words from memory.
    fn read_32(&mut self, address: u32, data: &mut Vec<u32>) -> (r: Result<(), Error>)
        ensures
            final(data)@.len() == old(data)@.len(),
    ;

    /// Fill `data` with consecutive bytes from memory.
    fn read_8(&mut self, address: u32, data: &mut Vec<u8>) -> (r: Result<(), Error>)
        ensures
            final(data)@.len() == old(data)@.len(),
    ;

    /// Write one word to memory.
    fn write_word_32(&mut self, address: u32, data: u32) -> (r: Result<(), Error>);

    /// Write one byte to memory.
    fn write_word_8(&mut self, address: u32, data: u8) -> (r: Result<(), Error>);

    /// Write consecutive words to memory.
    fn write_32(&mut self, address: u32, data: &Vec<u32>) -> (r: Result<(), Error>);

    /// Write consecutive bytes to memory.
    fn write_8(&mut self, address: u32, data: &Vec<u8>) -> (r: Result<(), Error>);

    /// Complete all outstanding writes.
    fn flush(&mut self) -> (r: Result<(), Error>);
}

/// The architecture-specific core state, one variant per core type.
#[derive(Debug, Clone, Copy, PartialEq, Eq, Structural)]
pub enum SpecificCoreState {
    /// The state of an ARMv6-M core.
    Armv6m(State),
    /// The state of an ARMv7-A core.
    Armv7a(State),
    /// The state of an ARMv7-M core.
    Armv7m(State),
    /// The state of an ARMv7-EM core.
    Armv7em(State),
    /// The state of an ARMv8-M core.
    Armv8m(State),
    /// The state of a RISC-V core.
    Riscv,
}

impl SpecificCoreState {
    /// A fresh state for a core of the given type.
    pub fn from_core_type(typ: CoreType) -> (r: Self) {
        match typ {
            CoreType::Armv6m => SpecificCoreState::Armv6m(State::new()),
            CoreType::Armv7a => SpecificCoreState::Armv7a(State::new()),
            CoreType::Armv7m => SpecificCoreState::Armv7m(State::new()),
            CoreType::Armv7em => SpecificCoreState::Armv7m(State::new()),
            CoreType::Armv8m => SpecificCoreState::Armv8m(State::new()),
            CoreType::Riscv => SpecificCoreState::Riscv,
        }
    }

    /// The core type this state belongs to.
    pub fn core_type(&self) -> (r: CoreType) {
        match self {
            SpecificCoreState::Armv6m(_) => CoreType::Armv6m,
            SpecificCoreState::Armv7a(_) => CoreType::Armv7a,
            SpecificCoreState::Armv7m(_) => CoreType::Armv7m,
            SpecificCoreState::Armv7em(_) => CoreType::Armv7em,
            SpecificCoreState::Armv8m(_) => CoreType::Armv8m,
            SpecificCoreState::Riscv => CoreType::Riscv,
        }
    }

    /// Attach the matching ARM core driver to a memory interface.  The
    /// drivers this crate carries cover ARMv6-M and ARMv7-A; for an
    /// ARMv7-A core the debug base address must be given.
    pub fn attach_arm<P: ArmProbe>(self, state: CoreState, memory: P, base_address: Option<u32>) -> (r: Result<Core<ArmCore<P>>, Error>) {
        match self {
            SpecificCoreState::Armv6m(s) => {
                let driver = match Armv6m::new(memory, s, DefaultArmSequence::create()) {
                    Ok(d) => d,
                    Err(e) => {
                        return Err(e);
                    }
                };
                Ok(Core::new(ArmCore::Armv6m(driver), state))
            }
            SpecificCoreState::Armv7a(s) => {
                let base = match base_address {
                    Some(b) => b,
                    None => {
                        return Err(Error::ArchitectureSpecific(
                            crate::error::ArchitectureError::Sequence(
                                ArmDebugSequenceError::DebugBaseNotSpecified,
                            ),
                        ));
                    }
                };
                let driver = match Armv7a::new(memory, s, base, DefaultArmSequence::create()) {
                    Ok(d) => d,
                    Err(e) => {
                        return Err(e);
                    }
                };
                Ok(Core::new(ArmCore::Armv7a(driver), state))
            }
            _ => Err(Error::UnsupportedCore),
        }
    }
}

/// An ARM core driver of either architecture this crate carries.
pub enum ArmCore<P: ArmProbe> {
    /// An ARMv6-M driver.
    Armv6m(Armv6m<P>),
    /// An ARMv7-A driver.
    Armv7a(Armv7a<P>),
}

impl<P: ArmProbe> CoreInterface for ArmCore<P> {
    open spec fn spec_status_model(&self) -> CoreStatus {
        match self {
            ArmCore::Armv6m(c) => c.spec_status_model(),
            ArmCore::Armv7a(c) => c.spec_status_model(),
        }
    }

    fn wait_for_core_halted(&mut self, timeout_ms: u32) -> (r: Result<(), Error>) {
        match self {
            ArmCore::Armv6m(c) => c.wait_for_core_halted(timeout_ms),
            ArmCore::Armv7a(c) => c.wait_for_core_halted(timeout_ms),
        }
    }

    fn core_halted(&mut self) -> (r: Result<bool, Error>) {
        match self {
            ArmCore::Armv6m(c) => c.core_halted(),
            ArmCore::Armv7a(c) => c.core_halted(),
        }
    }

    fn status(&mut self) -> (r: Result<CoreStatus, Error>) {
        match self {
            ArmCore::Armv6m(c) => c.status(),
            ArmCore::Armv7a(c) => c.status(),
        }
    }

    fn halt(&mut self, timeout_ms: u32) -> (r: Result<CoreInformation, Error>) {
        match self {
            ArmCore::Armv6m(c) => c.halt(timeout_ms),
            ArmCore::Armv7a(c) => c.halt(timeout_ms),
        }
    }

    fn run(&mut self) -> (r: Result<(), Error>) {
        match self {
            ArmCore::Armv6m(c) => c.run(),
            ArmCore::Armv7a(c) => c.run(),
        }
    }

    fn reset(&mut self) -> (r: Result<(), Error>) {
        match self {
            ArmCore::Armv6m(c) => c.reset(),
            ArmCore::Armv7a(c) => c.reset(),
        }
    }

    fn reset_and_halt(&mut self, timeout_ms: u32) -> (r: Result<CoreInformation, Error>) {
        match self {
            ArmCore::Armv6m(c) => c.reset_and_halt(timeout_ms),
            ArmCore::Armv7a(c) => c.reset_and_halt(timeout_ms),
        }
    }

    fn step(&mut self) -> (r: Result<CoreInformation, Error>) {
        match self {
            ArmCore::Armv6m(c) => c.step(),
            ArmCore::Armv7a(c) => c.step(),
        }
    }

    fn read_core_reg(&mut self, address: CoreRegisterAddress) -> (r: Result<u32, Error>) {
        match self {
            ArmCore::Armv6m(c) => c.read_core_reg(address),
            ArmCore::Armv7a(c) => c.read_core_reg(address),
        }
    }

    fn write_core_reg(&mut self, address: CoreRegisterAddress, value: u32) -> (r: Result<
        (),
        Error,
    >) {
        match self {
            ArmCore::Armv6m(c) => c.write_core_reg(address, value),
            ArmCore::Armv7a(c) => c.write_core_reg(address, value),
        }
    }

    fn available_breakpoint_units(&mut self) -> (r: Result<u32, Error>) {
        match self {
            ArmCore::Armv6m(c) => c.available_breakpoint_units(),
            ArmCore::Armv7a(c) => c.available_breakpoint_units(),
        }
    }

    fn hw_breakpoints(&mut self) -> (r: Result<Vec<Option<u32>>, Error>) {
        match self {
            ArmCore::Armv6m(c) => c.hw_breakpoints(),
            ArmCore::Armv7a(c) => c.hw_breakpoints(),
        }
    }

    fn enable_breakpoints(&mut self, state: bool) -> (r: Result<(), Error>) {
        match self {
            ArmCore::Armv6m(c) => c.enable_breakpoints(state),
            ArmCore::Armv7a(c) => c.enable_breakpoints(state),
        }
    }

    fn set_hw_breakpoint(&mut self, unit_index: usize, addr: u32) -> (r: Result<(), Error>) {
        match self {
            ArmCore::Armv6m(c) => c.set_hw_breakpoint(unit_index, addr),
            ArmCore::Armv7a(c) => c.set_hw_breakpoint(unit_index, addr),
        }
    }

    fn clear_hw_breakpoint(&mut self, unit_index: usize) -> (r: Result<(), Error>) {
        match self {
            ArmCore::Armv6m(c) => c.clear_hw_breakpoint(unit_index),
            ArmCore::Armv7a(c) => c.clear_hw_breakpoint(unit_index),
        }
    }

    fn registers(&self) -> (r: RegisterFile) {
        match self {
            ArmCore::Armv6m(c) => c.registers(),
            ArmCore::Armv7a(c) => c.registers(),
        }
    }

    fn hw_breakpoints_enabled(&self) -> (r: bool) {
        match self {
            ArmCore::Armv6m(c) => c.hw_breakpoints_enabled(),
            ArmCore::Armv7a(c) => c.hw_breakpoints_enabled(),
        }
    }

    fn architecture(&self) -> (r: Architecture) {
        match self {
            ArmCore::Armv6m(c) => c.architecture(),
            ArmCore::Armv7a(c) => c.architecture(),
        }
    }

    fn core_type(&self) -> (r: CoreType) {
        match self {
            ArmCore::Armv6m(c) => c.core_type(),
            ArmCore::Armv7a(c) => c.core_type(),
        }
    }

    fn instruction_set(&mut self) -> (r: Result<InstructionSet, Error>) {
        match self {
            ArmCore::Armv6m(c) => c.instruction_set(),
            ArmCore::Armv7a(c) => c.instruction_set(),
        }
    }

    fn read_word_32(&mut self, address: u32) -> (r: Result<u32, Error>) {
        match self {
            ArmCore::Armv6m(c) => c.read_word_32(address),
            ArmCore::Armv7a(c) => c.read_word_32(address),
        }
    }

    fn read_word_8(&mut self, address: u32) -> (r: Result<u8, Error>) {
        match self {
            ArmCore::Armv6m(c) => c.read_word_8(address),
            ArmCore::Armv7a(c) => c.read_word_8(address),
        }
    }

    fn read_32(&mut self, address: u32, data: &mut Vec<u32>) -> (r: Result<(), Error>) {
        match self {
            ArmCore::Armv6m(c) => c.read_32(address, data),
            ArmCore::Armv7a(c) => c.read_32(address, data),
        }
    }

    fn read_8(&mut self, address: u32, data: &mut Vec<u8>) -> (r: Result<(), Error>) {
        match self {
            ArmCore::Armv6m(c) => c.read_8(address, data),
            ArmCore::Armv7a(c) => c.read_8(address, data),
        }
    }

    fn write_word_32(&mut self, address: u32, data: u32) -> (r: Result<(), Error>) {
        match self {
            ArmCore::Armv6m(c) => c.write_word_32(address, data),
            ArmCore::Armv7a(c) => c.write_word_32(address, data),
        }
    }

    fn write_word_8(&mut self, address: u32, data: u8) -> (r: Result<(), Error>) {
        match self {
            ArmCore::Armv6m(c) => c.write_word_8(address, data),
            ArmCore::Armv7a(c) => c.write_word_8(address, data),
        }
    }

    fn write_32(&mut self, address: u32, data: &Vec<u32>) -> (r: Result<(), Error>) {
        match self {
            ArmCore::Armv6m(c) => c.write_32(address, data),
            ArmCore::Armv7a(c) => c.write_32(address, data),
        }
    }

    fn write_8(&mut self, address: u32, data: &Vec<u8>) -> (r: Result<(), Error>) {
        match self {
            ArmCore::Armv6m(c) => c.write_8(address, data),
            ArmCore::Armv7a(c) => c.write_8(address, data),
        }
    }

    fn flush(&mut self) -> (r: Result<(), Error>) {
        match self {
            ArmCore::Armv6m(c) => c.flush(),
            ArmCore::Armv7a(c) => c.flush(),
        }
    }
}

/// The first unit holding `address`, searching from unit 0 upwards.
pub fn position_of_breakpoint(bps: &Vec<Option<u32>>, address: u32) -> (r: Option<usize>)
    ensures
        r matches Some(i) ==> i < bps@.len() && bps@[i as int] == Some(address) && (forall|k: int|
            0 <= k < i ==> bps@[k] != Some(address)),
        r is None ==> forall|k: int| 0 <= k < bps@.len() ==> bps@[k] != Some(address),
{
    let mut i: usize = 0;
    while i < bps.len()
        invariant
            i <= bps@.len(),
            forall|k: int| 0 <= k < i ==> bps@[k] != Some(address),
        decreases bps@.len() - i,
    {
        if bps[i] == Some(address) {
            return Some(i);
        }
        i = i + 1;
    }
    None
}

/// The first free unit, searching from unit 0 upwards.
pub fn first_free_breakpoint_index(bps: &Vec<Option<u32>>) -> (r: Option<usize>)
    ensures
        r matches Some(i) ==> i < bps@.len() && bps@[i as int] is None && (forall|k: int|
            0 <= k < i ==> bps@[k] is Some),
        r is None ==> forall|k: int| 0 <= k < bps@.len() ==> bps@[k] is Some,
{
    let mut i: usize = 0;
    while i < bps.len()
        invariant
            i <= bps@.len(),
            forall|k: int| 0 <= k < i ==> bps@[k] is Some,
        decreases bps@.len() - i,
    {
        if bps[i].is_none() {
            return Some(i);
        }
        i = i + 1;
    }
    None
}

/// Law: take a unit list that nowhere holds `addr` and whose first free
/// unit is `free`.  Setting a breakpoint at `addr` places it into `free`;
/// in the resulting list, `free` is also the only unit holding `addr`, so
/// clearing the breakpoint at `addr` clears exactly that unit — and the
/// list is back to what it was before the set.
///
/// The law needs `addr` absent at the start: setting an address that is
/// already present re-programs its existing unit, and the clear then
/// leaves that unit empty instead of restoring it.
pub proof fn lemma_set_then_clear_restores(bps: Seq<Option<u32>>, addr: u32, free: int)
    requires
        0 <= free < bps.len(),
        bps[free] is None,
        forall|k: int| 0 <= k < free ==> bps[k] is Some,
        forall|k: int| 0 <= k < bps.len() ==> bps[k] != Some(addr),
    ensures
        ({
            let after_set = bps.update(free, Some(addr));
            &&& after_set[free] == Some(addr)
            &&& forall|k: int|
                0 <= k < after_set.len() && k != free ==> after_set[k] != Some(addr)
            &&& after_set.update(free, None::<u32>) == bps
        }),
{
    let after_set = bps.update(free, Some(addr));
    assert(after_set.update(free, None::<u32>) =~= bps);
}

/// Generic core handle representing one physical core on a chip.  It
/// composes the driver's capabilities into the breakpoint policies and
/// memory access a caller works with.
pub struct Core<C: CoreInterface> {
    inner: C,
    state: CoreState,
}

impl<C: CoreInterface> Core<C> {
    /// The generic state the handle carries.
    pub closed spec fn spec_state(&self) -> CoreState {
        self.state
    }

    /// The driver the handle wraps.
    pub closed spec fn spec_driver(&self) -> C {
        self.inner
    }

    /// A new core handle over a driver.
    pub fn new(core: C, state: CoreState) -> (r: Core<C>)
        ensures
            r.spec_state() == state,
    {
        Core { inner: core, state }
    }

    /// Create a new [`CoreState`].
    pub fn create_state(id: usize) -> (r: CoreState)
        ensures
            r.spec_id() == id,
    {
        CoreState::new(id)
    }

    /// The ID of this core: the one of the state it was created with.
    pub fn id(&self) -> (r: usize)
        ensures
            r == self.spec_state().spec_id(),
    {
        self.state.id()
    }

    /// Wait until the core is halted, or fail with a timeout.
    pub fn wait_for_core_halted(&mut self, timeout_ms: u32) -> (r: Result<(), Error>)
        ensures
            final(self).spec_state() == old(self).spec_state(),
    {
        self.inner.wait_for_core_halted(timeout_ms)
    }

    /// Whether the core is halted right now.
    pub fn core_halted(&mut self) -> (r: Result<bool, Error>)
        ensures
            final(self).spec_state() == old(self).spec_state(),
    {
        self.inner.core_halted()
    }

    /// Halt the core and report the program counter it stopped at.
    pub fn halt(&mut self, timeout_ms: u32) -> (r: Result<CoreInformation, Error>)
        ensures
            final(self).spec_state() == old(self).spec_state(),
            r matches Ok(info) ==> final(self).spec_driver().spec_status_model()
                != CoreStatus::Unknown,
    {
        self.inner.halt(timeout_ms)
    }

    /// Continue executing instructions.
    pub fn run(&mut self) -> (r: Result<(), Error>)
        ensures
            final(self).spec_state() == old(self).spec_state(),
            r matches Ok(()) ==> final(self).spec_driver().spec_status_model()
                != CoreStatus::Unknown,
    {
        self.inner.run()
    }

    /// Reset the core and let it run.
    pub fn reset(&mut self) -> (r: Result<(), Error>)
        ensures
            final(self).spec_state() == old(self).spec_state(),
    {
        self.inner.reset()
    }

    /// Reset the core and halt it at the reset vector.
    pub fn reset_and_halt(&mut self, timeout_ms: u32) -> (r: Result<CoreInformation, Error>)
        ensures
            final(self).spec_state() == old(self).spec_state(),
            r matches Ok(info) ==> final(self).spec_driver().spec_status_model()
                != CoreStatus::Unknown,
    {
        self.inner.reset_and_halt(timeout_ms)
    }

    /// Execute one instruction and halt again.
    pub fn step(&mut self) -> (r: Result<CoreInformation, Error>)
        ensures
            final(self).spec_state() == old(self).spec_state(),
    {
        self.inner.step()
    }

    /// The current status of the core.
    pub fn status(&mut self) -> (r: Result<CoreStatus, Error>)
        ensures
            final(self).spec_state() == old(self).spec_state(),
            r matches Ok(s) ==> final(self).spec_driver().spec_status_model() == s && s
                != CoreStatus::Unknown,
    {
        self.inner.status()
    }

    /// Read a core register.
    pub fn read_core_reg(&mut self, address: CoreRegisterAddress) -> (r: Result<u32, Error>)
        ensures
            final(self).spec_state() == old(self).spec_state(),
    {
        self.inner.read_core_reg(address)
    }

    /// Write a core register.
    pub fn write_core_reg(&mut self, address: CoreRegisterAddress, value: u32) -> (r: Result<
        (),
        Error,
    >) {
        self.inner.write_core_reg(address, value)
    }

    /// How many hardware breakpoint units the core has.
    pub fn available_breakpoint_units(&mut self) -> (r: Result<u32, Error>)
        ensures
            final(self).spec_state() == old(self).spec_state(),
    {
        self.inner.available_breakpoint_units()
    }

    /// Enable or disable breakpoints globally.
    fn enable_breakpoints(&mut self, state: bool) -> (r: Result<(), Error>) {
        self.inner.enable_breakpoints(state)
    }

    /// The register file of this core.
    pub fn registers(&self) -> (r: RegisterFile)
        ensures
            r.well_formed(),
    {
        self.inner.registers()
    }

    /// The index of the next free hardware breakpoint unit.
    fn find_free_breakpoint_comparator_index(&mut self) -> (r: Result<usize, Error>) {
        let bps = match self.inner.hw_breakpoints() {
            Ok(b) => b,
            Err(e) => {
                return Err(e);
            }
        };
        match first_free_breakpoint_index(&bps) {
            Some(i) => Ok(i),
            None => Err(Error::NoAvailableBreakpointUnits),
        }
    }

    /// Set a hardware breakpoint at `address`: re-use the unit already
    /// holding this address if there is one, else take the first free
    /// unit, and enable breakpoints globally if they are not yet.
    pub fn set_hw_breakpoint(&mut self, address: u32) -> (r: Result<(), Error>) {
        if !self.inner.hw_breakpoints_enabled() {
            match self.enable_breakpoints(true) {
                Ok(()) => {}
                Err(e) => {
                    return Err(e);
                }
            }
        }

        let bps = match self.inner.hw_breakpoints() {
            Ok(b) => b,
            Err(e) => {
                return Err(e);
            }
        };
        let breakpoint_comparator_index = match position_of_breakpoint(&bps, address) {
            Some(i) => i,
            None => {
                match first_free_breakpoint_index(&bps) {
                    Some(i) => i,
                    None => {
                        return Err(Error::NoAvailableBreakpointUnits);
                    }
                }
            }
        };

        // Program the unit, even if it held this address already, so the
        // breakpoint is active afterwards.
        self.inner.set_hw_breakpoint(breakpoint_comparator_index, address)
    }

    /// Clear the hardware breakpoint at `address`, if one is set there.
    pub fn clear_hw_breakpoint(&mut self, address: u32) -> (r: Result<(), Error>) {
        let bps = match self.inner.hw_breakpoints() {
            Ok(b) => b,
            Err(e) => {
                return Err(e);
            }
        };
        match position_of_breakpoint(&bps, address) {
            Some(i) => self.inner.clear_hw_breakpoint(i),
            None => Err(Error::NoBreakpointAtAddress(address)),
        }
    }

    /// Clear every hardware breakpoint configured on the target, whoever
    /// set it and whether or not it is enabled.
    pub fn clear_all_hw_breakpoints(&mut self) -> (r: Result<(), Error>) {
        let bps = match self.inner.hw_breakpoints() {
            Ok(b) => b,
            Err(e) => {
                return Err(e);
            }
        };
        let mut i: usize = 0;
        while i < bps.len()
            decreases bps@.len() - i,
        {
            if let Some(addr) = bps[i] {
                match self.clear_hw_breakpoint(addr) {
                    Ok(()) => {}
                    Err(e) => {
                        return Err(e);
                    }
                }
            }
            i = i + 1;
        }
        Ok(())
    }

    /// The list of hardware breakpoints, one entry per unit.
    pub fn hw_breakpoints(&mut self) -> (r: Result<Vec<Option<u32>>, Error>) {
        self.inner.hw_breakpoints()
    }

    /// The architecture of the core.
    pub fn architecture(&self) -> (r: Architecture) {
        self.inner.architecture()
    }

    /// The core type of the core.
    pub fn core_type(&self) -> (r: CoreType) {
        self.inner.core_type()
    }

    /// The instruction set the core currently runs.
    pub fn instruction_set(&mut self) -> (r: Result<InstructionSet, Error>) {
        self.inner.instruction_set()
    }

    /// Read one word from memory.
    pub fn read_word_32(&mut self, address: u32) -> (r: Result<u32, Error>) {
        self.inner.read_word_32(address)
    }

    /// Read one byte from memory.
    pub fn read_word_8(&mut self, address: u32) -> (r: Result<u8, Error>) {
        self.inner.read_word_8(address)
    }

    /// Fill `data` with consecutive words from memory.
    pub fn read_32(&mut self, address: u32, data: &mut Vec<u32>) -> (r: Result<(), Error>)
        ensures
            final(data)@.len() == old(data)@.len(),
    {
        self.inner.read_32(address, data)
    }

    /// Fill `data` with consecutive bytes from memory.
    pub fn read_8(&mut self, address: u32, data: &mut Vec<u8>) -> (r: Result<(), Error>)
        ensures
            final(data)@.len() == old(data)@.len(),
    {
        self.inner.read_8(address, data)
    }

    /// Write one word to memory.
    pub fn write_word_32(&mut self, address: u32, data: u32) -> (r: Result<(), Error>) {
        self.inner.write_word_32(address, data)
    }

    /// Write one byte to memory.
    pub fn write_word_8(&mut self, address: u32, data: u8) -> (r: Result<(), Error>) {
        self.inner.write_word_8(address, data)
    }

    /// Write consecutive words to memory.
    pub fn write_32(&mut self, address: u32, data: &Vec<u32>) -> (r: Result<(), Error>) {
        self.inner.write_32(address, data)
    }

    /// Write consecutive bytes to memory.
    pub fn write_8(&mut self, address: u32, data: &Vec<u8>) -> (r: Result<(), Error>) {
        self.inner.write_8(address, data)
    }

    /// Complete all outstanding writes.
    pub fn flush(&mut self) -> (r: Result<(), Error>) {
        self.inner.flush()
    }

    /// Give the driver and the generic state back, dissolving the handle.
    pub fn into_parts(self) -> (r: (C, CoreState)) {
        (self.inner, self.state)
    }
}

} // verus!
