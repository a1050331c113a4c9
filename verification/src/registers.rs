//! Descriptions of core registers and the register file of a core.

use vstd::prelude::*;

verus! {

/// A memory-mapped core debug register: its address and its name.
pub trait CoreRegister: Sized {
    /// The register's address in the memory map.
    fn address() -> (r: u32);

    /// The register's name.
    fn name() -> (r: &'static str);
}

/// The address of a core register, as used by the debug interface.
#[derive(Debug, Clone, Copy, PartialEq, Eq, Structural)]
pub struct CoreRegisterAddress(pub u16);

/// The state of a core after an operation: the current program counter.
#[derive(Debug, Clone, Copy, PartialEq, Eq, Structural)]
pub struct CoreInformation {
    /// The current program counter.
    pub pc: u32,
}

/// What role a register plays.
#[derive(Debug, Clone, Copy, PartialEq, Eq, Structural)]
pub enum RegisterKind {
    /// A general-purpose register.
    General,
    /// The program counter.
    PC,
}

/// Describes a register with its properties.
#[derive(Debug, Clone, Copy)]
pub struct RegisterDescription {
    /// The register's name.
    pub name: &'static str,
    /// What role the register plays.
    pub kind: RegisterKind,
    /// The register's address.
    pub address: CoreRegisterAddress,
}

impl RegisterDescription {
    /// The register's name.
    pub fn name(&self) -> (r: &'static str)
        ensures
            r == self.name,
    {
        self.name
    }

    /// The register's address.
    pub fn address(&self) -> (r: CoreRegisterAddress)
        ensures
            r == self.address,
    {
        self.address
    }
}

/// Register description for a core.
#[derive(Debug, Clone)]
pub struct RegisterFile {
    /// The platform registers, in register-number order.
    pub platform_registers: Vec<RegisterDescription>,
    /// The program counter.
    pub program_counter: RegisterDescription,
    /// The stack pointer.
    pub stack_pointer: RegisterDescription,
    /// The link register.
    pub return_address: RegisterDescription,
    /// The frame pointer.
    pub frame_pointer: RegisterDescription,
    /// The argument registers of the calling convention.
    pub argument_registers: Vec<RegisterDescription>,
    /// The result registers of the calling convention.
    pub result_registers: Vec<RegisterDescription>,
    /// The main stack pointer, where banked.
    pub msp: Option<RegisterDescription>,
    /// The process stack pointer, where banked.
    pub psp: Option<RegisterDescription>,
}

impl RegisterFile {
    /// The descriptions of all platform registers of this core.
    pub fn registers(&self) -> (r: &Vec<RegisterDescription>)
        ensures
            r@ == self.platform_registers@,
    {
        &self.platform_registers
    }

    /// The frame pointer.
    pub fn frame_pointer(&self) -> (r: RegisterDescription)
        ensures
            r == self.frame_pointer,
    {
        self.frame_pointer
    }

    /// The program counter.
    pub fn program_counter(&self) -> (r: RegisterDescription)
        ensures
            r == self.program_counter,
    {
        self.program_counter
    }

    /// The stack pointer.
    pub fn stack_pointer(&self) -> (r: RegisterDescription)
        ensures
            r == self.stack_pointer,
    {
        self.stack_pointer
    }

    /// The link register.
    pub fn return_address(&self) -> (r: RegisterDescription)
        ensures
            r == self.return_address,
    {
        self.return_address
    }

    /// The nth argument register.
    pub fn argument_register(&self, index: usize) -> (r: RegisterDescription)
        requires
            index < self.argument_registers@.len(),
        ensures
            r == self.argument_registers@[index as int],
    {
        self.argument_registers[index]
    }

    /// The nth argument register, if it exists.
    pub fn get_argument_register(&self, index: usize) -> (r: Option<RegisterDescription>)
        ensures
            r == (if index < self.argument_registers@.len() {
                Some(self.argument_registers@[index as int])
            } else {
                None::<RegisterDescription>
            }),
    {
        if index < self.argument_registers.len() {
            Some(self.argument_registers[index])
        } else {
            None
        }
    }

    /// The nth result register.
    pub fn result_register(&self, index: usize) -> (r: RegisterDescription)
        requires
            index < self.result_registers@.len(),
        ensures
            r == self.result_registers@[index as int],
    {
        self.result_registers[index]
    }

    /// The nth result register, if it exists.
    pub fn get_result_register(&self, index: usize) -> (r: Option<RegisterDescription>)
        ensures
            r == (if index < self.result_registers@.len() {
                Some(self.result_registers@[index as int])
            } else {
                None::<RegisterDescription>
            }),
    {
        if index < self.result_registers.len() {
            Some(self.result_registers[index])
        } else {
            None
        }
    }

    /// The nth platform register.
    pub fn platform_register(&self, index: usize) -> (r: RegisterDescription)
        requires
            index < self.platform_registers@.len(),
        ensures
            r == self.platform_registers@[index as int],
    {
        self.platform_registers[index]
    }

    /// The nth platform register, if it exists.
    pub fn get_platform_register(&self, index: usize) -> (r: Option<RegisterDescription>)
        ensures
            r == (if index < self.platform_registers@.len() {
                Some(self.platform_registers@[index as int])
            } else {
                None::<RegisterDescription>
            }),
    {
        if index < self.platform_registers.len() {
            Some(self.platform_registers[index])
        } else {
            None
        }
    }

    /// The main stack pointer, on cores that bank it.
    pub fn msp(&self) -> (r: Option<RegisterDescription>)
        ensures
            r == self.msp,
    {
        self.msp
    }

    /// The process stack pointer, on cores that bank it.
    pub fn psp(&self) -> (r: Option<RegisterDescription>)
        ensures
            r == self.psp,
    {
        self.psp
    }

    /// The shape every register file of this crate has: sixteen platform
    /// registers at addresses 0 to 15, four argument registers at 0 to 3,
    /// a result register at 0, PC at 15, SP at 13, LR at 14.
    pub open spec fn well_formed(&self) -> bool {
        &&& self.platform_registers@.len() == 16
        &&& forall|i: int|
            0 <= i < 16 ==> (#[trigger] self.platform_registers@[i]).address
                == CoreRegisterAddress(i as u16)
        &&& self.argument_registers@.len() == 4
        &&& forall|i: int|
            0 <= i < 4 ==> (#[trigger] self.argument_registers@[i]).address
                == CoreRegisterAddress(i as u16)
        &&& self.result_registers@.len() == 1
        &&& self.result_registers@[0].address == CoreRegisterAddress(0)
        &&& self.program_counter.address == CoreRegisterAddress(15)
        &&& self.stack_pointer.address == CoreRegisterAddress(13)
        &&& self.return_address.address == CoreRegisterAddress(14)
    }
}

/// The register file shared by the ARM cores: R0-R12, SP, LR, PC, with
/// R0-R3 as argument registers and R0 as the result register.
pub fn arm_register_file() -> (r: RegisterFile)
    ensures
        r.well_formed(),
{
    let r0 = RegisterDescription {
        name: "R0",
        kind: RegisterKind::General,
        address: CoreRegisterAddress(0),
    };
    let r1 = RegisterDescription {
        name: "R1",
        kind: RegisterKind::General,
        address: CoreRegisterAddress(1),
    };
    let r2 = RegisterDescription {
        name: "R2",
        kind: RegisterKind::General,
        address: CoreRegisterAddress(2),
    };
    let r3 = RegisterDescription {
        name: "R3",
        kind: RegisterKind::General,
        address: CoreRegisterAddress(3),
    };
    let r4 = RegisterDescription {
        name: "R4",
        kind: RegisterKind::General,
        address: CoreRegisterAddress(4),
    };
    let r5 = RegisterDescription {
        name: "R5",
        kind: RegisterKind::General,
        address: CoreRegisterAddress(5),
    };
    let r6 = RegisterDescription {
        name: "R6",
        kind: RegisterKind::General,
        address: CoreRegisterAddress(6),
    };
    let r7 = RegisterDescription {
        name: "R7",
        kind: RegisterKind::General,
        address: CoreRegisterAddress(7),
    };
    let r8 = RegisterDescription {
        name: "R8",
        kind: RegisterKind::General,
        address: CoreRegisterAddress(8),
    };
    let r9 = RegisterDescription {
        name: "R9",
        kind: RegisterKind::General,
        address: CoreRegisterAddress(9),
    };
    let r10 = RegisterDescription {
        name: "R10",
        kind: RegisterKind::General,
        address: CoreRegisterAddress(10),
    };
    let r11 = RegisterDescription {
        name: "R11",
        kind: RegisterKind::General,
        address: CoreRegisterAddress(11),
    };
    let r12 = RegisterDescription {
        name: "R12",
        kind: RegisterKind::General,
        address: CoreRegisterAddress(12),
    };
    let sp = RegisterDescription {
        name: "SP",
        kind: RegisterKind::General,
        address: CoreRegisterAddress(13),
    };
    let lr = RegisterDescription {
        name: "LR",
        kind: RegisterKind::General,
        address: CoreRegisterAddress(14),
    };
    let pc = RegisterDescription {
        name: "PC",
        kind: RegisterKind::PC,
        address: CoreRegisterAddress(15),
    };

    let mut platform: Vec<RegisterDescription> = Vec::new();
    platform.push(r0);
    platform.push(r1);
    platform.push(r2);
    platform.push(r3);
    platform.push(r4);
    platform.push(r5);
    platform.push(r6);
    platform.push(r7);
    platform.push(r8);
    platform.push(r9);
    platform.push(r10);
    platform.push(r11);
    platform.push(r12);
    platform.push(sp);
    platform.push(lr);
    platform.push(pc);

    let mut arguments: Vec<RegisterDescription> = Vec::new();
    arguments.push(r0);
    arguments.push(r1);
    arguments.push(r2);
    arguments.push(r3);

    let mut results: Vec<RegisterDescription> = Vec::new();
    results.push(r0);

    let msp = RegisterDescription {
        name: "MSP",
        kind: RegisterKind::General,
        address: CoreRegisterAddress(0b01001),
    };
    let psp = RegisterDescription {
        name: "PSP",
        kind: RegisterKind::General,
        address: CoreRegisterAddress(0b01010),
    };

    RegisterFile {
        platform_registers: platform,
        program_counter: pc,
        stack_pointer: sp,
        return_address: lr,
        frame_pointer: r7,
        argument_registers: arguments,
        result_registers: results,
        msp: Some(msp),
        psp: Some(psp),
    }
}

} // verus!
