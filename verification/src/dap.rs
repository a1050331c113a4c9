//! Fundamental types of the Debug Access Port: ports, transfer records and
//! the errors a transfer can end in.

use vstd::prelude::*;

verus! {

/// Address of the DPIDR register (read-only) in the debug port.
pub const DPIDR_ADDRESS: u8 = 0;
/// Address of the ABORT register (write-only) in the debug port.
pub const ABORT_ADDRESS: u8 = 0;
/// Address of the CTRL/STAT register in the debug port.
pub const CTRL_ADDRESS: u8 = 4;
/// Address of the SELECT register (write-only) in the debug port.
pub const SELECT_ADDRESS: u8 = 8;
/// Address of the RDBUFF register (read-only) in the debug port.
pub const RDBUFF_ADDRESS: u8 = 12;

/// The two register spaces addressable through the debug access port.
#[derive(Debug, Clone, Copy, PartialEq, Eq, Structural)]
pub enum PortType {
    /// The debug port itself.
    DebugPort,
    /// An access port behind the debug port.
    AccessPort,
}

/// Whether a transfer moves data from or to the target.
#[derive(Debug, Clone, Copy, PartialEq, Eq, Structural)]
pub enum TransferDirection {
    /// The host reads a register.
    Read,
    /// The host writes a register.
    Write,
}

/// A register access, together with the value for writes.
#[derive(Debug, Clone, Copy, PartialEq, Eq, Structural)]
pub enum TransferType {
    /// A read access.
    Read,
    /// A write access carrying the value to write.
    Write(u32),
}

/// The ways a single DAP transfer can fail.
#[derive(Debug, Clone, Copy, PartialEq, Eq, Structural)]
pub enum DapError {
    /// The response did not conform to the SWD framing rules.
    SwdProtocol,
    /// The target did not acknowledge the request at all.
    NoAcknowledge,
    /// The target asked the host to retry the request.
    WaitResponse,
    /// The target signalled a fault; sticky flags must be cleared.
    FaultResponse,
    /// The parity over a read value did not match.
    IncorrectParity,
    /// The debug domain did not acknowledge the power-up request.
    TargetPowerUpFailed,
}

/// The state of one transfer within a batch.
#[derive(Debug, Clone, Copy, PartialEq, Eq, Structural)]
pub enum TransferStatus {
    /// The transfer has not been driven on the wire yet.
    Pending,
    /// The transfer completed successfully.
    Succeeded,
    /// The transfer failed with the given error.
    Failed(DapError),
}

/// The fundamental unit of the wire-protocol engine: one register access,
/// mutated in place while a batch is processed.
#[derive(Debug, Clone, Copy, PartialEq, Eq, Structural)]
pub struct DapTransfer {
    /// Which register space is addressed.
    pub port: PortType,
    /// Read or write.
    pub direction: TransferDirection,
    /// Register address within the port, a multiple of 4 below 16.
    pub address: u8,
    /// The value to write, or the value read once the batch completed.
    pub value: u32,
    /// Progress of this transfer.
    pub status: TransferStatus,
    /// Idle cycles clocked out after this transfer.
    pub idle_cycles_after: usize,
}

impl DapTransfer {
    /// A fresh read request for the given register.
    pub fn read(port: PortType, address: u8) -> (r: DapTransfer)
        ensures
            r == (DapTransfer {
                port,
                address,
                direction: TransferDirection::Read,
                value: 0,
                status: TransferStatus::Pending,
                idle_cycles_after: 0,
            }),
    {
        DapTransfer {
            port,
            address,
            direction: TransferDirection::Read,
            value: 0,
            status: TransferStatus::Pending,
            idle_cycles_after: 0,
        }
    }

    /// A fresh write request for the given register.
    pub fn write(port: PortType, address: u8, value: u32) -> (r: DapTransfer)
        ensures
            r == (DapTransfer {
                port,
                address,
                direction: TransferDirection::Write,
                value,
                status: TransferStatus::Pending,
                idle_cycles_after: 0,
            }),
    {
        DapTransfer {
            port,
            address,
            direction: TransferDirection::Write,
            value,
            status: TransferStatus::Pending,
            idle_cycles_after: 0,
        }
    }

    /// The access as a [`TransferType`], carrying the value for writes.
    pub fn transfer_type(&self) -> (r: TransferType)
        ensures
            r == spec_transfer_type(*self),
    {
        match self.direction {
            TransferDirection::Read => TransferType::Read,
            TransferDirection::Write => TransferType::Write(self.value),
        }
    }

    /// Whether this is a read from an access port, whose result is posted.
    pub fn is_ap_read(&self) -> (r: bool)
        ensures
            r == spec_is_ap_read(*self),
    {
        self.port == PortType::AccessPort && self.direction == TransferDirection::Read
    }

    /// Whether this is a write of either port.
    pub fn is_write(&self) -> (r: bool)
        ensures
            r == spec_is_write(*self),
    {
        self.direction == TransferDirection::Write
    }

    /// Whether this is a write to the debug port's ABORT register.
    pub fn is_abort(&self) -> (r: bool)
        ensures
            r == spec_is_abort(*self),
    {
        self.port == PortType::DebugPort && self.address == ABORT_ADDRESS
            && self.direction == TransferDirection::Write
    }

    /// Whether this is a read of the debug port's RDBUFF register.
    pub fn is_rdbuff(&self) -> (r: bool)
        ensures
            r == spec_is_rdbuff(*self),
    {
        self.port == PortType::DebugPort && self.address == RDBUFF_ADDRESS
            && self.direction == TransferDirection::Read
    }
}

/// Spec view of [`DapTransfer::transfer_type`].
pub open spec fn spec_transfer_type(t: DapTransfer) -> TransferType {
    match t.direction {
        TransferDirection::Read => TransferType::Read,
        TransferDirection::Write => TransferType::Write(t.value),
    }
}

/// A read from an access port: its result is returned by the next read.
pub open spec fn spec_is_ap_read(t: DapTransfer) -> bool {
    t.port == PortType::AccessPort && t.direction == TransferDirection::Read
}

/// A write to either port.
pub open spec fn spec_is_write(t: DapTransfer) -> bool {
    t.direction == TransferDirection::Write
}

/// A write to the debug port's ABORT register; such writes never post a
/// status response.
pub open spec fn spec_is_abort(t: DapTransfer) -> bool {
    t.port == PortType::DebugPort && t.address == ABORT_ADDRESS
        && t.direction == TransferDirection::Write
}

/// A read of the debug port's RDBUFF register.
pub open spec fn spec_is_rdbuff(t: DapTransfer) -> bool {
    t.port == PortType::DebugPort && t.address == RDBUFF_ADDRESS
        && t.direction == TransferDirection::Read
}

} // verus!
