//! Memory access through a MEM-AP: CSW/TAR/DRW batch planning with TAR
//! reprogramming at auto-increment window boundaries, and the memory
//! interface built on it.

use vstd::prelude::*;

use crate::dap::{DapTransfer, PortType, TransferStatus};
use crate::error::Error;
use crate::memory::ArmProbe;
use crate::probe::{DebugProbeError, JTAGAccess, RawProtocolIo};
use crate::registers::CoreRegisterAddress;
use crate::transfer::perform_transfers;

verus! {

/// Address of the MEM-AP control/status word register.
pub const CSW_ADDRESS: u8 = 0x0;

/// Address of the MEM-AP transfer address register.
pub const TAR_ADDRESS: u8 = 0x4;

/// Address of the MEM-AP data read/write register.
pub const DRW_ADDRESS: u8 = 0xC;

/// CSW value for 32-bit accesses with single auto-increment: DeviceEn,
/// AddrInc `01`, SIZE `010`.
pub const CSW_WORD_AUTOINC: u32 = 0x52;

/// CSW value for 8-bit accesses without auto-increment: DeviceEn, SIZE
/// `000`.
pub const CSW_BYTE: u32 = 0x40;

/// The auto-increment window of the TAR: the increment wraps within 1 KiB,
/// so the TAR must be reprogrammed at each 1 KiB boundary.
pub const TAR_WINDOW: u32 = 0x400;

/// How many words one planned batch carries at most.
pub const BLOCK_CHUNK: usize = 1024;

/// The word transfers of a block access starting at `address`: one DRW
/// access per word, preceded by a TAR write wherever the word's address
/// starts a new auto-increment window.  `values` is `None` for a read
/// plan, or the words of a write plan.
pub open spec fn spec_word_transfers(address: int, values: Option<Seq<u32>>, n: int) -> Seq<
    DapTransfer,
>
    decreases n,
{
    if n <= 0 {
        Seq::empty()
    } else {
        let prev = spec_word_transfers(address, values, n - 1);
        let word_addr = address + 4 * (n - 1);
        let drw = match values {
            Some(vs) => DapTransfer {
                port: PortType::AccessPort,
                direction: crate::dap::TransferDirection::Write,
                address: DRW_ADDRESS,
                value: vs[n - 1],
                status: TransferStatus::Pending,
                idle_cycles_after: 0,
            },
            None => DapTransfer {
                port: PortType::AccessPort,
                direction: crate::dap::TransferDirection::Read,
                address: DRW_ADDRESS,
                value: 0,
                status: TransferStatus::Pending,
                idle_cycles_after: 0,
            },
        };
        if n - 1 > 0 && word_addr % (TAR_WINDOW as int) == 0 {
            prev + seq![
                DapTransfer {
                    port: PortType::AccessPort,
                    direction: crate::dap::TransferDirection::Write,
                    address: TAR_ADDRESS,
                    value: word_addr as u32,
                    status: TransferStatus::Pending,
                    idle_cycles_after: 0,
                },
                drw,
            ]
        } else {
            prev + seq![drw]
        }
    }
}

/// The full plan of a block access: program CSW for auto-incremented word
/// access, program the TAR, then the word transfers.
pub open spec fn spec_block_plan(address: u32, values: Option<Seq<u32>>, n: int) -> Seq<
    DapTransfer,
> {
    seq![
        DapTransfer {
            port: PortType::AccessPort,
            direction: crate::dap::TransferDirection::Write,
            address: CSW_ADDRESS,
            value: CSW_WORD_AUTOINC,
            status: TransferStatus::Pending,
            idle_cycles_after: 0,
        },
        DapTransfer {
            port: PortType::AccessPort,
            direction: crate::dap::TransferDirection::Write,
            address: TAR_ADDRESS,
            value: address,
            status: TransferStatus::Pending,
            idle_cycles_after: 0,
        },
    ] + spec_word_transfers(address as int, values, n)
}

/// A write of the MEM-AP transfer address register.
pub open spec fn spec_is_tar_write(t: DapTransfer) -> bool {
    t.port == PortType::AccessPort && t.address == TAR_ADDRESS && t.direction
        == crate::dap::TransferDirection::Write
}

/// The number of TAR writes in a batch.
pub open spec fn spec_tar_write_count(s: Seq<DapTransfer>) -> int
    decreases s.len(),
{
    if s.len() == 0 {
        0
    } else {
        spec_tar_write_count(s.drop_last()) + (if spec_is_tar_write(s.last()) {
            1int
        } else {
            0int
        })
    }
}

/// How many of the words 1 to `n - 1` of a block starting at `address`
/// begin a new auto-increment window.
pub open spec fn spec_boundary_crossings(address: int, n: int) -> int
    decreases n,
{
    if n <= 1 {
        0
    } else {
        spec_boundary_crossings(address, n - 1) + (if (address + 4 * (n - 1)) % (
        TAR_WINDOW as int) == 0 {
            1int
        } else {
            0int
        })
    }
}

proof fn lemma_tar_count_append(a: Seq<DapTransfer>, b: Seq<DapTransfer>)
    ensures
        spec_tar_write_count(a + b) == spec_tar_write_count(a) + spec_tar_write_count(b),
    decreases b.len(),
{
    if b.len() == 0 {
        assert(a + b =~= a);
    } else {
        lemma_tar_count_append(a, b.drop_last());
        assert((a + b).drop_last() =~= a + b.drop_last());
    }
}

proof fn lemma_word_transfer_tar_count(address: int, values: Option<Seq<u32>>, n: int)
    ensures
        spec_tar_write_count(spec_word_transfers(address, values, n)) == spec_boundary_crossings(
            address,
            n,
        ),
    decreases n,
{
    reveal_with_fuel(spec_tar_write_count, 4);
    if n > 0 {
        lemma_word_transfer_tar_count(address, values, n - 1);
        let prev = spec_word_transfers(address, values, n - 1);
        let word_addr = address + 4 * (n - 1);
        let drw = match values {
            Some(vs) => DapTransfer {
                port: PortType::AccessPort,
                direction: crate::dap::TransferDirection::Write,
                address: DRW_ADDRESS,
                value: vs[n - 1],
                status: TransferStatus::Pending,
                idle_cycles_after: 0,
            },
            None => DapTransfer {
                port: PortType::AccessPort,
                direction: crate::dap::TransferDirection::Read,
                address: DRW_ADDRESS,
                value: 0,
                status: TransferStatus::Pending,
                idle_cycles_after: 0,
            },
        };
        if n - 1 > 0 && word_addr % (TAR_WINDOW as int) == 0 {
            let tar = DapTransfer {
                port: PortType::AccessPort,
                direction: crate::dap::TransferDirection::Write,
                address: TAR_ADDRESS,
                value: word_addr as u32,
                status: TransferStatus::Pending,
                idle_cycles_after: 0,
            };
            let suffix = seq![tar, drw];
            assert(spec_word_transfers(address, values, n) == prev + suffix);
            lemma_tar_count_append(prev, suffix);
            assert(suffix.drop_last() =~= seq![tar]);
            assert(seq![tar].drop_last() =~= Seq::<DapTransfer>::empty());
            assert(spec_tar_write_count(suffix) == 1);
        } else {
            let suffix = seq![drw];
            assert(spec_word_transfers(address, values, n) == prev + suffix);
            lemma_tar_count_append(prev, suffix);
            assert(suffix.drop_last() =~= Seq::<DapTransfer>::empty());
            assert(spec_tar_write_count(suffix) == 0);
        }
    }
}

/// Law: a block access crossing auto-increment window boundaries issues
/// exactly one TAR write at the start, plus one TAR reprogram per
/// boundary crossed.
pub proof fn lemma_one_tar_reprogram_per_boundary(address: u32, values: Option<Seq<u32>>, n: int)
    requires
        n >= 0,
    ensures
        spec_tar_write_count(spec_block_plan(address, values, n)) == 1 + spec_boundary_crossings(
            address as int,
            n,
        ),
{
    reveal_with_fuel(spec_tar_write_count, 4);
    let csw_t = DapTransfer {
        port: PortType::AccessPort,
        direction: crate::dap::TransferDirection::Write,
        address: CSW_ADDRESS,
        value: CSW_WORD_AUTOINC,
        status: TransferStatus::Pending,
        idle_cycles_after: 0,
    };
    let tar_t = DapTransfer {
        port: PortType::AccessPort,
        direction: crate::dap::TransferDirection::Write,
        address: TAR_ADDRESS,
        value: address,
        status: TransferStatus::Pending,
        idle_cycles_after: 0,
    };
    let head = seq![csw_t, tar_t];
    lemma_word_transfer_tar_count(address as int, values, n);
    lemma_tar_count_append(head, spec_word_transfers(address as int, values, n));
    assert(head.drop_last() =~= seq![csw_t]);
    assert(seq![csw_t].drop_last() =~= Seq::<DapTransfer>::empty());
}

/// Build the physical plan for a block access of `n` words starting at
/// `address`.  For a write plan the words come from `values` starting at
/// `offset`.
pub fn plan_block_access(address: u32, values: Option<&Vec<u32>>, offset: usize, n: usize) -> (r:
    Vec<DapTransfer>)
    requires
        address as int + 4 * n <= 0x1_0000_0000,
        offset + n <= usize::MAX,
        values matches Some(vs) ==> offset + n <= vs@.len(),
    ensures
        r@ == spec_block_plan(
            address,
            match values {
                Some(vs) => Some(vs@.subrange(offset as int, offset + n)),
                None => None::<Seq<u32>>,
            },
            n as int,
        ),
{
    let ghost vals = match values {
        Some(vs) => Some(vs@.subrange(offset as int, offset + n)),
        None => None::<Seq<u32>>,
    };

    let mut transfers: Vec<DapTransfer> = Vec::new();
    transfers.push(DapTransfer::write(PortType::AccessPort, CSW_ADDRESS, CSW_WORD_AUTOINC));
    transfers.push(DapTransfer::write(PortType::AccessPort, TAR_ADDRESS, address));

    let mut i: usize = 0;
    while i < n
        invariant
            i <= n,
            address as int + 4 * n <= 0x1_0000_0000,
            offset + n <= usize::MAX,
            values matches Some(vs) ==> offset + n <= vs@.len(),
            vals == (match values {
                Some(vs) => Some(vs@.subrange(offset as int, offset + n)),
                None => None::<Seq<u32>>,
            }),
            transfers@ == spec_block_plan(address, vals, i as int).subrange(
                0,
                spec_block_plan(address, vals, i as int).len() as int,
            ),
            transfers@ == spec_block_plan(address, vals, i as int),
        decreases n - i,
    {
        let word_addr = address + (i as u32) * 4;
        if i > 0 && word_addr % TAR_WINDOW == 0 {
            transfers.push(DapTransfer::write(PortType::AccessPort, TAR_ADDRESS, word_addr));
        }
        match values {
            Some(vs) => {
                transfers.push(
                    DapTransfer::write(PortType::AccessPort, DRW_ADDRESS, vs[offset + i]),
                );
            }
            None => {
                transfers.push(DapTransfer::read(PortType::AccessPort, DRW_ADDRESS));
            }
        }
        i = i + 1;
        proof {
            let prev = spec_word_transfers(address as int, vals, i - 1);
            let full = spec_word_transfers(address as int, vals, i as int);
            if i - 1 > 0 && (address as int + 4 * (i - 1)) % (TAR_WINDOW as int) == 0 {
                assert(transfers@ =~= spec_block_plan(address, vals, i as int));
            } else {
                assert(transfers@ =~= spec_block_plan(address, vals, i as int));
            }
        }
    }
    transfers
}

/// Address of the Debug Core Register Selector Register.
pub const DCRSR_ADDRESS: u32 = 0xE000_EDF4;

/// How many polls of DHCSR a core-register transfer may take.
pub const REGRDY_POLL_BUDGET: u32 = 100;

/// A memory interface over the MEM-AP of a probe: word, byte and block
/// access to the target bus, and core-register access through the
/// DCRSR/DCRDR debug registers.
pub struct ADIMemoryInterface<P: RawProtocolIo + JTAGAccess> {
    probe: P,
}

impl<P: RawProtocolIo + JTAGAccess> ADIMemoryInterface<P> {
    /// A memory interface over the given probe.
    pub fn new(probe: P) -> (r: ADIMemoryInterface<P>) {
        ADIMemoryInterface { probe }
    }

    /// Give the probe back.
    pub fn into_probe(self) -> (r: P) {
        self.probe
    }

    /// Drive a batch and fail if any transfer in it failed.
    fn run_batch(&mut self, transfers: &mut Vec<DapTransfer>) -> (r: Result<(), Error>)
        requires
            old(transfers)@.len() <= crate::transfer::MAX_BATCH,
        ensures
            final(transfers)@.len() == old(transfers)@.len(),
    {
        let idle = self.probe.swd_settings().num_idle_cycles_between_writes();
        match perform_transfers(&mut self.probe, transfers, idle) {
            Ok(()) => {}
            Err(e) => {
                return Err(Error::Probe(e));
            }
        }
        let mut i: usize = 0;
        while i < transfers.len()
            invariant
                transfers@.len() == old(transfers)@.len(),
            decreases transfers@.len() - i,
        {
            match transfers[i].status {
                TransferStatus::Succeeded => {}
                TransferStatus::Failed(e) => {
                    return Err(Error::Probe(DebugProbeError::Dap(e)));
                }
                TransferStatus::Pending => {
                    return Err(Error::Probe(DebugProbeError::Timeout));
                }
            }
            i = i + 1;
        }
        Ok(())
    }
}

impl<P: RawProtocolIo + JTAGAccess> ArmProbe for ADIMemoryInterface<P> {
    fn read_core_reg(&mut self, addr: CoreRegisterAddress) -> (r: Result<u32, Error>) {
        // Select the register, wait for the transfer, read the data.
        match self.write_word_32(DCRSR_ADDRESS, addr.0 as u32) {
            Ok(()) => {}
            Err(e) => {
                return Err(e);
            }
        }
        let mut polls: u32 = 0;
        while polls < REGRDY_POLL_BUDGET
            decreases REGRDY_POLL_BUDGET - polls,
        {
            let dhcsr = crate::armv6m::Dhcsr(
                match self.read_word_32(crate::armv6m::DHCSR_ADDRESS) {
                    Ok(v) => v,
                    Err(e) => {
                        return Err(e);
                    }
                },
            );
            if dhcsr.s_regrdy() {
                return self.read_word_32(crate::armv6m::DCRDR_ADDRESS);
            }
            polls = polls + 1;
        }
        Err(Error::Probe(DebugProbeError::Timeout))
    }

    fn write_core_reg(&mut self, addr: CoreRegisterAddress, value: u32) -> (r: Result<(), Error>) {
        // Stage the data, then select the register with the write bit.
        match self.write_word_32(crate::armv6m::DCRDR_ADDRESS, value) {
            Ok(()) => {}
            Err(e) => {
                return Err(e);
            }
        }
        match self.write_word_32(DCRSR_ADDRESS, (addr.0 as u32) | 0x0001_0000) {
            Ok(()) => {}
            Err(e) => {
                return Err(e);
            }
        }
        let mut polls: u32 = 0;
        while polls < REGRDY_POLL_BUDGET
            decreases REGRDY_POLL_BUDGET - polls,
        {
            let dhcsr = crate::armv6m::Dhcsr(
                match self.read_word_32(crate::armv6m::DHCSR_ADDRESS) {
                    Ok(v) => v,
                    Err(e) => {
                        return Err(e);
                    }
                },
            );
            if dhcsr.s_regrdy() {
                return Ok(());
            }
            polls = polls + 1;
        }
        Err(Error::Probe(DebugProbeError::Timeout))
    }

    fn read_word_32(&mut self, address: u32) -> (r: Result<u32, Error>) {
        if address > 0xFFFF_FFFC {
            return Err(Error::Probe(DebugProbeError::NotImplemented));
        }
        let mut transfers = plan_block_access(address, None, 0, 1);
        proof {
            lemma_block_plan_len(address as int, None, 1);
        }
        match self.run_batch(&mut transfers) {
            Ok(()) => {}
            Err(e) => {
                return Err(e);
            }
        }
        if transfers.len() == 3 {
            Ok(transfers[2].value)
        } else {
            Err(Error::Probe(DebugProbeError::Timeout))
        }
    }

    fn write_word_32(&mut self, address: u32, data: u32) -> (r: Result<(), Error>) {
        if address > 0xFFFF_FFFC {
            return Err(Error::Probe(DebugProbeError::NotImplemented));
        }
        let mut values: Vec<u32> = Vec::new();
        values.push(data);
        let mut transfers = plan_block_access(address, Some(&values), 0, 1);
        proof {
            lemma_block_plan_len(address as int, Some(values@.subrange(0, 1)), 1);
        }
        self.run_batch(&mut transfers)
    }

    fn read_word_8(&mut self, address: u32) -> (r: Result<u8, Error>) {
        // An 8-bit CSW access: the byte arrives in its lane of the word.
        let mut transfers: Vec<DapTransfer> = Vec::new();
        transfers.push(DapTransfer::write(PortType::AccessPort, CSW_ADDRESS, CSW_BYTE));
        transfers.push(DapTransfer::write(PortType::AccessPort, TAR_ADDRESS, address));
        transfers.push(DapTransfer::read(PortType::AccessPort, DRW_ADDRESS));
        match self.run_batch(&mut transfers) {
            Ok(()) => {}
            Err(e) => {
                return Err(e);
            }
        }
        if transfers.len() == 3 {
            let lane = address % 4;
            Ok(((transfers[2].value >> (8 * lane)) & 0xFF) as u8)
        } else {
            Err(Error::Probe(DebugProbeError::Timeout))
        }
    }

    fn write_word_8(&mut self, address: u32, data: u8) -> (r: Result<(), Error>) {
        // An 8-bit CSW access: the byte is placed in its lane of the word.
        let lane = address % 4;
        let mut transfers: Vec<DapTransfer> = Vec::new();
        transfers.push(DapTransfer::write(PortType::AccessPort, CSW_ADDRESS, CSW_BYTE));
        transfers.push(DapTransfer::write(PortType::AccessPort, TAR_ADDRESS, address));
        transfers.push(
            DapTransfer::write(PortType::AccessPort, DRW_ADDRESS, (data as u32) << (8 * lane)),
        );
        self.run_batch(&mut transfers)
    }

    fn read_32(&mut self, address: u32, data: &mut Vec<u32>) -> (r: Result<(), Error>) {
        let total = data.len();
        if total > 0x4000_0000 {
            return Err(Error::Probe(DebugProbeError::NotImplemented));
        }
        if (address % 4 != 0) || (address as u64) + 4 * (total as u64) > 0x1_0000_0000 {
            return Err(Error::Probe(DebugProbeError::NotImplemented));
        }

        let mut done: usize = 0;
        while done < total
            invariant
                data@.len() == old(data)@.len(),
                data@.len() == total,
                done <= total,
                address as int + 4 * total <= 0x1_0000_0000,
                address % 4 == 0,
            decreases total - done,
        {
            let chunk = if total - done > BLOCK_CHUNK {
                BLOCK_CHUNK
            } else {
                total - done
            };
            let chunk_address = address + 4 * (done as u32);
            let mut transfers = plan_block_access(chunk_address, None, 0, chunk);
            proof {
                lemma_block_plan_len(chunk_address as int, None, chunk as int);
            }
            match self.run_batch(&mut transfers) {
                Ok(()) => {}
                Err(e) => {
                    return Err(e);
                }
            }

            // Pull the words out of the DRW reads of the plan.
            let mut k: usize = 0;
            let mut ti: usize = 2;
            while k < chunk
                invariant
                    data@.len() == total,
                    done + chunk <= total,
                    k <= chunk,
                    ti <= transfers@.len(),
                decreases chunk - k,
            {
                if ti < transfers.len() {
                    let t = transfers[ti];
                    if t.address == TAR_ADDRESS && t.direction
                        == crate::dap::TransferDirection::Write {
                        ti = ti + 1;
                    }
                }
                if ti < transfers.len() {
                    data.set(done + k, transfers[ti].value);
                    ti = ti + 1;
                }
                k = k + 1;
            }

            done = done + chunk;
        }
        Ok(())
    }

    fn write_32(&mut self, address: u32, data: &Vec<u32>) -> (r: Result<(), Error>) {
        let total = data.len();
        if total > 0x4000_0000 {
            return Err(Error::Probe(DebugProbeError::NotImplemented));
        }
        if (address % 4 != 0) || (address as u64) + 4 * (total as u64) > 0x1_0000_0000 {
            return Err(Error::Probe(DebugProbeError::NotImplemented));
        }

        let mut done: usize = 0;
        while done < total
            invariant
                data@.len() == total,
                done <= total,
                address as int + 4 * total <= 0x1_0000_0000,
                address % 4 == 0,
            decreases total - done,
        {
            let chunk = if total - done > BLOCK_CHUNK {
                BLOCK_CHUNK
            } else {
                total - done
            };
            let chunk_address = address + 4 * (done as u32);
            let mut transfers = plan_block_access(chunk_address, Some(data), done, chunk);
            proof {
                lemma_block_plan_len(chunk_address as int, Some(data@.subrange(done as int, done + chunk)), chunk as int);
            }
            match self.run_batch(&mut transfers) {
                Ok(()) => {}
                Err(e) => {
                    return Err(e);
                }
            }
            done = done + chunk;
        }
        Ok(())
    }

    fn read_8(&mut self, address: u32, data: &mut Vec<u8>) -> (r: Result<(), Error>) {
        let total = data.len();
        let mut i: usize = 0;
        while i < total
            invariant
                data@.len() == old(data)@.len(),
                data@.len() == total,
                i <= total,
            decreases total - i,
        {
            let a = crate::armv7a::wrap_add32(address, (i % 0x4000_0000) as u32);
            let byte = match self.read_word_8(a) {
                Ok(v) => v,
                Err(e) => {
                    return Err(e);
                }
            };
            data.set(i, byte);
            i = i + 1;
        }
        Ok(())
    }

    fn write_8(&mut self, address: u32, data: &Vec<u8>) -> (r: Result<(), Error>) {
        let total = data.len();
        let mut i: usize = 0;
        while i < total
            invariant
                data@.len() == total,
                i <= total,
            decreases total - i,
        {
            let a = crate::armv7a::wrap_add32(address, (i % 0x4000_0000) as u32);
            match self.write_word_8(a, data[i]) {
                Ok(()) => {}
                Err(e) => {
                    return Err(e);
                }
            }
            i = i + 1;
        }
        Ok(())
    }

    fn flush(&mut self) -> (r: Result<(), Error>) {
        Ok(())
    }
}

/// A block plan holds at most two transfers per word beyond its two-entry
/// header.
pub proof fn lemma_block_plan_len(address: int, values: Option<Seq<u32>>, n: int)
    requires
        n >= 0,
    ensures
        spec_word_transfers(address, values, n).len() <= 2 * n,
        spec_block_plan(address as u32, values, n).len() <= 2 + 2 * n,
    decreases n,
{
    if n > 0 {
        lemma_block_plan_len(address, values, n - 1);
    }
}

} // verus!
