//! The JTAG counterpart of the transfer engine.
//!
//! A transfer writes a 4-bit IR (0xA = DP, 0xB = AP, 0x8 = ABORT) and then
//! shifts a 35-bit DR: bits [34:3] the data, [2:1] A[3:2], [0] RnW.  The
//! response's low 3 bits are the status: `001` WAIT, `010` OK, anything
//! else no-acknowledge.  The response to transaction N is shifted in during
//! transaction N+1, so a terminal RDBUFF read collects the final status.

use vstd::prelude::*;

use crate::dap::{
    DapError, DapTransfer, PortType, TransferDirection, TransferStatus, CTRL_ADDRESS,
    RDBUFF_ADDRESS,
};
use crate::probe::{DebugProbeError, JTAGAccess, RawProtocolIo};
use crate::transfer::same_request;

verus! {

/// The DR value written to ABORT over JTAG.
pub const JTAG_ABORT_VALUE: u64 = 0x8;

/// IR value selecting the ABORT register.
pub const JTAG_ABORT_IR_VALUE: u32 = 0x8;

/// IR value selecting the debug-port DR.
pub const JTAG_DEBUG_PORT_IR_VALUE: u32 = 0xA;

/// IR value selecting the access-port DR.
pub const JTAG_ACCESS_PORT_IR_VALUE: u32 = 0xB;

/// Status field value for WAIT.
pub const JTAG_STATUS_WAIT: u32 = 0x1;

/// Status field value for OK or FAULT.
pub const JTAG_STATUS_OK: u32 = 0x2;

/// ARM DR accesses are always 35 bits wide.
pub const JTAG_DR_BIT_LENGTH: u32 = 35;

/// The 35-bit DR payload of a transfer: data in bits [34:3], A[3:2] in
/// bits [2:1], RnW in bit 0.
pub open spec fn spec_jtag_payload(t: DapTransfer) -> u64 {
    if crate::dap::spec_is_abort(t) {
        JTAG_ABORT_VALUE
    } else {
        (((t.value as u64) << 3) | (((t.address as u64) & 0b1000) >> 1) | (((t.address as u64)
            & 0b0100) >> 1)) | (if t.direction == TransferDirection::Read {
            1u64
        } else {
            0u64
        })
    }
}

/// The IR value a transfer is addressed with.
pub open spec fn spec_jtag_address(t: DapTransfer) -> u32 {
    if crate::dap::spec_is_abort(t) {
        JTAG_ABORT_IR_VALUE
    } else if t.port == PortType::DebugPort {
        JTAG_DEBUG_PORT_IR_VALUE
    } else {
        JTAG_ACCESS_PORT_IR_VALUE
    }
}

/// Build the DR payload and IR address for one transfer.
pub fn build_jtag_payload_and_address(transfer: &DapTransfer) -> (r: (u64, u32))
    ensures
        r.0 == spec_jtag_payload(*transfer),
        r.1 == spec_jtag_address(*transfer),
{
    if transfer.is_abort() {
        (JTAG_ABORT_VALUE, JTAG_ABORT_IR_VALUE)
    } else {
        let address = match transfer.port {
            PortType::DebugPort => JTAG_DEBUG_PORT_IR_VALUE,
            PortType::AccessPort => JTAG_ACCESS_PORT_IR_VALUE,
        };

        // 32-bit value, bits [34:3].
        let mut payload = (transfer.value as u64) << 3;
        // A[3:2], bits [2:1].
        payload = payload | (((transfer.address as u64) & 0b1000) >> 1);
        payload = payload | (((transfer.address as u64) & 0b0100) >> 1);
        // RnW, bit 0.
        payload = payload | (if transfer.direction == TransferDirection::Read {
            1u64
        } else {
            0u64
        });

        (payload, address)
    }
}

/// The value a byte response folds to: each byte shifts the accumulator
/// right and lands in bits [39:32].
pub open spec fn spec_jtag_response(s: Seq<u8>) -> u64
    decreases s.len(),
{
    if s.len() == 0 {
        0
    } else {
        (spec_jtag_response(s.drop_last()) >> 8) | ((s.last() as u64) << 32)
    }
}

/// Fold a little-endian byte response into a value.
pub fn parse_jtag_response(data: &Vec<u8>) -> (r: u64)
    ensures
        r == spec_jtag_response(data@),
{
    let mut received = 0u64;
    let mut i: usize = 0;
    while i < data.len()
        invariant
            i <= data@.len(),
            received == spec_jtag_response(data@.subrange(0, i as int)),
        decreases data@.len() - i,
    {
        received = received >> 8;
        received = received | ((data[i] as u64) << 32);
        i = i + 1;
        proof {
            let sub = data@.subrange(0, i as int);
            assert(sub.drop_last() =~= data@.subrange(0, i - 1));
            assert(sub.last() == data@[i - 1]);
        }
    }
    proof {
        assert(data@.subrange(0, data@.len() as int) =~= data@);
    }
    received
}

/// The 8 little-endian bytes of a 64-bit word.
fn u64_to_le_bytes(v: u64) -> (r: Vec<u8>)
    ensures
        r@.len() == 8,
        forall|i: int| 0 <= i < 8 ==> #[trigger] r@[i] == ((v >> (8 * i) as u64) & 0xff) as u8,
{
    let mut bytes: Vec<u8> = Vec::new();
    let mut i: u64 = 0;
    while i < 8
        invariant
            i <= 8,
            bytes@.len() == i,
            forall|k: int| 0 <= k < i ==> #[trigger] bytes@[k] == ((v >> (8 * k) as u64) & 0xff) as u8,
        decreases 8 - i,
    {
        bytes.push(((v >> (8 * i)) & 0xff) as u8);
        i = i + 1;
    }
    bytes
}

/// The status field of a shifted JTAG response: `001` WAIT, `010` OK,
/// anything else no-acknowledge.
pub open spec fn spec_jtag_status(received: u64) -> TransferStatus {
    if (received & 0b111) as u32 == JTAG_STATUS_WAIT {
        TransferStatus::Failed(DapError::WaitResponse)
    } else if (received & 0b111) as u32 == JTAG_STATUS_OK {
        TransferStatus::Succeeded
    } else {
        TransferStatus::Failed(DapError::NoAcknowledge)
    }
}

/// Decode a shifted JTAG response: the value from bits [34:3], the status
/// from the low 3 bits.
pub fn decode_jtag_result(received: u64) -> (r: (u32, TransferStatus))
    ensures
        r.0 == ((received >> 3) & 0xffff_ffff) as u32,
        r.1 == spec_jtag_status(received),
{
    let received_value = ((received >> 3) & 0xffff_ffff) as u32;
    let status = (received & 0b111) as u32;

    let transfer_status = if status == JTAG_STATUS_WAIT {
        TransferStatus::Failed(DapError::WaitResponse)
    } else if status == JTAG_STATUS_OK {
        TransferStatus::Succeeded
    } else {
        TransferStatus::Failed(DapError::NoAcknowledge)
    };

    (received_value, transfer_status)
}

/// The batch after a sticky-error re-mark: every `Succeeded` transfer
/// becomes `Failed(FaultResponse)`, every other is unchanged.
pub open spec fn spec_remarked(s: Seq<DapTransfer>) -> Seq<DapTransfer> {
    Seq::new(
        s.len(),
        |i: int|
            if s[i].status == TransferStatus::Succeeded {
                DapTransfer { status: TransferStatus::Failed(DapError::FaultResponse), ..s[i] }
            } else {
                s[i]
            },
    )
}

/// Re-mark every transfer whose status is `Succeeded` as a fault: after a
/// batch whose final CTRL/STAT read shows the sticky error flag, an OK/FAULT
/// acknowledge did not mean OK, and the caller must retry those transfers.
pub fn remark_succeeded_as_fault(transfers: &mut Vec<DapTransfer>)
    ensures
        final(transfers)@.len() == old(transfers)@.len(),
        forall|m: int|
            0 <= m < old(transfers)@.len() ==> #[trigger] final(transfers)@[m] == (if old(
                transfers,
            )@[m].status == TransferStatus::Succeeded {
                DapTransfer {
                    status: TransferStatus::Failed(DapError::FaultResponse),
                    ..old(transfers)@[m]
                }
            } else {
                old(transfers)@[m]
            }),
{
    let ghost ts1 = transfers@;
    let mut k: usize = 0;
    while k < transfers.len()
        invariant
            k <= ts1.len(),
            transfers@.len() == ts1.len(),
            forall|m: int|
                0 <= m < k ==> #[trigger] transfers@[m] == (if ts1[m].status
                    == TransferStatus::Succeeded {
                    (DapTransfer {
                        status: TransferStatus::Failed(DapError::FaultResponse),
                        ..ts1[m]
                    })
                } else {
                    ts1[m]
                }),
            forall|m: int| k <= m < ts1.len() ==> #[trigger] transfers@[m] == ts1[m],
        decreases ts1.len() - k,
    {
        let t = transfers[k];
        if t.status == TransferStatus::Succeeded {
            let mut t2 = t;
            t2.status = TransferStatus::Failed(DapError::FaultResponse);
            transfers.set(k, t2);
        }
        k = k + 1;
    }
}

/// Perform a single JTAG transfer: write IR and DR, clock out idle time,
/// and parse value and status out of the shifted response.
///
/// An ABORT write returns no response and reports success; any other
/// transfer's value and status are decoded from some shifted response
/// word, and the status is never `Pending`.
pub fn perform_jtag_transfer<P: JTAGAccess + RawProtocolIo>(probe: &mut P, transfer: &DapTransfer) -> (r: Result<(u32, TransferStatus), DebugProbeError>)
    ensures
        r matches Ok(vs) ==> vs.1 != TransferStatus::Pending,
        crate::dap::spec_is_abort(*transfer) ==> (r matches Ok(vs) ==> vs == (
            0u32,
            TransferStatus::Succeeded,
        )),
        !crate::dap::spec_is_abort(*transfer) ==> (r matches Ok(vs) ==> exists|received: u64|
            #![trigger spec_jtag_status(received)]
            vs.0 == ((received >> 3) & 0xffff_ffff) as u32 && vs.1 == spec_jtag_status(received)),
{
    // Determine what JTAG IR address and value to send.  A read from any
    // port is still a JTAG write, as the address must be transmitted.
    let built = build_jtag_payload_and_address(transfer);
    let data = u64_to_le_bytes(built.0);

    let result = match probe.write_register(built.1, &data, JTAG_DR_BIT_LENGTH) {
        Ok(v) => v,
        Err(e) => {
            return Err(e);
        }
    };

    // Clock out any idle time.
    let idle = vec![false; transfer.idle_cycles_after];
    match probe.jtag_io(&idle, &idle) {
        Ok(_) => {}
        Err(e) => {
            return Err(e);
        }
    }

    let received = parse_jtag_response(&result);

    if transfer.is_abort() {
        // No response is returned for ABORT writes.
        return Ok((0, TransferStatus::Succeeded));
    }

    // Received value is bits [35:3], status bits [2:0].
    Ok(decode_jtag_result(received))
}

/// Perform a batch of JTAG transfers, one at a time.
///
/// The response to each transfer arrives with the next one; a final RDBUFF
/// read collects the last status.  Afterwards CTRL/STAT is checked: if the
/// sticky error flag is set it is cleared, and every transfer marked OK is
/// re-marked as FAULT so the caller retries.
pub fn perform_jtag_transfers<P: JTAGAccess + RawProtocolIo>(probe: &mut P, transfers: &mut Vec<DapTransfer>) -> (r: Result<(), DebugProbeError>)
    requires
        old(transfers)@.len() > 0,
    ensures
        final(transfers)@.len() == old(transfers)@.len(),
        r matches Ok(()) ==> forall|k: int|
            0 <= k < old(transfers)@.len() ==> same_request(
                #[trigger] final(transfers)@[k],
                old(transfers)@[k],
            ) && final(transfers)@[k].status != TransferStatus::Pending,
        r matches Ok(()) ==> exists|mid: Seq<DapTransfer>|
            #![trigger mid.len()]
            {
                &&& mid.len() == old(transfers)@.len()
                &&& (forall|k: int|
                    0 <= k < mid.len() ==> same_request(#[trigger] mid[k], old(transfers)@[k])
                        && mid[k].status != TransferStatus::Pending)
                &&& (crate::dap::spec_is_abort(old(transfers)@.last()) || crate::dap::spec_is_rdbuff(
                    old(transfers)@.last(),
                ) ==> mid.last().status == TransferStatus::Succeeded)
                &&& (final(transfers)@ == mid || final(transfers)@ == spec_remarked(mid))
            },
{
    let ghost ts0 = transfers@;
    let mut i: usize = 0;
    while i < transfers.len()
        invariant
            i <= ts0.len(),
            ts0 == old(transfers)@,
            transfers@.len() == ts0.len(),
            forall|k: int|
                0 <= k < i - 1 ==> same_request(#[trigger] transfers@[k], ts0[k]) && transfers@[k].status
                    != TransferStatus::Pending,
            forall|k: int|
                i <= k < ts0.len() ==> #[trigger] transfers@[k] == ts0[k],
            i >= 1 ==> same_request(transfers@[i - 1], ts0[i - 1]),
            i == 0 ==> transfers@ == ts0,
        decreases ts0.len() - i,
    {
        // Send this transfer's payload; its response belongs to the
        // previous transfer.
        let t = transfers[i];
        let vs = match perform_jtag_transfer(probe, &t) {
            Ok(vs) => vs,
            Err(e) => {
                return Err(e);
            }
        };

        if i > 0 {
            let prev = transfers[i - 1];
            let mut prev2 = prev;
            if prev.is_abort() || prev.is_rdbuff() {
                // These produce no status of their own.
                prev2.status = TransferStatus::Succeeded;
            } else {
                prev2.status = vs.1;
                if prev2.status == TransferStatus::Succeeded && prev.direction
                    == TransferDirection::Read {
                    prev2.value = vs.0;
                }
            }
            transfers.set(i - 1, prev2);
        }
        i = i + 1;
    }

    // A final read fetches the status of the last transaction.
    let last_index = transfers.len() - 1;
    let last = transfers[last_index];
    if last.is_abort() || last.is_rdbuff() {
        // No acknowledgement, so no need for another transfer.
        let mut l2 = last;
        l2.status = TransferStatus::Succeeded;
        transfers.set(last_index, l2);
    } else {
        let rdbuff_transfer = DapTransfer::read(PortType::DebugPort, RDBUFF_ADDRESS);
        let vs = match perform_jtag_transfer(probe, &rdbuff_transfer) {
            Ok(vs) => vs,
            Err(e) => {
                return Err(e);
            }
        };
        let mut l2 = last;
        l2.status = vs.1;
        if l2.status == TransferStatus::Succeeded && last.direction == TransferDirection::Read {
            l2.value = vs.0;
        }
        transfers.set(last_index, l2);
    }

    let ghost mid = transfers@;
    let ghost mut did_remark = false;
    proof {
        assert(mid.len() == old(transfers)@.len());
        assert forall|k: int|
            0 <= k < mid.len() implies same_request(#[trigger] mid[k], old(transfers)@[k])
            && mid[k].status != TransferStatus::Pending by {};
        if crate::dap::spec_is_abort(old(transfers)@.last()) || crate::dap::spec_is_rdbuff(
            old(transfers)@.last(),
        ) {
            assert(same_request(mid[mid.len() - 1], old(transfers)@[mid.len() - 1]));
            assert(mid.last().status == TransferStatus::Succeeded);
        }
    }
    if !last.is_abort() {
        // Check CTRL/STAT to make sure OK/FAULT meant OK.
        let ctrl_read = DapTransfer::read(PortType::DebugPort, CTRL_ADDRESS);
        match perform_jtag_transfer(probe, &ctrl_read) {
            Ok(_) => {}
            Err(e) => {
                return Err(e);
            }
        }
        let rdbuff_read = DapTransfer::read(PortType::DebugPort, RDBUFF_ADDRESS);
        let ctrl_value = match perform_jtag_transfer(probe, &rdbuff_read) {
            Ok(vs) => vs.0,
            Err(e) => {
                return Err(e);
            }
        };

        if (ctrl_value >> 5) & 1 == 1 {
            // The sticky error flag is set: clear it, and mark the
            // transfers that looked OK as failed so the caller retries.
            let ctrl_write = DapTransfer::write(PortType::DebugPort, CTRL_ADDRESS, ctrl_value);
            match perform_jtag_transfer(probe, &ctrl_write) {
                Ok(_) => {}
                Err(e) => {
                    return Err(e);
                }
            }

            remark_succeeded_as_fault(transfers);
            proof {
                did_remark = true;
                assert(transfers@ =~= spec_remarked(mid));
            }
        }
    }
    proof {
        if !did_remark {
            assert(transfers@ == mid);
        }
        assert(mid.len() == old(transfers)@.len());
    }

    Ok(())
}

} // verus!
