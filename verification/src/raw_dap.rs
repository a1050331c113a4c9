//! Retrying register access on top of the batch engine: WAIT backoff with
//! capped doubling of idle cycles, sticky-error recovery through ABORT and
//! CTRL/STAT, and line reset on protocol errors.
//!
//! Every function here threads a [`TransferLog`]: a ghost record of the
//! logical transfers whose outcome the retry layer accepted from the batch
//! engine, in the order they were driven.  The contracts tie each returned
//! value to an entry of that record, so a result must come from a transfer
//! that was actually driven.

use vstd::prelude::*;

use crate::dap::{
    DapError, DapTransfer, PortType, TransferDirection, TransferStatus, ABORT_ADDRESS,
    CTRL_ADDRESS, DPIDR_ADDRESS,
};
use crate::probe::{DebugProbeError, JTAGAccess, RawProtocolIo, WireProtocol, MAX_IDLE_SETTING};
use crate::swd::IoSequence;
use crate::transfer::{
    perform_transfers, same_request, spec_plan, spec_take_result, PlanParams, MAX_BATCH,
};

verus! {

/// ABORT value with ORUNERRCLR set: clears the sticky overrun flag.
pub const ABORT_ORUNERRCLR: u32 = 0x10;

/// ABORT value with STKERRCLR set: clears the sticky error flag.
pub const ABORT_STKERRCLR: u32 = 0x4;

/// Ghost record of the logical transfers the retry layer has driven: one
/// entry per logical transfer, holding its request fields and the status
/// and value the engine reported for it.
pub struct TransferLog {
    driven: Ghost<Seq<DapTransfer>>,
}

impl TransferLog {
    /// The transfers driven so far, oldest first.
    pub closed spec fn spec_driven(&self) -> Seq<DapTransfer> {
        self.driven@
    }

    /// An empty record.
    pub fn new() -> (r: TransferLog)
        ensures
            r.spec_driven() == Seq::<DapTransfer>::empty(),
    {
        TransferLog { driven: Ghost(Seq::empty()) }
    }
}

/// The record only ever grows: `post` begins with `pre`.
pub open spec fn spec_log_extends(pre: Seq<DapTransfer>, post: Seq<DapTransfer>) -> bool {
    &&& post.len() >= pre.len()
    &&& (forall|i: int| #![trigger post[i]] #![trigger pre[i]] 0 <= i < pre.len() ==> post[i] == pre[i])
}

/// A write to the ABORT register: a sticky-flag clear.
pub open spec fn spec_is_abort_clear(t: DapTransfer) -> bool {
    &&& t.port == PortType::DebugPort
    &&& t.address == ABORT_ADDRESS
    &&& t.direction == TransferDirection::Write
}

/// An ABORT write carrying exactly the sticky-clear flags the recovery
/// machinery uses: ORUNERRCLR, STKERRCLR, or both.
pub open spec fn spec_is_sticky_clear(t: DapTransfer) -> bool {
    &&& spec_is_abort_clear(t)
    &&& (t.value == ABORT_ORUNERRCLR || t.value == ABORT_STKERRCLR || t.value == (
    ABORT_ORUNERRCLR | ABORT_STKERRCLR))
}

/// A transfer the recovery machinery issues on its own behalf: an ABORT
/// sticky-clear, or a read of DPIDR (line reset) or CTRL/STAT (fault
/// recovery).
pub open spec fn spec_is_recovery(t: DapTransfer) -> bool {
    ||| spec_is_sticky_clear(t)
    ||| (t.port == PortType::DebugPort && t.direction == TransferDirection::Read && (t.address
        == DPIDR_ADDRESS || t.address == CTRL_ADDRESS))
}

/// A read of DPIDR: what a line reset drives.
pub open spec fn spec_is_dpidr_read(t: DapTransfer) -> bool {
    &&& t.port == PortType::DebugPort
    &&& t.address == DPIDR_ADDRESS
    &&& t.direction == TransferDirection::Read
}

/// The transfer addresses the given register in the given direction.
pub open spec fn spec_matches_request(
    t: DapTransfer,
    port: PortType,
    address: u8,
    dir: TransferDirection,
) -> bool {
    &&& t.port == port
    &&& t.address == address
    &&& t.direction == dir
}

/// Every record entry from `from` on is either the caller's request or a
/// recovery transfer.
pub open spec fn spec_seg_requests(
    log: Seq<DapTransfer>,
    from: int,
    port: PortType,
    address: u8,
    dir: TransferDirection,
) -> bool {
    forall|j: int|
        from <= j < log.len() ==> spec_matches_request(#[trigger] log[j], port, address, dir)
            || spec_is_recovery(log[j])
}

/// No record entry from `from` on that matches the request was
/// acknowledged OK.
pub open spec fn spec_seg_no_success(
    log: Seq<DapTransfer>,
    from: int,
    port: PortType,
    address: u8,
    dir: TransferDirection,
) -> bool {
    forall|j: int|
        from <= j < log.len() && spec_matches_request(#[trigger] log[j], port, address, dir)
            ==> log[j].status != TransferStatus::Succeeded
}

/// The value appears in a driven transfer of the given shape that was
/// acknowledged OK, at or after index `from`.
pub open spec fn spec_log_has_value(
    log: Seq<DapTransfer>,
    from: int,
    port: PortType,
    address: u8,
    dir: TransferDirection,
    v: u32,
) -> bool {
    exists|j: int|
        from <= j < log.len() && spec_matches_request(#[trigger] log[j], port, address, dir)
            && log[j].status == TransferStatus::Succeeded && log[j].value == v
}

/// The value is one of the words of `values`.
pub open spec fn spec_value_from(v: u32, values: Seq<u32>) -> bool {
    exists|i: int| 0 <= i < values.len() && values[i] == v
}

/// Extension is transitive.
pub proof fn lemma_extends_trans(a: Seq<DapTransfer>, b: Seq<DapTransfer>, c: Seq<DapTransfer>)
    requires
        spec_log_extends(a, b),
        spec_log_extends(b, c),
    ensures
        spec_log_extends(a, c),
{
    assert forall|i: int| 0 <= i < a.len() implies c[i] == a[i] by {
        assert(b[i] == a[i]);
        assert(c[i] == b[i]);
    };
}

/// Pushing one entry keeps extension.
proof fn lemma_extends_push(pre: Seq<DapTransfer>, cur: Seq<DapTransfer>, t: DapTransfer)
    requires
        spec_log_extends(pre, cur),
    ensures
        spec_log_extends(pre, cur.push(t)),
{
    assert forall|i: int| 0 <= i < pre.len() implies cur.push(t)[i] == pre[i] by {
        assert(cur.push(t)[i] == cur[i]);
    };
}

/// An acknowledged value stays in the record when the record grows.
proof fn lemma_has_value_extends(
    pre: Seq<DapTransfer>,
    post: Seq<DapTransfer>,
    from: int,
    port: PortType,
    address: u8,
    dir: TransferDirection,
    v: u32,
)
    requires
        spec_log_extends(pre, post),
        0 <= from,
        spec_log_has_value(pre, from, port, address, dir, v),
    ensures
        spec_log_has_value(post, from, port, address, dir, v),
{
    let j = choose|j: int|
        from <= j < pre.len() && spec_matches_request(#[trigger] pre[j], port, address, dir)
            && pre[j].status == TransferStatus::Succeeded && pre[j].value == v;
    assert(post[j] == pre[j]);
}

/// A request-or-recovery segment stays one under appended entries that are
/// themselves requests or recovery transfers.
proof fn lemma_seg_requests_concat(
    pre: Seq<DapTransfer>,
    post: Seq<DapTransfer>,
    from: int,
    port: PortType,
    address: u8,
    dir: TransferDirection,
)
    requires
        0 <= from <= pre.len(),
        spec_log_extends(pre, post),
        spec_seg_requests(pre, from, port, address, dir),
        forall|j: int|
            pre.len() <= j < post.len() ==> spec_matches_request(
                #[trigger] post[j],
                port,
                address,
                dir,
            ) || spec_is_recovery(post[j]),
    ensures
        spec_seg_requests(post, from, port, address, dir),
{
    assert forall|j: int| from <= j < post.len() implies spec_matches_request(
        #[trigger] post[j],
        port,
        address,
        dir,
    ) || spec_is_recovery(post[j]) by {
        if j < pre.len() {
            assert(post[j] == pre[j]);
        }
    };
}

/// A no-success segment stays one under appended entries of which no
/// matching one succeeded.
proof fn lemma_seg_no_success_concat(
    pre: Seq<DapTransfer>,
    post: Seq<DapTransfer>,
    from: int,
    port: PortType,
    address: u8,
    dir: TransferDirection,
)
    requires
        0 <= from <= pre.len(),
        spec_log_extends(pre, post),
        spec_seg_no_success(pre, from, port, address, dir),
        forall|j: int|
            pre.len() <= j < post.len() && spec_matches_request(
                #[trigger] post[j],
                port,
                address,
                dir,
            ) ==> post[j].status != TransferStatus::Succeeded,
    ensures
        spec_seg_no_success(post, from, port, address, dir),
{
    assert forall|j: int|
        from <= j < post.len() && spec_matches_request(
            #[trigger] post[j],
            port,
            address,
            dir,
        ) implies post[j].status != TransferStatus::Succeeded by {
        if j < pre.len() {
            assert(post[j] == pre[j]);
        }
    };
}

/// Drive one transfer through the batch engine, record its outcome, and
/// hand it back: the transfer filled from the physical outcome at its
/// planned result index.
fn perform_one<P: RawProtocolIo + JTAGAccess>(probe: &mut P, log: &mut TransferLog, transfer: DapTransfer, idle_cycles: usize) -> (r: Result<DapTransfer, DebugProbeError>)
    ensures
        r matches Ok(t) ==> t.status != TransferStatus::Pending && t.port == transfer.port
            && t.address == transfer.address && t.direction == transfer.direction && (
        transfer.direction == TransferDirection::Write ==> t.value == transfer.value),
        r matches Ok(t) ==> exists|p: PlanParams, outcome: Seq<DapTransfer>|
            #![trigger spec_plan(seq![transfer], p).phys, outcome.len()]
            {
                let plan = spec_plan(seq![transfer], p);
                &&& p.idle_cycles == idle_cycles
                &&& outcome.len() == plan.phys.len()
                &&& (forall|j: int|
                    0 <= j < outcome.len() ==> same_request(#[trigger] outcome[j], plan.phys[j])
                        && outcome[j].status != TransferStatus::Pending)
                &&& t == spec_take_result(transfer, outcome[plan.indices[0] as int])
            },
        r matches Ok(t) ==> final(log).spec_driven() == old(log).spec_driven().push(t),
        r is Err ==> final(log).spec_driven() == old(log).spec_driven(),
{
    let ghost t0 = transfer;
    let mut transfers: Vec<DapTransfer> = Vec::new();
    transfers.push(transfer);
    proof {
        assert(transfers@ =~= seq![transfer]);
    }
    match perform_transfers(probe, &mut transfers, idle_cycles) {
        Ok(()) => {
            proof {
                assert(same_request(transfers@[0], t0));
            }
            let t = transfers[0];
            log.driven = Ghost(log.driven@.push(t));
            Ok(t)
        }
        Err(e) => Err(e),
    }
}

/// Drive a whole batch through the engine and record every outcome, in
/// batch order.
fn perform_batch<P: RawProtocolIo + JTAGAccess>(probe: &mut P, log: &mut TransferLog, transfers: &mut Vec<DapTransfer>, idle_cycles: usize) -> (r: Result<(), DebugProbeError>)
    requires
        old(transfers)@.len() <= MAX_BATCH,
    ensures
        final(transfers)@.len() == old(transfers)@.len(),
        r matches Ok(()) ==> forall|k: int|
            0 <= k < old(transfers)@.len() ==> same_request(
                #[trigger] final(transfers)@[k],
                old(transfers)@[k],
            ) && final(transfers)@[k].status != TransferStatus::Pending,
        r matches Ok(()) ==> final(log).spec_driven() == old(log).spec_driven()
            + final(transfers)@,
        r is Err ==> final(log).spec_driven() == old(log).spec_driven(),
{
    match perform_transfers(probe, transfers, idle_cycles) {
        Ok(()) => {
            log.driven = Ghost(log.driven@ + transfers@);
            Ok(())
        }
        Err(e) => Err(e),
    }
}

/// Drive an arbitrary line sequence of up to 64 bits, LSB first, for mode
/// switching.
pub fn swj_sequence<P: RawProtocolIo + JTAGAccess>(probe: &mut P, bit_len: u8, bits: u64) -> (r: Result<(), DebugProbeError>)
{
    let mut io_sequence = IoSequence::new();
    let mut remaining = bits;
    let mut i: u8 = 0;
    while i < bit_len
        invariant
            io_sequence.io_spec().len() == i as int,
        decreases bit_len - i,
    {
        io_sequence.add_output(remaining & 1 == 1);
        remaining = remaining >> 1;
        i = i + 1;
    }

    // ARM SWJ uses a 4-bit IR length.
    probe.set_ir_len(4);

    match probe.active_protocol() {
        WireProtocol::Jtag => {
            let tdi = vec![false; bit_len as usize];
            match probe.jtag_io(io_sequence.io_bits(), &tdi) {
                Ok(_) => Ok(()),
                Err(e) => Err(e),
            }
        }
        WireProtocol::Swd => {
            match probe.swd_io(io_sequence.direction_bits(), io_sequence.io_bits()) {
                Ok(_) => Ok(()),
                Err(e) => Err(e),
            }
        }
    }
}

/// Perform a line reset — at least 50 clock cycles with the data line
/// high, two low cycles — and re-read DPIDR to resynchronize.  The first
/// reset may fail if the target was mid-transfer, so it is tried twice.
/// Only DPIDR reads are recorded.
pub fn run_line_reset<P: RawProtocolIo + JTAGAccess>(probe: &mut P, log: &mut TransferLog) -> (r: Result<
    (),
    DebugProbeError,
>)
    ensures
        spec_log_extends(old(log).spec_driven(), final(log).spec_driven()),
        forall|j: int|
            old(log).spec_driven().len() <= j < final(log).spec_driven().len()
                ==> spec_is_dpidr_read(#[trigger] final(log).spec_driven()[j]),
{
    let ghost l0 = log.spec_driven();
    let mut result: Result<(), DebugProbeError> = Ok(());

    let mut attempt: u8 = 0;
    while attempt < 2
        invariant
            l0 == old(log).spec_driven(),
            spec_log_extends(l0, log.spec_driven()),
            forall|j: int|
                l0.len() <= j < log.spec_driven().len() ==> spec_is_dpidr_read(
                    #[trigger] log.spec_driven()[j],
                ),
        decreases 2 - attempt,
    {
        probe.probe_statistics().report_line_reset();

        match swj_sequence(probe, 51, 0x0007_FFFF_FFFF_FFFF) {
            Ok(()) => {}
            Err(e) => {
                return Err(e);
            }
        }

        let settings = probe.swd_settings();
        let idle = settings.num_idle_cycles_between_writes();
        let ghost pre = log.spec_driven();
        match perform_one(probe, log, DapTransfer::read(PortType::DebugPort, DPIDR_ADDRESS), idle) {
            Ok(t) => {
                proof {
                    lemma_extends_push(l0, pre, t);
                    assert forall|j: int|
                        l0.len() <= j < log.spec_driven().len() implies spec_is_dpidr_read(
                        #[trigger] log.spec_driven()[j],
                    ) by {
                        if j < pre.len() {
                            assert(log.spec_driven()[j] == pre[j]);
                        } else {
                            assert(log.spec_driven()[j] == t);
                        }
                    };
                }
                if t.status == TransferStatus::Succeeded {
                    return Ok(());
                }
                result = Err(DebugProbeError::Dap(DapError::NoAcknowledge));
            }
            Err(e) => {
                result = Err(e);
            }
        }
        attempt = attempt + 1;
    }

    // No acknowledge from the target, even after the line resets.
    result
}

/// Write ABORT with the given sticky-clear flags, once, without recovery.
fn clear_sticky_flags<P: RawProtocolIo + JTAGAccess>(probe: &mut P, log: &mut TransferLog, abort_value: u32, idle_cycles: usize) -> (r: Result<(), DebugProbeError>)
    ensures
        r matches Ok(()) ==> ({
            let pre = old(log).spec_driven();
            let post = final(log).spec_driven();
            &&& post.len() == pre.len() + 1
            &&& spec_log_extends(pre, post)
            &&& spec_is_abort_clear(post.last())
            &&& post.last().value == abort_value
            &&& post.last().status != TransferStatus::Pending
        }),
        r is Err ==> final(log).spec_driven() == old(log).spec_driven(),
{
    let ghost pre = log.spec_driven();
    match perform_one(
        probe,
        log,
        DapTransfer::write(PortType::DebugPort, ABORT_ADDRESS, abort_value),
        idle_cycles,
    ) {
        Ok(t) => {
            proof {
                lemma_extends_push(pre, pre, t);
            }
            Ok(())
        }
        Err(e) => Err(e),
    }
}

/// The ABORT value that clears exactly the sticky flags a CTRL/STAT value
/// shows set: ORUNERRCLR for STICKYORUN (bit 1), STKERRCLR for STICKYERR
/// (bit 5).
pub fn sticky_clear_value(ctrl: u32) -> (r: u32)
    ensures
        r == ((if (ctrl >> 1) & 1 == 1 {
            ABORT_ORUNERRCLR
        } else {
            0u32
        }) | (if (ctrl >> 5) & 1 == 1 {
            ABORT_STKERRCLR
        } else {
            0u32
        })),
{
    (if (ctrl >> 1) & 1 == 1 {
        ABORT_ORUNERRCLR
    } else {
        0u32
    }) | (if (ctrl >> 5) & 1 == 1 {
        ABORT_STKERRCLR
    } else {
        0u32
    })
}

/// On a FAULT response: read CTRL/STAT, clear whichever of STICKYORUN and
/// STICKYERR is set via ABORT, and surface the fault to the caller — or a
/// probe error met along the way.  Only recovery transfers are recorded.
fn recover_fault<P: RawProtocolIo + JTAGAccess>(probe: &mut P, log: &mut TransferLog, idle_cycles: usize) -> (r: Result<
    (),
    DebugProbeError,
>)
    ensures
        r is Err,
        spec_log_extends(old(log).spec_driven(), final(log).spec_driven()),
        forall|j: int|
            old(log).spec_driven().len() <= j < final(log).spec_driven().len()
                ==> spec_is_recovery(#[trigger] final(log).spec_driven()[j]),
{
    let ghost l0 = log.spec_driven();
    match perform_one(probe, log, DapTransfer::read(PortType::DebugPort, CTRL_ADDRESS), idle_cycles) {
        Ok(ctrl) => {
            proof {
                lemma_extends_push(l0, l0, ctrl);
            }
            if ctrl.status == TransferStatus::Succeeded {
                let abort_value = sticky_clear_value(ctrl.value);
                if abort_value != 0 {
                    let ghost pre = log.spec_driven();
                    match clear_sticky_flags(probe, log, abort_value, idle_cycles) {
                        Ok(()) => {
                            proof {
                                assert(0x10u32 | 0u32 == 0x10u32) by (bit_vector);
                                assert(0u32 | 0x4u32 == 0x4u32) by (bit_vector);
                                assert(0u32 | 0u32 == 0u32) by (bit_vector);
                                assert(0x10u32 | 0x4u32 == 0x14u32) by (bit_vector);
                                assert(abort_value == ABORT_ORUNERRCLR || abort_value
                                    == ABORT_STKERRCLR || abort_value == (ABORT_ORUNERRCLR
                                    | ABORT_STKERRCLR));
                                lemma_extends_trans(l0, pre, log.spec_driven());
                                assert forall|j: int|
                                    l0.len() <= j < log.spec_driven().len() implies spec_is_recovery(
                                    #[trigger] log.spec_driven()[j],
                                ) by {
                                    if j < pre.len() {
                                        assert(log.spec_driven().subrange(0, pre.len() as int)[j]
                                            == log.spec_driven()[j]);
                                        assert(log.spec_driven()[j] == pre[j]);
                                    } else {
                                        assert(j == log.spec_driven().len() - 1);
                                        assert(log.spec_driven()[j] == log.spec_driven().last());
                                    }
                                };
                            }
                        }
                        Err(e) => {
                            return Err(e);
                        }
                    }
                }
            }
        }
        Err(e) => {
            return Err(e);
        }
    }
    Err(DebugProbeError::Dap(DapError::FaultResponse))
}

/// The doubled, capped idle-cycle backoff applied after a WAIT response.
fn backoff_idle_cycles(idle_cycles: usize, cap: usize) -> (r: usize)
    requires
        idle_cycles <= MAX_IDLE_SETTING,
        cap <= MAX_IDLE_SETTING,
    ensures
        r <= MAX_IDLE_SETTING,
        r == (if cap < 2 * idle_cycles {
            cap
        } else {
            (2 * idle_cycles) as usize
        }),
{
    let doubled = idle_cycles * 2;
    if cap < doubled {
        cap
    } else {
        doubled
    }
}

/// Read a DP or AP register, retrying on WAIT with backoff, clearing
/// sticky flags on FAULT, and resynchronizing with a line reset on
/// protocol errors.
///
/// On success the last recorded transfer is the acknowledged read and the
/// returned value is what it answered; every transfer recorded on the way
/// is either this request or a recovery transfer, and — unless the request
/// itself addresses a recovery register — an error means no attempt was
/// acknowledged OK.
pub fn raw_read_register<P: RawProtocolIo + JTAGAccess>(probe: &mut P, log: &mut TransferLog, port: PortType, address: u8) -> (r: Result<u32, DebugProbeError>)
    ensures
        spec_log_extends(old(log).spec_driven(), final(log).spec_driven()),
        r matches Ok(v) ==> ({
            let post = final(log).spec_driven();
            &&& post.len() > old(log).spec_driven().len()
            &&& post.last().port == port
            &&& post.last().address == address
            &&& post.last().direction == TransferDirection::Read
            &&& post.last().status == TransferStatus::Succeeded
            &&& post.last().value == v
        }),
        spec_seg_requests(
            final(log).spec_driven(),
            old(log).spec_driven().len() as int,
            port,
            address,
            TransferDirection::Read,
        ),
        r is Err && !(port == PortType::DebugPort && (address == DPIDR_ADDRESS || address
            == CTRL_ADDRESS)) ==> spec_seg_no_success(
            final(log).spec_driven(),
            old(log).spec_driven().len() as int,
            port,
            address,
            TransferDirection::Read,
        ),
{
    let ghost l0 = log.spec_driven();
    let settings = probe.swd_settings();
    let dap_wait_retries = settings.num_retries_after_wait();
    let cap = settings.max_retry_idle_cycles_after_wait();
    let between = settings.num_idle_cycles_between_writes();
    let mut idle_cycles: usize = if between < 1 {
        1
    } else {
        between
    };

    let mut retry: usize = 0;
    while retry < dap_wait_retries
        invariant
            idle_cycles <= MAX_IDLE_SETTING,
            cap <= MAX_IDLE_SETTING,
            l0 == old(log).spec_driven(),
            spec_log_extends(l0, log.spec_driven()),
            spec_seg_requests(
                log.spec_driven(),
                l0.len() as int,
                port,
                address,
                TransferDirection::Read,
            ),
            spec_seg_no_success(
                log.spec_driven(),
                l0.len() as int,
                port,
                address,
                TransferDirection::Read,
            ) || (port == PortType::DebugPort && (address == DPIDR_ADDRESS || address
                == CTRL_ADDRESS)),
        decreases dap_wait_retries - retry,
    {
        let ghost pre = log.spec_driven();
        let t = match perform_one(probe, log, DapTransfer::read(port, address), idle_cycles) {
            Ok(t) => t,
            Err(e) => {
                return Err(e);
            }
        };
        proof {
            lemma_extends_push(l0, pre, t);
            lemma_seg_requests_concat(
                pre,
                log.spec_driven(),
                l0.len() as int,
                port,
                address,
                TransferDirection::Read,
            );
        }

        match t.status {
            TransferStatus::Succeeded => {
                return Ok(t.value);
            }
            TransferStatus::Pending => {
                // The engine never leaves a driven transfer pending.
                proof {
                    assert(false);
                }
            }
            TransferStatus::Failed(DapError::WaitResponse) => {
                proof {
                    if !(port == PortType::DebugPort && (address == DPIDR_ADDRESS || address
                        == CTRL_ADDRESS)) {
                        lemma_seg_no_success_concat(
                            pre,
                            log.spec_driven(),
                            l0.len() as int,
                            port,
                            address,
                            TransferDirection::Read,
                        );
                    }
                }
                // Clear the sticky overrun flag that the WAIT set, and
                // back off before retrying.
                let ghost pre2 = log.spec_driven();
                match clear_sticky_flags(probe, log, ABORT_ORUNERRCLR, idle_cycles) {
                    Ok(()) => {}
                    Err(e) => {
                        return Err(e);
                    }
                }
                proof {
                    lemma_extends_trans(l0, pre2, log.spec_driven());
                    lemma_seg_requests_concat(
                        pre2,
                        log.spec_driven(),
                        l0.len() as int,
                        port,
                        address,
                        TransferDirection::Read,
                    );
                    if !(port == PortType::DebugPort && (address == DPIDR_ADDRESS || address
                        == CTRL_ADDRESS)) {
                        lemma_seg_no_success_concat(
                            pre2,
                            log.spec_driven(),
                            l0.len() as int,
                            port,
                            address,
                            TransferDirection::Read,
                        );
                    }
                }
                idle_cycles = backoff_idle_cycles(idle_cycles, cap);
            }
            TransferStatus::Failed(DapError::FaultResponse) => {
                proof {
                    if !(port == PortType::DebugPort && (address == DPIDR_ADDRESS || address
                        == CTRL_ADDRESS)) {
                        lemma_seg_no_success_concat(
                            pre,
                            log.spec_driven(),
                            l0.len() as int,
                            port,
                            address,
                            TransferDirection::Read,
                        );
                    }
                }
                let ghost pre2 = log.spec_driven();
                let recovery = recover_fault(probe, log, idle_cycles);
                proof {
                    lemma_extends_trans(l0, pre2, log.spec_driven());
                    lemma_seg_requests_concat(
                        pre2,
                        log.spec_driven(),
                        l0.len() as int,
                        port,
                        address,
                        TransferDirection::Read,
                    );
                    if !(port == PortType::DebugPort && (address == DPIDR_ADDRESS || address
                        == CTRL_ADDRESS)) {
                        lemma_seg_no_success_concat(
                            pre2,
                            log.spec_driven(),
                            l0.len() as int,
                            port,
                            address,
                            TransferDirection::Read,
                        );
                    }
                }
                return match recovery {
                    Ok(()) => Err(DebugProbeError::Dap(DapError::FaultResponse)),
                    Err(e) => Err(e),
                };
            }
            TransferStatus::Failed(_) => {
                proof {
                    if !(port == PortType::DebugPort && (address == DPIDR_ADDRESS || address
                        == CTRL_ADDRESS)) {
                        lemma_seg_no_success_concat(
                            pre,
                            log.spec_driven(),
                            l0.len() as int,
                            port,
                            address,
                            TransferDirection::Read,
                        );
                    }
                }
                // A protocol error: resynchronize with a line reset, then
                // retry the operation.
                let ghost pre2 = log.spec_driven();
                match run_line_reset(probe, log) {
                    Ok(()) => {}
                    Err(e) => {
                        proof {
                            lemma_extends_trans(l0, pre2, log.spec_driven());
                            lemma_seg_requests_concat(
                                pre2,
                                log.spec_driven(),
                                l0.len() as int,
                                port,
                                address,
                                TransferDirection::Read,
                            );
                            if !(port == PortType::DebugPort && (address == DPIDR_ADDRESS
                                || address == CTRL_ADDRESS)) {
                                lemma_seg_no_success_concat(
                                    pre2,
                                    log.spec_driven(),
                                    l0.len() as int,
                                    port,
                                    address,
                                    TransferDirection::Read,
                                );
                            }
                        }
                        return Err(e);
                    }
                }
                proof {
                    lemma_extends_trans(l0, pre2, log.spec_driven());
                    lemma_seg_requests_concat(
                        pre2,
                        log.spec_driven(),
                        l0.len() as int,
                        port,
                        address,
                        TransferDirection::Read,
                    );
                    if !(port == PortType::DebugPort && (address == DPIDR_ADDRESS || address
                        == CTRL_ADDRESS)) {
                        lemma_seg_no_success_concat(
                            pre2,
                            log.spec_driven(),
                            l0.len() as int,
                            port,
                            address,
                            TransferDirection::Read,
                        );
                    }
                }
            }
        }
        retry = retry + 1;
    }

    Err(DebugProbeError::WaitExhausted)
}

/// Write a DP or AP register, with the same retry and recovery policy as
/// [`raw_read_register`].
///
/// On success the last recorded transfer is the acknowledged write and it
/// carries the given value; unless the request itself addresses the ABORT
/// register, an error means no attempt was acknowledged OK.
pub fn raw_write_register<P: RawProtocolIo + JTAGAccess>(probe: &mut P, log: &mut TransferLog, port: PortType, address: u8, value: u32) -> (r: Result<(), DebugProbeError>)
    ensures
        spec_log_extends(old(log).spec_driven(), final(log).spec_driven()),
        r matches Ok(()) ==> ({
            let post = final(log).spec_driven();
            &&& post.len() > old(log).spec_driven().len()
            &&& post.last().port == port
            &&& post.last().address == address
            &&& post.last().direction == TransferDirection::Write
            &&& post.last().status == TransferStatus::Succeeded
            &&& post.last().value == value
        }),
        spec_seg_requests(
            final(log).spec_driven(),
            old(log).spec_driven().len() as int,
            port,
            address,
            TransferDirection::Write,
        ),
        r is Err && !(port == PortType::DebugPort && address == ABORT_ADDRESS)
            ==> spec_seg_no_success(
            final(log).spec_driven(),
            old(log).spec_driven().len() as int,
            port,
            address,
            TransferDirection::Write,
        ),
{
    let ghost l0 = log.spec_driven();
    let settings = probe.swd_settings();
    let dap_wait_retries = settings.num_retries_after_wait();
    let cap = settings.max_retry_idle_cycles_after_wait();
    let between = settings.num_idle_cycles_between_writes();
    let mut idle_cycles: usize = if between < 1 {
        1
    } else {
        between
    };

    let mut retry: usize = 0;
    while retry < dap_wait_retries
        invariant
            idle_cycles <= MAX_IDLE_SETTING,
            cap <= MAX_IDLE_SETTING,
            l0 == old(log).spec_driven(),
            spec_log_extends(l0, log.spec_driven()),
            spec_seg_requests(
                log.spec_driven(),
                l0.len() as int,
                port,
                address,
                TransferDirection::Write,
            ),
            spec_seg_no_success(
                log.spec_driven(),
                l0.len() as int,
                port,
                address,
                TransferDirection::Write,
            ) || (port == PortType::DebugPort && address == ABORT_ADDRESS),
        decreases dap_wait_retries - retry,
    {
        let req = DapTransfer::write(port, address, value);
        let ghost pre = log.spec_driven();
        let t = match perform_one(probe, log, req, idle_cycles) {
            Ok(t) => t,
            Err(e) => {
                return Err(e);
            }
        };
        proof {
            lemma_extends_push(l0, pre, t);
            lemma_seg_requests_concat(
                pre,
                log.spec_driven(),
                l0.len() as int,
                port,
                address,
                TransferDirection::Write,
            );
        }

        match t.status {
            TransferStatus::Succeeded => {
                return Ok(());
            }
            TransferStatus::Pending => {
                // The engine never leaves a driven transfer pending.
                proof {
                    assert(false);
                }
            }
            TransferStatus::Failed(DapError::WaitResponse) => {
                proof {
                    if !(port == PortType::DebugPort && address == ABORT_ADDRESS) {
                        lemma_seg_no_success_concat(
                            pre,
                            log.spec_driven(),
                            l0.len() as int,
                            port,
                            address,
                            TransferDirection::Write,
                        );
                    }
                }
                let ghost pre2 = log.spec_driven();
                match clear_sticky_flags(probe, log, ABORT_ORUNERRCLR, idle_cycles) {
                    Ok(()) => {}
                    Err(e) => {
                        return Err(e);
                    }
                }
                proof {
                    lemma_extends_trans(l0, pre2, log.spec_driven());
                    lemma_seg_requests_concat(
                        pre2,
                        log.spec_driven(),
                        l0.len() as int,
                        port,
                        address,
                        TransferDirection::Write,
                    );
                    if !(port == PortType::DebugPort && address == ABORT_ADDRESS) {
                        lemma_seg_no_success_concat(
                            pre2,
                            log.spec_driven(),
                            l0.len() as int,
                            port,
                            address,
                            TransferDirection::Write,
                        );
                    }
                }
                idle_cycles = backoff_idle_cycles(idle_cycles, cap);
            }
            TransferStatus::Failed(DapError::FaultResponse) => {
                proof {
                    if !(port == PortType::DebugPort && address == ABORT_ADDRESS) {
                        lemma_seg_no_success_concat(
                            pre,
                            log.spec_driven(),
                            l0.len() as int,
                            port,
                            address,
                            TransferDirection::Write,
                        );
                    }
                }
                let ghost pre2 = log.spec_driven();
                let recovery = recover_fault(probe, log, idle_cycles);
                proof {
                    lemma_extends_trans(l0, pre2, log.spec_driven());
                    lemma_seg_requests_concat(
                        pre2,
                        log.spec_driven(),
                        l0.len() as int,
                        port,
                        address,
                        TransferDirection::Write,
                    );
                    if !(port == PortType::DebugPort && address == ABORT_ADDRESS) {
                        lemma_seg_no_success_concat(
                            pre2,
                            log.spec_driven(),
                            l0.len() as int,
                            port,
                            address,
                            TransferDirection::Write,
                        );
                    }
                }
                return match recovery {
                    Ok(()) => Err(DebugProbeError::Dap(DapError::FaultResponse)),
                    Err(e) => Err(e),
                };
            }
            TransferStatus::Failed(_) => {
                proof {
                    if !(port == PortType::DebugPort && address == ABORT_ADDRESS) {
                        lemma_seg_no_success_concat(
                            pre,
                            log.spec_driven(),
                            l0.len() as int,
                            port,
                            address,
                            TransferDirection::Write,
                        );
                    }
                }
                let ghost pre2 = log.spec_driven();
                match run_line_reset(probe, log) {
                    Ok(()) => {}
                    Err(e) => {
                        proof {
                            lemma_extends_trans(l0, pre2, log.spec_driven());
                            lemma_seg_requests_concat(
                                pre2,
                                log.spec_driven(),
                                l0.len() as int,
                                port,
                                address,
                                TransferDirection::Write,
                            );
                            if !(port == PortType::DebugPort && address == ABORT_ADDRESS) {
                                lemma_seg_no_success_concat(
                                    pre2,
                                    log.spec_driven(),
                                    l0.len() as int,
                                    port,
                                    address,
                                    TransferDirection::Write,
                                );
                            }
                        }
                        return Err(e);
                    }
                }
                proof {
                    lemma_extends_trans(l0, pre2, log.spec_driven());
                    lemma_seg_requests_concat(
                        pre2,
                        log.spec_driven(),
                        l0.len() as int,
                        port,
                        address,
                        TransferDirection::Write,
                    );
                    if !(port == PortType::DebugPort && address == ABORT_ADDRESS) {
                        lemma_seg_no_success_concat(
                            pre2,
                            log.spec_driven(),
                            l0.len() as int,
                            port,
                            address,
                            TransferDirection::Write,
                        );
                    }
                }
            }
        }
        retry = retry + 1;
    }

    Err(DebugProbeError::WaitExhausted)
}

/// Every record entry from `from` on is a read of the block's register or
/// an ABORT sticky-clear.
pub open spec fn spec_seg_block_reads(
    log: Seq<DapTransfer>,
    from: int,
    port: PortType,
    address: u8,
) -> bool {
    forall|j: int|
        from <= j < log.len() ==> spec_matches_request(
            #[trigger] log[j],
            port,
            address,
            TransferDirection::Read,
        ) || spec_is_sticky_clear(log[j])
}

/// Every record entry from `from` on is a write of one of the block's
/// words to the block's register, or an ABORT sticky-clear.
pub open spec fn spec_seg_block_writes(
    log: Seq<DapTransfer>,
    from: int,
    port: PortType,
    address: u8,
    values: Seq<u32>,
) -> bool {
    forall|j: int|
        from <= j < log.len() ==> (spec_matches_request(
            #[trigger] log[j],
            port,
            address,
            TransferDirection::Write,
        ) && spec_value_from(log[j].value, values)) || spec_is_sticky_clear(log[j])
}

/// A block-read segment stays one under appended entries of the same two
/// shapes.
proof fn lemma_seg_block_reads_concat(
    pre: Seq<DapTransfer>,
    post: Seq<DapTransfer>,
    from: int,
    port: PortType,
    address: u8,
)
    requires
        0 <= from <= pre.len(),
        spec_log_extends(pre, post),
        spec_seg_block_reads(pre, from, port, address),
        forall|j: int|
            pre.len() <= j < post.len() ==> spec_matches_request(
                #[trigger] post[j],
                port,
                address,
                TransferDirection::Read,
            ) || spec_is_sticky_clear(post[j]),
    ensures
        spec_seg_block_reads(post, from, port, address),
{
    assert forall|j: int| from <= j < post.len() implies spec_matches_request(
        #[trigger] post[j],
        port,
        address,
        TransferDirection::Read,
    ) || spec_is_sticky_clear(post[j]) by {
        if j < pre.len() {
            assert(post[j] == pre[j]);
        }
    };
}

/// A block-write segment stays one under appended entries of the same two
/// shapes.
proof fn lemma_seg_block_writes_concat(
    pre: Seq<DapTransfer>,
    post: Seq<DapTransfer>,
    from: int,
    port: PortType,
    address: u8,
    values: Seq<u32>,
)
    requires
        0 <= from <= pre.len(),
        spec_log_extends(pre, post),
        spec_seg_block_writes(pre, from, port, address, values),
        forall|j: int|
            pre.len() <= j < post.len() ==> (spec_matches_request(
                #[trigger] post[j],
                port,
                address,
                TransferDirection::Write,
            ) && spec_value_from(post[j].value, values)) || spec_is_sticky_clear(post[j]),
    ensures
        spec_seg_block_writes(post, from, port, address, values),
{
    assert forall|j: int| from <= j < post.len() implies (spec_matches_request(
        #[trigger] post[j],
        port,
        address,
        TransferDirection::Write,
    ) && spec_value_from(post[j].value, values)) || spec_is_sticky_clear(post[j]) by {
        if j < pre.len() {
            assert(post[j] == pre[j]);
        }
    };
}

/// Read a block of words from one register, filling `values` in order.
/// Transfers that already succeeded are not repeated when a WAIT forces a
/// retry of the remainder.
///
/// On success every returned word was answered by a read of the register
/// that was driven and acknowledged OK; everything recorded on the way is
/// such a read or an ABORT sticky-clear.
pub fn raw_read_block<P: RawProtocolIo + JTAGAccess>(probe: &mut P, log: &mut TransferLog, port: PortType, address: u8, values: &mut Vec<u32>) -> (r: Result<(), DebugProbeError>)
    requires
        old(values)@.len() <= MAX_BATCH,
    ensures
        final(values)@.len() == old(values)@.len(),
        spec_log_extends(old(log).spec_driven(), final(log).spec_driven()),
        spec_seg_block_reads(
            final(log).spec_driven(),
            old(log).spec_driven().len() as int,
            port,
            address,
        ),
        r matches Ok(()) ==> forall|i: int|
            0 <= i < final(values)@.len() ==> spec_log_has_value(
                final(log).spec_driven(),
                old(log).spec_driven().len() as int,
                port,
                address,
                TransferDirection::Read,
                #[trigger] final(values)@[i],
            ),
{
    let ghost l0 = log.spec_driven();
    let settings = probe.swd_settings();
    let retries = settings.num_retries_after_wait();
    let cap = settings.max_retry_idle_cycles_after_wait();
    let between = settings.num_idle_cycles_between_writes();
    let mut idle_cycles: usize = if between < 1 {
        1
    } else {
        between
    };

    let total = values.len();
    let mut successful_transfers: usize = 0;

    let mut attempt: usize = 0;
    while attempt < retries
        invariant
            values@.len() == old(values)@.len(),
            values@.len() == total,
            total <= MAX_BATCH,
            successful_transfers <= total,
            idle_cycles <= MAX_IDLE_SETTING,
            cap <= MAX_IDLE_SETTING,
            l0 == old(log).spec_driven(),
            spec_log_extends(l0, log.spec_driven()),
            spec_seg_block_reads(log.spec_driven(), l0.len() as int, port, address),
            forall|i: int|
                0 <= i < successful_transfers ==> spec_log_has_value(
                    log.spec_driven(),
                    l0.len() as int,
                    port,
                    address,
                    TransferDirection::Read,
                    #[trigger] values@[i],
                ),
        decreases retries - attempt,
    {
        if successful_transfers == total {
            return Ok(());
        }

        let count = total - successful_transfers;
        let mut transfers: Vec<DapTransfer> = Vec::new();
        let mut b: usize = 0;
        while b < count
            invariant
                transfers@.len() == b,
                b <= count,
                forall|k: int|
                    0 <= k < b ==> (#[trigger] transfers@[k]).direction == TransferDirection::Read
                        && transfers@[k].port == port && transfers@[k].address == address,
            decreases count - b,
        {
            transfers.push(DapTransfer::read(port, address));
            b = b + 1;
        }

        let ghost pre_b = log.spec_driven();
        let ghost built = transfers@;
        match perform_batch(probe, log, &mut transfers, idle_cycles) {
            Ok(()) => {}
            Err(e) => {
                return Err(e);
            }
        }
        proof {
            assert(log.spec_driven() == pre_b + transfers@);
            assert forall|i: int| 0 <= i < pre_b.len() implies log.spec_driven()[i] == pre_b[i] by {
                assert((pre_b + transfers@)[i] == pre_b[i]);
            };
            lemma_extends_trans(l0, pre_b, log.spec_driven());
            assert forall|j: int|
                pre_b.len() <= j < log.spec_driven().len() implies spec_matches_request(
                #[trigger] log.spec_driven()[j],
                port,
                address,
                TransferDirection::Read,
            ) || spec_is_sticky_clear(log.spec_driven()[j]) by {
                let k = j - pre_b.len();
                assert(log.spec_driven()[j] == transfers@[k]);
                assert(same_request(transfers@[k], built[k]));
            };
            lemma_seg_block_reads_concat(pre_b, log.spec_driven(), l0.len() as int, port, address);
            assert forall|i: int| 0 <= i < successful_transfers implies spec_log_has_value(
                log.spec_driven(),
                l0.len() as int,
                port,
                address,
                TransferDirection::Read,
                #[trigger] values@[i],
            ) by {
                lemma_has_value_extends(
                    pre_b,
                    log.spec_driven(),
                    l0.len() as int,
                    port,
                    address,
                    TransferDirection::Read,
                    values@[i],
                );
            };
        }

        let index_offset = successful_transfers;
        let mut wait_hit = false;
        let mut index: usize = 0;
        while index < transfers.len()
            invariant
                values@.len() == total,
                values@.len() == old(values)@.len(),
                transfers@.len() == count,
                index <= count,
                index_offset + count == total,
                successful_transfers == index_offset + index,
                idle_cycles <= MAX_IDLE_SETTING,
                cap <= MAX_IDLE_SETTING,
                l0 == old(log).spec_driven(),
                l0.len() <= pre_b.len(),
                log.spec_driven() == pre_b + transfers@,
                spec_log_extends(l0, log.spec_driven()),
                spec_seg_block_reads(log.spec_driven(), l0.len() as int, port, address),
                forall|k: int|
                    0 <= k < count ==> (#[trigger] transfers@[k]).status != TransferStatus::Pending
                        && transfers@[k].port == port && transfers@[k].address == address
                        && transfers@[k].direction == TransferDirection::Read,
                forall|i: int|
                    0 <= i < successful_transfers ==> spec_log_has_value(
                        log.spec_driven(),
                        l0.len() as int,
                        port,
                        address,
                        TransferDirection::Read,
                        #[trigger] values@[i],
                    ),
            decreases count - index,
        {
            let t = transfers[index];
            match t.status {
                TransferStatus::Succeeded => {
                    let ghost pre = values@;
                    values.set(index_offset + index, t.value);
                    successful_transfers = successful_transfers + 1;
                    proof {
                        let j = pre_b.len() as int + index as int;
                        assert(log.spec_driven()[j] == transfers@[index as int]);
                        assert(l0.len() <= j < log.spec_driven().len());
                        assert forall|i: int| 0 <= i < successful_transfers implies
                            spec_log_has_value(
                            log.spec_driven(),
                            l0.len() as int,
                            port,
                            address,
                            TransferDirection::Read,
                            #[trigger] values@[i],
                        ) by {
                            if i == index_offset + index {
                                assert(values@[i] == t.value);
                                assert(spec_matches_request(
                                    log.spec_driven()[j],
                                    port,
                                    address,
                                    TransferDirection::Read,
                                ));
                            } else {
                                assert(values@[i] == pre[i]);
                            }
                        };
                    }
                }
                TransferStatus::Failed(err) => {
                    if err == DapError::WaitResponse {
                        wait_hit = true;
                        break;
                    } else {
                        return Err(DebugProbeError::Dap(err));
                    }
                }
                TransferStatus::Pending => {
                    // The engine never leaves a driven transfer pending.
                    proof {
                        assert(false);
                    }
                }
            }
            index = index + 1;
        }

        if wait_hit {
            // Clear the sticky overrun flag that the WAIT set, and back
            // off before retrying the remainder.
            let ghost pre2 = log.spec_driven();
            match clear_sticky_flags(probe, log, ABORT_ORUNERRCLR, idle_cycles) {
                Ok(()) => {}
                Err(e) => {
                    return Err(e);
                }
            }
            proof {
                lemma_extends_trans(l0, pre2, log.spec_driven());
                assert(log.spec_driven().last() == log.spec_driven()[
                    log.spec_driven().len() - 1]);
                lemma_seg_block_reads_concat(
                    pre2,
                    log.spec_driven(),
                    l0.len() as int,
                    port,
                    address,
                );
                assert forall|i: int| 0 <= i < successful_transfers implies spec_log_has_value(
                    log.spec_driven(),
                    l0.len() as int,
                    port,
                    address,
                    TransferDirection::Read,
                    #[trigger] values@[i],
                ) by {
                    lemma_has_value_extends(
                        pre2,
                        log.spec_driven(),
                        l0.len() as int,
                        port,
                        address,
                        TransferDirection::Read,
                        values@[i],
                    );
                };
            }
            idle_cycles = backoff_idle_cycles(idle_cycles, cap);
        }

        attempt = attempt + 1;
    }

    if successful_transfers == total {
        Ok(())
    } else {
        Err(DebugProbeError::WaitExhausted)
    }
}

/// Write a block of words to one register, in order, retrying the not yet
/// acknowledged tail on WAIT.
///
/// On success every word of `values` was driven as a write of the register
/// and acknowledged OK; everything recorded on the way is such a write of
/// one of the words, or an ABORT sticky-clear.
pub fn raw_write_block<P: RawProtocolIo + JTAGAccess>(probe: &mut P, log: &mut TransferLog, port: PortType, address: u8, values: &Vec<u32>) -> (r: Result<(), DebugProbeError>)
    requires
        values@.len() <= MAX_BATCH,
    ensures
        spec_log_extends(old(log).spec_driven(), final(log).spec_driven()),
        spec_seg_block_writes(
            final(log).spec_driven(),
            old(log).spec_driven().len() as int,
            port,
            address,
            values@,
        ),
        r matches Ok(()) ==> forall|i: int|
            0 <= i < values@.len() ==> spec_log_has_value(
                final(log).spec_driven(),
                old(log).spec_driven().len() as int,
                port,
                address,
                TransferDirection::Write,
                #[trigger] values@[i],
            ),
{
    let ghost l0 = log.spec_driven();
    let settings = probe.swd_settings();
    let retries = settings.num_retries_after_wait();
    let cap = settings.max_retry_idle_cycles_after_wait();
    let between = settings.num_idle_cycles_between_writes();
    let mut idle_cycles: usize = if between < 1 {
        1
    } else {
        between
    };

    let total = values.len();
    let mut successful_transfers: usize = 0;

    let mut attempt: usize = 0;
    while attempt < retries
        invariant
            values@.len() == total,
            total <= MAX_BATCH,
            successful_transfers <= total,
            idle_cycles <= MAX_IDLE_SETTING,
            cap <= MAX_IDLE_SETTING,
            l0 == old(log).spec_driven(),
            spec_log_extends(l0, log.spec_driven()),
            spec_seg_block_writes(log.spec_driven(), l0.len() as int, port, address, values@),
            forall|i: int|
                0 <= i < successful_transfers ==> spec_log_has_value(
                    log.spec_driven(),
                    l0.len() as int,
                    port,
                    address,
                    TransferDirection::Write,
                    #[trigger] values@[i],
                ),
        decreases retries - attempt,
    {
        if successful_transfers == total {
            return Ok(());
        }

        let count = total - successful_transfers;
        let index_offset = successful_transfers;
        let mut transfers: Vec<DapTransfer> = Vec::new();
        let mut b: usize = 0;
        while b < count
            invariant
                transfers@.len() == b,
                b <= count,
                index_offset + count == total,
                values@.len() == total,
                forall|k: int|
                    0 <= k < b ==> (#[trigger] transfers@[k]).direction
                        == TransferDirection::Write && transfers@[k].port == port
                        && transfers@[k].address == address && transfers@[k].value == values@[
                        index_offset + k],
            decreases count - b,
        {
            transfers.push(DapTransfer::write(port, address, values[index_offset + b]));
            b = b + 1;
        }

        let ghost pre_b = log.spec_driven();
        let ghost built = transfers@;
        match perform_batch(probe, log, &mut transfers, idle_cycles) {
            Ok(()) => {}
            Err(e) => {
                return Err(e);
            }
        }
        proof {
            assert(log.spec_driven() == pre_b + transfers@);
            assert forall|i: int| 0 <= i < pre_b.len() implies log.spec_driven()[i] == pre_b[i] by {
                assert((pre_b + transfers@)[i] == pre_b[i]);
            };
            lemma_extends_trans(l0, pre_b, log.spec_driven());
            assert forall|j: int|
                pre_b.len() <= j < log.spec_driven().len() implies (spec_matches_request(
                #[trigger] log.spec_driven()[j],
                port,
                address,
                TransferDirection::Write,
            ) && spec_value_from(log.spec_driven()[j].value, values@)) || spec_is_abort_clear(
                log.spec_driven()[j],
            ) by {
                let k = j - pre_b.len();
                assert(log.spec_driven()[j] == transfers@[k]);
                assert(same_request(transfers@[k], built[k]));
                assert(transfers@[k].value == values@[index_offset + k]);
            };
            lemma_seg_block_writes_concat(
                pre_b,
                log.spec_driven(),
                l0.len() as int,
                port,
                address,
                values@,
            );
            assert forall|i: int| 0 <= i < successful_transfers implies spec_log_has_value(
                log.spec_driven(),
                l0.len() as int,
                port,
                address,
                TransferDirection::Write,
                #[trigger] values@[i],
            ) by {
                lemma_has_value_extends(
                    pre_b,
                    log.spec_driven(),
                    l0.len() as int,
                    port,
                    address,
                    TransferDirection::Write,
                    values@[i],
                );
            };
        }

        let mut wait_hit = false;
        let mut index: usize = 0;
        while index < transfers.len()
            invariant
                transfers@.len() == count,
                index <= count,
                index_offset + count == total,
                successful_transfers == index_offset + index,
                values@.len() == total,
                idle_cycles <= MAX_IDLE_SETTING,
                cap <= MAX_IDLE_SETTING,
                l0 == old(log).spec_driven(),
                l0.len() <= pre_b.len(),
                log.spec_driven() == pre_b + transfers@,
                spec_log_extends(l0, log.spec_driven()),
                spec_seg_block_writes(log.spec_driven(), l0.len() as int, port, address, values@),
                forall|k: int|
                    0 <= k < count ==> (#[trigger] transfers@[k]).status != TransferStatus::Pending
                        && transfers@[k].direction == TransferDirection::Write && transfers@[k].port
                        == port && transfers@[k].address == address && transfers@[k].value
                        == values@[index_offset + k],
                forall|i: int|
                    0 <= i < successful_transfers ==> spec_log_has_value(
                        log.spec_driven(),
                        l0.len() as int,
                        port,
                        address,
                        TransferDirection::Write,
                        #[trigger] values@[i],
                    ),
            decreases count - index,
        {
            let t = transfers[index];
            match t.status {
                TransferStatus::Succeeded => {
                    successful_transfers = successful_transfers + 1;
                    proof {
                        let j = pre_b.len() as int + index as int;
                        assert(log.spec_driven()[j] == transfers@[index as int]);
                        assert(l0.len() <= j < log.spec_driven().len());
                        assert forall|i: int| 0 <= i < successful_transfers implies
                            spec_log_has_value(
                            log.spec_driven(),
                            l0.len() as int,
                            port,
                            address,
                            TransferDirection::Write,
                            #[trigger] values@[i],
                        ) by {
                            if i == index_offset + index {
                                assert(log.spec_driven()[j].value == values@[i]);
                                assert(spec_matches_request(
                                    log.spec_driven()[j],
                                    port,
                                    address,
                                    TransferDirection::Write,
                                ));
                            }
                        };
                    }
                }
                TransferStatus::Failed(err) => {
                    if err == DapError::WaitResponse {
                        wait_hit = true;
                        break;
                    } else {
                        return Err(DebugProbeError::Dap(err));
                    }
                }
                TransferStatus::Pending => {
                    // The engine never leaves a driven transfer pending.
                    proof {
                        assert(false);
                    }
                }
            }
            index = index + 1;
        }

        if wait_hit {
            // Clear the sticky overrun flag that the WAIT set, and back
            // off before retrying the remainder.
            let ghost pre2 = log.spec_driven();
            match clear_sticky_flags(probe, log, ABORT_ORUNERRCLR, idle_cycles) {
                Ok(()) => {}
                Err(e) => {
                    return Err(e);
                }
            }
            proof {
                lemma_extends_trans(l0, pre2, log.spec_driven());
                assert(log.spec_driven().last() == log.spec_driven()[
                    log.spec_driven().len() - 1]);
                lemma_seg_block_writes_concat(
                    pre2,
                    log.spec_driven(),
                    l0.len() as int,
                    port,
                    address,
                    values@,
                );
                assert forall|i: int| 0 <= i < successful_transfers implies spec_log_has_value(
                    log.spec_driven(),
                    l0.len() as int,
                    port,
                    address,
                    TransferDirection::Write,
                    #[trigger] values@[i],
                ) by {
                    lemma_has_value_extends(
                        pre2,
                        log.spec_driven(),
                        l0.len() as int,
                        port,
                        address,
                        TransferDirection::Write,
                        values@[i],
                    );
                };
            }
            idle_cycles = backoff_idle_cycles(idle_cycles, cap);
        }

        attempt = attempt + 1;
    }

    if successful_transfers == total {
        Ok(())
    } else {
        Err(DebugProbeError::WaitExhausted)
    }
}

} // verus!
