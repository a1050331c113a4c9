//! The batch engine: rewriting a caller's logical batch of transfers into
//! the physical batch driven on the wire, per the posted-read rules of the
//! ADI standard, and mapping results back.
//!
//! - A read from the debug port needs nothing special.
//! - A read from an access port returns the previous access-port read's
//!   result; the last result is fetched by a read of DP RDBUFF.
//! - Writes are posted: their status arrives with the next transfer, and a
//!   pending write must be flushed by a read of RDBUFF before transfers
//!   that would be disturbed by it (a write of ABORT, a read of DPIDR or
//!   CTRL/STAT).

use vstd::prelude::*;

use crate::dap::{
    spec_is_abort, spec_is_ap_read, spec_is_rdbuff, spec_is_write, DapError, DapTransfer,
    PortType, TransferDirection, TransferStatus, CTRL_ADDRESS, DPIDR_ADDRESS, RDBUFF_ADDRESS,
};
use crate::probe::{
    sat_add, sat_add_spec, DebugProbeError, JTAGAccess, RawProtocolIo, WireProtocol,
};
use crate::swd::{
    parse_swd_response, spec_parse_swd_response, spec_transfer_dir, spec_transfer_io, IoSequence,
};

verus! {

/// The largest batch the engine accepts; far beyond any real batch, it
/// keeps the planner's index arithmetic within machine limits.
pub const MAX_BATCH: usize = 0x0100_0000;

/// The tuning values the planner needs.
pub struct PlanParams {
    /// Idle cycles set after every write of the batch.
    pub idle_cycles: usize,
    /// Idle cycles inserted before a read of RDBUFF that checks a write.
    pub verify_idle: usize,
    /// Idle cycles appended to the whole batch.
    pub after_idle: usize,
    /// Whether the probe speaks SWD; over JTAG, responses arrive in a fixed
    /// pattern handled by the JTAG driver itself.
    pub swd: bool,
}

/// The planner's state after some prefix of the logical batch: the
/// physical transfers built so far, where each logical transfer's result
/// will sit, and what the last transfer left pending.
pub struct PlanState {
    /// The physical batch built so far.
    pub phys: Seq<DapTransfer>,
    /// For each logical transfer, the physical index its result is read
    /// from.
    pub indices: Seq<usize>,
    /// The last transfer was an access-port read whose result is pending.
    pub need_ap_read: bool,
    /// The last transfer was a posted write whose completion is pending.
    pub posted_write: bool,
}

/// A transfer that a pending posted write must be flushed before: a write
/// of ABORT, a read of DPIDR, or a read of CTRL/STAT.
pub open spec fn spec_is_verify_sensitive(t: DapTransfer) -> bool {
    ||| spec_is_abort(t)
    ||| (t.port == PortType::DebugPort && t.address == DPIDR_ADDRESS && t.direction
        == TransferDirection::Read)
    ||| (t.port == PortType::DebugPort && t.address == CTRL_ADDRESS && t.direction
        == TransferDirection::Read)
}

/// The synthetic transfer the engine inserts: a read of DP RDBUFF.
pub open spec fn spec_rdbuff_read() -> DapTransfer {
    DapTransfer {
        port: PortType::DebugPort,
        direction: TransferDirection::Read,
        address: RDBUFF_ADDRESS,
        value: 0,
        status: TransferStatus::Pending,
        idle_cycles_after: 0,
    }
}

/// `t` with its trailing idle cycles replaced.
pub open spec fn spec_with_idle(t: DapTransfer, idle: usize) -> DapTransfer {
    DapTransfer { idle_cycles_after: idle, ..t }
}

/// Add `k` idle cycles to the last transfer of a physical batch.
pub open spec fn spec_bump_last_idle(s: Seq<DapTransfer>, k: usize) -> Seq<DapTransfer> {
    if s.len() == 0 {
        s
    } else {
        s.update(
            s.len() - 1,
            spec_with_idle(s.last(), sat_add_spec(s.last().idle_cycles_after, k)),
        )
    }
}

/// One planner step: the insertions demanded by the pending state, then
/// the logical transfer itself, then the index its result is read from.
pub open spec fn spec_plan_step(acc: PlanState, t: DapTransfer, p: PlanParams) -> PlanState {
    let phys1 = if !spec_is_ap_read(t) && acc.need_ap_read {
        acc.phys.push(spec_rdbuff_read())
    } else {
        acc.phys
    };
    let phys2 = if acc.posted_write && spec_is_verify_sensitive(t) {
        spec_bump_last_idle(phys1, p.verify_idle).push(spec_rdbuff_read())
    } else {
        phys1
    };
    let t1 = if spec_is_write(t) {
        spec_with_idle(t, p.idle_cycles)
    } else {
        t
    };
    let phys3 = phys2.push(t1);
    let t_index = (phys3.len() - 1) as usize;
    let need2 = spec_is_ap_read(t);
    let posted2 = spec_is_write(t) && !spec_is_abort(t);
    let result_index = if p.swd && (need2 || posted2) {
        sat_add_spec(t_index, 1)
    } else {
        t_index
    };
    PlanState {
        phys: phys3,
        indices: acc.indices.push(result_index),
        need_ap_read: need2,
        posted_write: posted2,
    }
}

/// The planner's state before any transfer was seen.
pub open spec fn spec_plan_init() -> PlanState {
    PlanState {
        phys: Seq::empty(),
        indices: Seq::empty(),
        need_ap_read: false,
        posted_write: false,
    }
}

/// The planner's state after the whole logical batch `ts`.
pub open spec fn spec_plan_fold(ts: Seq<DapTransfer>, p: PlanParams) -> PlanState
    decreases ts.len(),
{
    if ts.len() == 0 {
        spec_plan_init()
    } else {
        spec_plan_step(spec_plan_fold(ts.drop_last(), p), ts.last(), p)
    }
}

/// Close the batch: collect a still-pending access-port read or posted
/// write with a final RDBUFF read, and append the batch's tail idle cycles.
pub open spec fn spec_plan_finish(acc: PlanState, p: PlanParams) -> PlanState {
    let phys1 = if acc.need_ap_read || acc.posted_write {
        (if acc.posted_write {
            spec_bump_last_idle(acc.phys, p.verify_idle)
        } else {
            acc.phys
        }).push(spec_rdbuff_read())
    } else {
        acc.phys
    };
    let phys2 = if p.after_idle > 0 {
        spec_bump_last_idle(phys1, p.after_idle)
    } else {
        phys1
    };
    PlanState { phys: phys2, ..acc }
}

/// The full plan for a logical batch: fold, then finish.
pub open spec fn spec_plan(ts: Seq<DapTransfer>, p: PlanParams) -> PlanState {
    spec_plan_finish(spec_plan_fold(ts, p), p)
}

/// Two transfers ask for the same thing: same port, address, direction and
/// (for writes) value.
pub open spec fn same_request(a: DapTransfer, b: DapTransfer) -> bool {
    &&& a.port == b.port
    &&& a.address == b.address
    &&& a.direction == b.direction
    &&& a.idle_cycles_after == b.idle_cycles_after
    &&& (b.direction == TransferDirection::Write ==> a.value == b.value)
}

/// Whether a pending posted write must be flushed before this transfer.
fn is_verify_sensitive(t: &DapTransfer) -> (r: bool)
    ensures
        r == spec_is_verify_sensitive(*t),
{
    let abort_write = t.port == PortType::DebugPort && t.address == crate::dap::ABORT_ADDRESS
        && t.direction == TransferDirection::Write;
    let dpidr_read = t.port == PortType::DebugPort && t.address == DPIDR_ADDRESS && t.direction
        == TransferDirection::Read;
    let ctrl_stat_read = t.port == PortType::DebugPort && t.address == CTRL_ADDRESS && t.direction
        == TransferDirection::Read;
    abort_write || dpidr_read || ctrl_stat_read
}

/// Add `k` idle cycles to the last transfer of a batch.
fn bump_last_idle(v: &mut Vec<DapTransfer>, k: usize)
    ensures
        final(v)@ == spec_bump_last_idle(old(v)@, k),
{
    if v.len() > 0 {
        let i = v.len() - 1;
        let mut t = v[i];
        t.idle_cycles_after = sat_add(t.idle_cycles_after, k);
        v.set(i, t);
    }
}

/// Rewrite a logical batch into the physical batch to drive, and compute
/// for each logical transfer the physical index its result is read from.
pub fn plan_transfers(transfers: &Vec<DapTransfer>, p_idle_cycles: usize, p_verify_idle: usize, p_after_idle: usize, p_swd: bool) -> (r: (
    Vec<DapTransfer>,
    Vec<usize>,
))
    ensures
        ({
            let p = PlanParams {
                idle_cycles: p_idle_cycles,
                verify_idle: p_verify_idle,
                after_idle: p_after_idle,
                swd: p_swd,
            };
            &&& r.0@ == spec_plan(transfers@, p).phys
            &&& r.1@ == spec_plan(transfers@, p).indices
        }),
{
    let ghost p = PlanParams {
        idle_cycles: p_idle_cycles,
        verify_idle: p_verify_idle,
        after_idle: p_after_idle,
        swd: p_swd,
    };
    let ghost ts = transfers@;

    let mut phys: Vec<DapTransfer> = Vec::new();
    let mut indices: Vec<usize> = Vec::new();
    let mut need_ap_read = false;
    let mut posted_write = false;

    let mut i: usize = 0;
    while i < transfers.len()
        invariant
            i <= ts.len(),
            ts == transfers@,
            phys@ == spec_plan_fold(ts.subrange(0, i as int), p).phys,
            indices@ == spec_plan_fold(ts.subrange(0, i as int), p).indices,
            need_ap_read == spec_plan_fold(ts.subrange(0, i as int), p).need_ap_read,
            posted_write == spec_plan_fold(ts.subrange(0, i as int), p).posted_write,
            p == (PlanParams {
                idle_cycles: p_idle_cycles,
                verify_idle: p_verify_idle,
                after_idle: p_after_idle,
                swd: p_swd,
            }),
        decreases ts.len() - i,
    {
        let ghost pre = spec_plan_fold(ts.subrange(0, i as int), p);
        let t = transfers[i];

        // Collect a pending access-port read before anything that is not
        // itself an access-port read.
        if !t.is_ap_read() && need_ap_read {
            phys.push(DapTransfer::read(PortType::DebugPort, RDBUFF_ADDRESS));
        }

        // Flush a pending posted write before a transfer it would disturb.
        if posted_write && is_verify_sensitive(&t) {
            bump_last_idle(&mut phys, p_verify_idle);
            phys.push(DapTransfer::read(PortType::DebugPort, RDBUFF_ADDRESS));
        }

        let mut t1 = t;
        if t.is_write() {
            t1.idle_cycles_after = p_idle_cycles;
        }
        phys.push(t1);
        let t_index = phys.len() - 1;

        need_ap_read = t.is_ap_read();
        let is_w = t.is_write();
        let is_a = t.is_abort();
        posted_write = is_w && !is_a;

        // Over SWD the response to a posted access arrives one transfer
        // later; over JTAG the driver realigns responses itself.
        let result_index = if p_swd && (need_ap_read || posted_write) {
            sat_add(t_index, 1)
        } else {
            t_index
        };
        indices.push(result_index);

        i = i + 1;
        proof {
            let sub = ts.subrange(0, i as int);
            assert(sub.drop_last() =~= ts.subrange(0, i - 1));
            assert(sub.last() == ts[i - 1]);
            assert(spec_plan_fold(sub, p) == spec_plan_step(pre, ts[i - 1], p));
        }
    }
    proof {
        assert(ts.subrange(0, ts.len() as int) =~= ts);
    }

    // Close the batch: a final RDBUFF read collects whatever is pending,
    // and tail idle cycles make sure the last transfer is performed.
    if need_ap_read || posted_write {
        if posted_write {
            bump_last_idle(&mut phys, p_verify_idle);
        }
        phys.push(DapTransfer::read(PortType::DebugPort, RDBUFF_ADDRESS));
    }
    if p_after_idle > 0 {
        bump_last_idle(&mut phys, p_after_idle);
    }

    (phys, indices)
}

/// The data bits of a whole physical batch: each transfer's bits with its
/// trailing idle cycles, concatenated in order.
pub open spec fn spec_batch_io(ts: Seq<DapTransfer>) -> Seq<bool>
    decreases ts.len(),
{
    if ts.len() == 0 {
        Seq::empty()
    } else {
        spec_batch_io(ts.drop_last()) + spec_transfer_io(ts.last())
    }
}

/// The direction bits of a whole physical batch, concatenated in order.
pub open spec fn spec_batch_dir(ts: Seq<DapTransfer>) -> Seq<bool>
    decreases ts.len(),
{
    if ts.len() == 0 {
        Seq::empty()
    } else {
        spec_batch_dir(ts.drop_last()) + spec_transfer_dir(ts.last())
    }
}

/// Assemble the raw bit streams of a whole batch: exactly the transfers'
/// bit sequences, in order.
pub fn batch_io_sequence(transfers: &Vec<DapTransfer>) -> (r: IoSequence)
    ensures
        r.io_spec() == spec_batch_io(transfers@),
        r.dir_spec() == spec_batch_dir(transfers@),
{
    let mut io_sequence = IoSequence::new();
    let mut i: usize = 0;
    while i < transfers.len()
        invariant
            i <= transfers@.len(),
            io_sequence.io_spec() == spec_batch_io(transfers@.subrange(0, i as int)),
            io_sequence.dir_spec() == spec_batch_dir(transfers@.subrange(0, i as int)),
        decreases transfers@.len() - i,
    {
        let seq = transfers[i].io_sequence();
        io_sequence.extend(&seq);
        i = i + 1;
        proof {
            let sub = transfers@.subrange(0, i as int);
            assert(sub.drop_last() =~= transfers@.subrange(0, i - 1));
            assert(sub.last() == transfers@[i - 1]);
        }
    }
    proof {
        assert(transfers@.subrange(0, transfers@.len() as int) =~= transfers@);
    }
    io_sequence
}

/// Where transfer `k`'s response starts within the sampled bit stream:
/// every transfer before it answers with 48 bits plus its trailing idle
/// cycles.
pub open spec fn spec_response_offset(ts: Seq<DapTransfer>, k: int) -> usize
    decreases k,
{
    if k <= 0 {
        0
    } else {
        sat_add_spec(
            spec_response_offset(ts, k - 1),
            sat_add_spec(48, ts[k - 1].idle_cycles_after),
        )
    }
}

/// A transfer filled from its parse result: OK marks it succeeded and, for
/// reads, carries the value in; an error marks it failed.
pub open spec fn spec_apply_response(t: DapTransfer, r: Result<u32, DapError>) -> DapTransfer {
    match r {
        Ok(v) => DapTransfer {
            status: TransferStatus::Succeeded,
            value: if t.direction == TransferDirection::Read {
                v
            } else {
                t.value
            },
            ..t
        },
        Err(e) => DapTransfer { status: TransferStatus::Failed(e), ..t },
    }
}

/// A whole batch filled from one sampled bit stream: each transfer holds
/// the parse result of the response at its offset.
pub open spec fn spec_filled_batch(ts: Seq<DapTransfer>, resp: Seq<bool>) -> Seq<DapTransfer> {
    Seq::new(
        ts.len(),
        |k: int|
            spec_apply_response(
                ts[k],
                spec_parse_swd_response(resp, spec_response_offset(ts, k) as int, ts[k].direction),
            ),
    )
}

/// Drive a physical batch over SWD in one probe I/O call and parse each
/// transfer's response, filling its status and, for reads, its value.
///
/// The bits handed to the probe are exactly the batch's bit sequences,
/// and on success there is a sampled bit stream from which every transfer
/// was filled by parsing at its offset.
pub fn perform_swd_transfers<P: RawProtocolIo>(probe: &mut P, transfers: &mut Vec<DapTransfer>) -> (r: Result<(), DebugProbeError>)
    ensures
        final(transfers)@.len() == old(transfers)@.len(),
        r matches Ok(()) ==> exists|resp: Seq<bool>|
            final(transfers)@ == spec_filled_batch(old(transfers)@, resp),
        r matches Ok(()) ==> forall|k: int|
            0 <= k < old(transfers)@.len() ==> same_request(
                #[trigger] final(transfers)@[k],
                old(transfers)@[k],
            ) && final(transfers)@[k].status != TransferStatus::Pending,
        r matches Err(e) ==> final(transfers)@ == old(transfers)@,
{
    let ghost ts0 = transfers@;

    let io_sequence = batch_io_sequence(transfers);

    let result = match probe.swd_io(io_sequence.direction_bits(), io_sequence.io_bits()) {
        Ok(v) => v,
        Err(e) => {
            return Err(e);
        }
    };

    let mut read_index: usize = 0;
    let mut j: usize = 0;
    while j < transfers.len()
        invariant
            j <= ts0.len(),
            transfers@.len() == ts0.len(),
            read_index == spec_response_offset(ts0, j as int),
            forall|k: int|
                0 <= k < j ==> #[trigger] transfers@[k] == spec_apply_response(
                    ts0[k],
                    spec_parse_swd_response(
                        result@,
                        spec_response_offset(ts0, k) as int,
                        ts0[k].direction,
                    ),
                ),
            forall|k: int| j <= k < ts0.len() ==> transfers@[k] == ts0[k],
        decreases ts0.len() - j,
    {
        let t = transfers[j];
        let response = parse_swd_response(&result, read_index, t.direction);
        probe.probe_statistics().report_swd_response(&response);

        let mut t2 = t;
        match response {
            Ok(val) => {
                if t.direction == TransferDirection::Read {
                    t2.value = val;
                }
                t2.status = TransferStatus::Succeeded;
            }
            Err(e) => {
                t2.status = TransferStatus::Failed(e);
            }
        }
        transfers.set(j, t2);

        read_index = sat_add(read_index, sat_add(48, t.idle_cycles_after));
        j = j + 1;
    }

    proof {
        assert(transfers@ =~= spec_filled_batch(ts0, result@));
    }
    Ok(())
}

/// A logical transfer filled from the physical transfer its result was
/// planned to arrive in: the status is taken over, and for reads the
/// value too.
pub open spec fn spec_take_result(t: DapTransfer, src: DapTransfer) -> DapTransfer {
    DapTransfer {
        status: src.status,
        value: if t.direction == TransferDirection::Read {
            src.value
        } else {
            t.value
        },
        ..t
    }
}

/// Drive a logical batch: rewrite it into the physical batch, run that
/// over the active protocol, and fill each logical transfer's status and
/// value from the physical transfer its result arrived in.
///
/// An empty batch performs no I/O and succeeds.  On success there is a
/// physical outcome — one transfer per planned physical transfer, same
/// request, none pending — such that every logical transfer's status and
/// value were taken from the outcome at its planned result index.
pub fn perform_transfers<P: RawProtocolIo + JTAGAccess>(probe: &mut P, transfers: &mut Vec<DapTransfer>, idle_cycles: usize) -> (r: Result<(), DebugProbeError>)
    requires
        old(transfers)@.len() <= MAX_BATCH,
    ensures
        final(transfers)@.len() == old(transfers)@.len(),
        old(transfers)@.len() == 0 ==> r == Ok::<(), DebugProbeError>(()) && final(transfers)@
            == old(transfers)@,
        forall|k: int|
            0 <= k < old(transfers)@.len() ==> same_request(
                #[trigger] final(transfers)@[k],
                old(transfers)@[k],
            ) || final(transfers)@[k] == old(transfers)@[k],
        r matches Ok(()) ==> forall|k: int|
            0 <= k < old(transfers)@.len() ==> same_request(
                #[trigger] final(transfers)@[k],
                old(transfers)@[k],
            ) && final(transfers)@[k].status != TransferStatus::Pending,
        r matches Ok(()) && old(transfers)@.len() > 0 ==> exists|p: PlanParams, outcome: Seq<
            DapTransfer,
        >|
            #![trigger spec_plan(old(transfers)@, p).phys, outcome.len()]
            {
                let plan = spec_plan(old(transfers)@, p);
                &&& p.idle_cycles == idle_cycles
                &&& outcome.len() == plan.phys.len()
                &&& (forall|j: int|
                    0 <= j < outcome.len() ==> same_request(#[trigger] outcome[j], plan.phys[j])
                        && outcome[j].status != TransferStatus::Pending)
                &&& (forall|k: int|
                    0 <= k < old(transfers)@.len() ==> #[trigger] final(transfers)@[k]
                        == spec_take_result(
                        old(transfers)@[k],
                        outcome[plan.indices[k] as int],
                    ))
            },
{
    if transfers.len() == 0 {
        return Ok(());
    }

    let settings = probe.swd_settings();
    let verify_idle = settings.idle_cycles_before_write_verify();
    let after_idle = settings.idle_cycles_after_transfer();
    let swd = probe.active_protocol() == WireProtocol::Swd;
    let ghost p = PlanParams {
        idle_cycles,
        verify_idle,
        after_idle,
        swd,
    };

    let (mut final_transfers, result_indices) = plan_transfers(
        transfers,
        idle_cycles,
        verify_idle,
        after_idle,
        swd,
    );

    proof {
        lemma_plan_shape(transfers@, p);
    }

    // Record the synthetic transfers and the batch size.
    let mut e: usize = transfers.len();
    while e < final_transfers.len()
        invariant
            transfers@.len() <= MAX_BATCH,
        decreases final_transfers@.len() - e,
    {
        probe.probe_statistics().record_extra_transfer();
        e = e + 1;
    }
    probe.probe_statistics().record_transfers(final_transfers.len());

    if swd {
        match perform_swd_transfers(probe, &mut final_transfers) {
            Ok(()) => {}
            Err(e2) => {
                return Err(e2);
            }
        }
    } else {
        match crate::jtag::perform_jtag_transfers(probe, &mut final_transfers) {
            Ok(()) => {}
            Err(e2) => {
                return Err(e2);
            }
        }
    }

    // Map each physical result back to its logical transfer.
    let ghost ts0 = transfers@;
    let ghost outcome = final_transfers@;
    let mut i: usize = 0;
    while i < transfers.len()
        invariant
            i <= ts0.len(),
            transfers@.len() == ts0.len(),
            result_indices@ == spec_plan(ts0, p).indices,
            result_indices@.len() == ts0.len(),
            final_transfers@ == outcome,
            outcome.len() == spec_plan(ts0, p).phys.len(),
            ts0.len() <= MAX_BATCH,
            forall|k: int|
                0 <= k < outcome.len() ==> same_request(
                    #[trigger] outcome[k],
                    spec_plan(ts0, p).phys[k],
                ) && outcome[k].status != TransferStatus::Pending,
            forall|k: int|
                0 <= k < i ==> #[trigger] transfers@[k] == spec_take_result(
                    ts0[k],
                    outcome[spec_plan(ts0, p).indices[k] as int],
                ),
            forall|k: int| i <= k < ts0.len() ==> transfers@[k] == ts0[k],
        decreases ts0.len() - i,
    {
        proof {
            lemma_indices_valid(ts0, p, i as int);
        }
        let idx = result_indices[i];
        let src = final_transfers[idx];
        let mut t = transfers[i];
        t.status = src.status;
        if t.direction == TransferDirection::Read {
            t.value = src.value;
        }
        transfers.set(i, t);
        i = i + 1;
    }

    proof {
        assert forall|k: int| 0 <= k < ts0.len() implies same_request(
            #[trigger] transfers@[k],
            ts0[k],
        ) && transfers@[k].status != TransferStatus::Pending by {
            lemma_indices_valid(ts0, p, k);
        };
    }
    Ok(())
}

/// Whether the last transfer of a logical prefix leaves an access-port
/// read pending.
pub open spec fn spec_pending_ap_read(ts: Seq<DapTransfer>) -> bool {
    ts.len() > 0 && spec_is_ap_read(ts.last())
}

/// Whether the last transfer of a logical prefix leaves a posted write
/// pending.
pub open spec fn spec_pending_write(ts: Seq<DapTransfer>) -> bool {
    ts.len() > 0 && spec_is_write(ts.last()) && !spec_is_abort(ts.last())
}

/// How many synthetic RDBUFF reads one planner step inserts before the
/// transfer `t`, given what the previous transfer left pending.
pub open spec fn spec_step_extra(need: bool, posted: bool, t: DapTransfer) -> int {
    (if !spec_is_ap_read(t) && need {
        1int
    } else {
        0int
    }) + (if posted && spec_is_verify_sensitive(t) {
        1int
    } else {
        0int
    })
}

/// The number of synthetic RDBUFF reads inserted within the batch (not
/// counting the final one).
pub open spec fn spec_extra_count(ts: Seq<DapTransfer>) -> int
    decreases ts.len(),
{
    if ts.len() == 0 {
        0
    } else {
        spec_extra_count(ts.drop_last()) + spec_step_extra(
            spec_pending_ap_read(ts.drop_last()),
            spec_pending_write(ts.drop_last()),
            ts.last(),
        )
    }
}

/// Whether closing the batch appends one final RDBUFF read: exactly when
/// the last transfer leaves an access-port read or a posted write pending.
pub open spec fn spec_end_extra(ts: Seq<DapTransfer>) -> int {
    if spec_pending_ap_read(ts) || spec_pending_write(ts) {
        1int
    } else {
        0int
    }
}

/// The planner's pending flags equal what the last logical transfer left
/// pending, and the folded batch grows by exactly the inserted reads.
proof fn lemma_fold_counts(ts: Seq<DapTransfer>, p: PlanParams)
    ensures
        spec_plan_fold(ts, p).need_ap_read == spec_pending_ap_read(ts),
        spec_plan_fold(ts, p).posted_write == spec_pending_write(ts),
        spec_plan_fold(ts, p).phys.len() == ts.len() + spec_extra_count(ts),
    decreases ts.len(),
{
    if ts.len() > 0 {
        lemma_fold_counts(ts.drop_last(), p);
    }
}

/// Law: the physical batch holds exactly the logical transfers plus the
/// synthetic RDBUFF reads the posted-read rules demand: one for each
/// transfer that follows a pending access-port read without being one, one
/// for each verify-sensitive transfer that follows a posted write, and one
/// final read when the batch ends with an access-port read or posted write
/// still pending.
pub proof fn lemma_synthetic_transfer_count(ts: Seq<DapTransfer>, p: PlanParams)
    ensures
        spec_plan(ts, p).phys.len() == ts.len() + spec_extra_count(ts) + spec_end_extra(ts),
{
    lemma_fold_counts(ts, p);
}

/// The physical index at which logical transfer `i`'s own (rewritten) copy
/// stands.
pub open spec fn spec_image(ts: Seq<DapTransfer>, p: PlanParams, i: int) -> int {
    spec_plan_fold(ts.take(i + 1), p).phys.len() - 1
}

/// Elements strictly before the last one of a folded prefix are never
/// touched again: later steps only append transfers and raise the idle
/// budget of the then-last element.
proof fn lemma_fold_prefix_stable(ts: Seq<DapTransfer>, p: PlanParams, m: int, pos: int)
    requires
        0 <= m <= ts.len(),
        0 <= pos < spec_plan_fold(ts.take(m), p).phys.len() - 1,
    ensures
        spec_plan_fold(ts, p).phys.len() >= spec_plan_fold(ts.take(m), p).phys.len(),
        pos < spec_plan_fold(ts, p).phys.len() - 1,
        spec_plan_fold(ts, p).phys[pos] == spec_plan_fold(ts.take(m), p).phys[pos],
    decreases ts.len() - m,
{
    if m == ts.len() {
        assert(ts.take(m) =~= ts);
    } else {
        let pre = spec_plan_fold(ts.take(m), p);
        let sub = ts.take(m + 1);
        assert(sub.drop_last() =~= ts.take(m));
        assert(spec_plan_fold(sub, p) == spec_plan_step(pre, ts[m], p));
        lemma_fold_prefix_stable(ts, p, m + 1, pos);
    }
}

/// Port, address and direction of two transfers agree.
pub open spec fn same_target(a: DapTransfer, b: DapTransfer) -> bool {
    &&& a.port == b.port
    &&& a.address == b.address
    &&& a.direction == b.direction
}

/// The planner only appends result indices, so a prefix of the fold
/// decides its own indices for good.
proof fn lemma_fold_indices_prefix(ts: Seq<DapTransfer>, p: PlanParams, m: int)
    requires
        0 <= m <= ts.len(),
    ensures
        forall|k: int|
            0 <= k < m ==> #[trigger] spec_plan_fold(ts, p).indices[k] == spec_plan_fold(
                ts.take(m),
                p,
            ).indices[k],
    decreases ts.len() - m,
{
    lemma_plan_shape(ts.take(m), p);
    if m == ts.len() {
        assert(ts.take(m) =~= ts);
    } else {
        let sub = ts.take(m + 1);
        assert(sub.drop_last() =~= ts.take(m));
        assert(spec_plan_fold(sub, p) == spec_plan_step(
            spec_plan_fold(ts.take(m), p),
            ts[m],
            p,
        ));
        lemma_plan_shape(sub, p);
        lemma_fold_indices_prefix(ts, p, m + 1);
    }
}

/// Elements of a folded prefix keep their port, address and direction:
/// later steps only append transfers or raise idle budgets of the last
/// element.
proof fn lemma_fold_target_stable(ts: Seq<DapTransfer>, p: PlanParams, m: int, pos: int)
    requires
        0 <= m <= ts.len(),
        0 <= pos < spec_plan_fold(ts.take(m), p).phys.len(),
    ensures
        spec_plan_fold(ts, p).phys.len() >= spec_plan_fold(ts.take(m), p).phys.len(),
        pos < spec_plan_fold(ts, p).phys.len(),
        same_target(spec_plan_fold(ts, p).phys[pos], spec_plan_fold(ts.take(m), p).phys[pos]),
    decreases ts.len() - m,
{
    if m == ts.len() {
        assert(ts.take(m) =~= ts);
    } else {
        let pre = spec_plan_fold(ts.take(m), p);
        let sub = ts.take(m + 1);
        assert(sub.drop_last() =~= ts.take(m));
        assert(spec_plan_fold(sub, p) == spec_plan_step(pre, ts[m], p));
        assert(same_target(spec_plan_fold(sub, p).phys[pos], pre.phys[pos]));
        lemma_fold_target_stable(ts, p, m + 1, pos);
    }
}

/// Law: over SWD, each access-port read takes its result from the
/// physical transfer directly after its own image — which is the next
/// logical access-port read where one follows, and an inserted or
/// terminal RDBUFF read everywhere else.
pub proof fn lemma_posted_read_collected(ts: Seq<DapTransfer>, p: PlanParams, i: int)
    requires
        p.swd,
        ts.len() <= MAX_BATCH,
        0 <= i < ts.len(),
        spec_is_ap_read(ts[i]),
    ensures
        spec_plan(ts, p).indices.len() == ts.len(),
        spec_plan(ts, p).indices[i] as int == spec_image(ts, p, i) + 1,
        spec_image(ts, p, i) + 1 < spec_plan(ts, p).phys.len(),
        spec_is_ap_read(spec_plan(ts, p).phys[spec_image(ts, p, i) + 1]) || spec_is_rdbuff(
            spec_plan(ts, p).phys[spec_image(ts, p, i) + 1],
        ),
{
    lemma_plan_shape(ts, p);
    lemma_fold_indices_valid(ts, p);
    lemma_plan_shape(ts.take(i), p);
    lemma_plan_shape(ts.take(i + 1), p);
    lemma_fold_indices_valid(ts.take(i + 1), p);

    // The step that placed transfer `i`: it records the index one past
    // its own image, because its result is posted.
    let acc0 = spec_plan_fold(ts.take(i), p);
    let a = spec_plan_fold(ts.take(i + 1), p);
    assert(ts.take(i + 1).drop_last() =~= ts.take(i));
    assert(ts.take(i + 1).last() == ts[i]);
    assert(a == spec_plan_step(acc0, ts[i], p));
    let image = a.phys.len() - 1;
    assert(a.indices[i] as int == image + 1);
    lemma_fold_indices_prefix(ts, p, i + 1);
    assert(spec_plan_fold(ts, p).indices[i] as int == image + 1);

    let full = spec_plan_fold(ts, p);
    if i == ts.len() - 1 {
        // The batch ends with the access-port read pending: the close
        // appends the RDBUFF read that collects it.
        assert(ts.take(i + 1) =~= ts);
        assert(full.need_ap_read);
        let phys1 = full.phys.push(spec_rdbuff_read());
        assert(spec_plan(ts, p).phys.len() == phys1.len());
        assert(same_target(spec_plan(ts, p).phys[image + 1], spec_rdbuff_read()));
    } else {
        // The next step either places another access-port read directly
        // after the image, or inserts the RDBUFF read there.
        let b = spec_plan_fold(ts.take(i + 2), p);
        assert(ts.take(i + 2).drop_last() =~= ts.take(i + 1));
        assert(ts.take(i + 2).last() == ts[i + 1]);
        assert(b == spec_plan_step(a, ts[i + 1], p));
        if spec_is_ap_read(ts[i + 1]) {
            assert(same_target(b.phys[image + 1], ts[i + 1]));
        } else {
            assert(same_target(b.phys[image + 1], spec_rdbuff_read()));
        }
        lemma_fold_target_stable(ts, p, i + 2, image + 1);

        // Closing the batch only bumps idle budgets or appends; the
        // element after the image keeps its port, address and direction.
        if full.need_ap_read || full.posted_write {
            let phys1 = (if full.posted_write {
                spec_bump_last_idle(full.phys, p.verify_idle)
            } else {
                full.phys
            }).push(spec_rdbuff_read());
            assert(same_target(phys1[image + 1], full.phys[image + 1]));
            assert(same_target(spec_plan(ts, p).phys[image + 1], phys1[image + 1]));
        } else {
            assert(same_target(spec_plan(ts, p).phys[image + 1], full.phys[image + 1]));
        }
    }
}

/// Law: for every posted write immediately followed in the logical batch
/// by a verify-sensitive transfer (a write of ABORT, a read of DPIDR or of
/// CTRL/STAT), the physical batch contains a read of RDBUFF directly
/// between the two transfers' images, and the write's image carries at
/// least the configured pre-verify idle cycles.
pub proof fn lemma_write_flushed_before_sensitive(ts: Seq<DapTransfer>, p: PlanParams, i: int)
    requires
        0 <= i,
        i + 1 < ts.len(),
        spec_is_write(ts[i]),
        !spec_is_abort(ts[i]),
        spec_is_verify_sensitive(ts[i + 1]),
    ensures
        spec_image(ts, p, i + 1) == spec_image(ts, p, i) + 2,
        spec_is_rdbuff(spec_plan(ts, p).phys[spec_image(ts, p, i) + 1]),
        spec_plan(ts, p).phys[spec_image(ts, p, i)].idle_cycles_after >= p.verify_idle,
{
    let a = spec_plan_fold(ts.take(i + 1), p);
    let b = spec_plan_fold(ts.take(i + 2), p);

    // The fold state after the write: its copy stands last, and it is
    // recorded as a pending posted write.
    assert(ts.take(i + 1).drop_last() =~= ts.take(i));
    assert(ts.take(i + 1).last() == ts[i]);
    assert(a == spec_plan_step(spec_plan_fold(ts.take(i), p), ts[i], p));
    let wi = a.phys.len() - 1;

    // The step for the sensitive transfer bumps the write's idle cycles,
    // inserts the RDBUFF read, and then places the sensitive transfer.
    assert(ts.take(i + 2).drop_last() =~= ts.take(i + 1));
    assert(ts.take(i + 2).last() == ts[i + 1]);
    assert(b == spec_plan_step(a, ts[i + 1], p));
    assert(b.phys.len() == wi + 3);
    assert(b.phys[wi].idle_cycles_after >= p.verify_idle);
    assert(spec_is_rdbuff(b.phys[wi + 1]));

    // Both positions sit strictly before the last element from here on,
    // so no later step or the batch close touches them.
    lemma_fold_prefix_stable(ts, p, i + 2, wi);
    lemma_fold_prefix_stable(ts, p, i + 2, wi + 1);
    let full = spec_plan_fold(ts, p);
    assert(full.phys[wi] == b.phys[wi]);
    assert(full.phys[wi + 1] == b.phys[wi + 1]);
}

/// The planner only ever appends transfers or raises idle budgets, so the
/// physical batch of a nonempty logical batch is nonempty, and it holds at
/// least as many transfers.
pub proof fn lemma_plan_shape(ts: Seq<DapTransfer>, p: PlanParams)
    ensures
        spec_plan_fold(ts, p).phys.len() >= ts.len(),
        spec_plan_fold(ts, p).indices.len() == ts.len(),
        spec_plan(ts, p).phys.len() >= spec_plan_fold(ts, p).phys.len(),
        spec_plan(ts, p).indices == spec_plan_fold(ts, p).indices,
    decreases ts.len(),
{
    if ts.len() > 0 {
        lemma_plan_shape(ts.drop_last(), p);
    }
}

/// Each result index of the plan points into the physical batch.
pub proof fn lemma_indices_valid(ts: Seq<DapTransfer>, p: PlanParams, i: int)
    requires
        ts.len() <= MAX_BATCH,
        0 <= i < ts.len(),
    ensures
        spec_plan(ts, p).indices[i] < spec_plan(ts, p).phys.len(),
{
    lemma_fold_indices_valid(ts, p);
}

/// After the fold, every result index but the last points into the batch
/// built so far; the last may point one past it exactly when a pending
/// access-port read or posted write will be collected by the final RDBUFF
/// read that `spec_plan_finish` appends.
proof fn lemma_fold_indices_valid(ts: Seq<DapTransfer>, p: PlanParams)
    requires
        ts.len() <= MAX_BATCH,
    ensures
        ({
            let st = spec_plan_fold(ts, p);
            &&& st.phys.len() <= 2 * ts.len()
            &&& !(st.need_ap_read && st.posted_write)
            &&& forall|k: int|
                0 <= k < ts.len() ==> ((#[trigger] st.indices[k]) < st.phys.len() || (k == ts.len()
                    - 1 && (st.need_ap_read || st.posted_write) && st.indices[k] == st.phys.len()))
        }),
    decreases ts.len(),
{
    lemma_plan_shape(ts, p);
    if ts.len() > 0 {
        lemma_fold_indices_valid(ts.drop_last(), p);
        lemma_plan_shape(ts.drop_last(), p);
    }
}

} // verus!
