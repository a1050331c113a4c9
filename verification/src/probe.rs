//! The probe abstraction: raw bit-level I/O, tuning knobs for the SWD
//! engine, and counters describing a session's traffic.

use vstd::prelude::*;

use crate::dap::DapError;

verus! {

/// The wire protocol a probe is currently speaking.
#[derive(Debug, Clone, Copy, PartialEq, Eq, Structural)]
pub enum WireProtocol {
    /// Serial Wire Debug.
    Swd,
    /// IEEE 1149.1 JTAG.
    Jtag,
}

/// Probe-level failures, fatal to the current operation.
#[derive(Debug, Clone, Copy, PartialEq, Eq, Structural)]
pub enum DebugProbeError {
    /// A bounded wait expired.
    Timeout,
    /// The target returned WAIT for longer than the retry budget.
    WaitExhausted,
    /// A DAP-level error surfaced through the recovery logic.
    Dap(DapError),
    /// The transport to the physical probe failed.
    Transport,
    /// The probe does not implement the requested operation.
    NotImplemented,
}

/// An upper bound on every idle-cycle setting, far beyond any useful value;
/// it keeps idle-cycle arithmetic within machine limits.
pub const MAX_IDLE_SETTING: usize = 0x1000_0000;

/// Tuning knobs of the SWD transfer engine.
#[verifier::type_invariant]
#[derive(Debug, Clone, Copy)]
pub struct SwdSettings {
    /// Initial number of idle cycles between consecutive writes.  When a
    /// WAIT response is received the amount is doubled as a backoff, so
    /// this can be quite low.
    num_idle_cycles_between_writes: usize,
    /// How often a transfer is retried when a WAIT response is received.
    num_retries_after_wait: usize,
    /// Cap for the doubling idle-cycle backoff after WAIT responses.
    max_retry_idle_cycles_after_wait: usize,
    /// Idle cycles inserted before the result of a write is checked by a
    /// read of RDBUFF; they reduce the chance of a WAIT response there.
    idle_cycles_before_write_verify: usize,
    /// Idle cycles inserted after a whole batch, so that the last transfer
    /// is actually performed.
    idle_cycles_after_transfer: usize,
}

impl SwdSettings {
    /// Every setting stays below [`MAX_IDLE_SETTING`].
    #[verifier::type_invariant]
    pub closed spec fn bounded(self) -> bool {
        &&& self.num_idle_cycles_between_writes <= MAX_IDLE_SETTING
        &&& self.num_retries_after_wait <= MAX_IDLE_SETTING
        &&& self.max_retry_idle_cycles_after_wait <= MAX_IDLE_SETTING
        &&& self.idle_cycles_before_write_verify <= MAX_IDLE_SETTING
        &&& self.idle_cycles_after_transfer <= MAX_IDLE_SETTING
    }

    /// Spec view of the initial inter-write idle count.
    pub closed spec fn spec_idle_between_writes(self) -> usize {
        self.num_idle_cycles_between_writes
    }

    /// Spec view of the WAIT retry budget.
    pub closed spec fn spec_retries_after_wait(self) -> usize {
        self.num_retries_after_wait
    }

    /// Spec view of the backoff cap.
    pub closed spec fn spec_max_retry_idle(self) -> usize {
        self.max_retry_idle_cycles_after_wait
    }

    /// Spec view of the pre-verify idle count.
    pub closed spec fn spec_idle_before_verify(self) -> usize {
        self.idle_cycles_before_write_verify
    }

    /// Spec view of the after-batch idle count.
    pub closed spec fn spec_idle_after_transfer(self) -> usize {
        self.idle_cycles_after_transfer
    }

    /// Initial number of idle cycles between consecutive writes.
    pub fn num_idle_cycles_between_writes(&self) -> (r: usize)
        ensures
            r == self.spec_idle_between_writes(),
            r <= MAX_IDLE_SETTING,
    {
        proof {
            use_type_invariant(self);
        }
        self.num_idle_cycles_between_writes
    }

    /// How often a transfer is retried after a WAIT response.
    pub fn num_retries_after_wait(&self) -> (r: usize)
        ensures
            r == self.spec_retries_after_wait(),
            r <= MAX_IDLE_SETTING,
    {
        proof {
            use_type_invariant(self);
        }
        self.num_retries_after_wait
    }

    /// Cap for the doubling idle-cycle backoff after WAIT responses.
    pub fn max_retry_idle_cycles_after_wait(&self) -> (r: usize)
        ensures
            r == self.spec_max_retry_idle(),
            r <= MAX_IDLE_SETTING,
    {
        proof {
            use_type_invariant(self);
        }
        self.max_retry_idle_cycles_after_wait
    }

    /// Idle cycles inserted before the result of a write is checked.
    pub fn idle_cycles_before_write_verify(&self) -> (r: usize)
        ensures
            r == self.spec_idle_before_verify(),
            r <= MAX_IDLE_SETTING,
    {
        proof {
            use_type_invariant(self);
        }
        self.idle_cycles_before_write_verify
    }

    /// Idle cycles appended to the tail of every batch.
    pub fn idle_cycles_after_transfer(&self) -> (r: usize)
        ensures
            r == self.spec_idle_after_transfer(),
            r <= MAX_IDLE_SETTING,
    {
        proof {
            use_type_invariant(self);
        }
        self.idle_cycles_after_transfer
    }
}

impl Default for SwdSettings {
    /// The defaults of the ADI engine: 2 idle cycles between writes, 1000
    /// WAIT retries, a backoff cap of 128, and 8 idle cycles both before a
    /// write verify and after a batch.
    fn default() -> (r: Self)
        ensures
            r.spec_idle_between_writes() == 2,
            r.spec_retries_after_wait() == 1000,
            r.spec_max_retry_idle() == 128,
            r.spec_idle_before_verify() == 8,
            r.spec_idle_after_transfer() == 8,
    {
        SwdSettings {
            num_idle_cycles_between_writes: 2,
            num_retries_after_wait: 1000,
            max_retry_idle_cycles_after_wait: 128,
            idle_cycles_before_write_verify: 8,
            idle_cycles_after_transfer: 8,
        }
    }
}

/// Counters describing the traffic of one probe session.
#[derive(Debug, Clone, Copy)]
pub struct ProbeStatistics {
    /// Number of protocol transfers performed, including repeats and the
    /// transfers added to fulfil protocol requirements.
    pub num_transfers: usize,
    /// Number of extra transfers added to fulfil protocol requirements.
    pub num_extra_transfers: usize,
    /// Number of calls into the probe's I/O function.
    pub num_io_calls: usize,
    /// Number of WAIT responses encountered.
    pub num_wait_resp: usize,
    /// Number of FAULT responses encountered.
    pub num_faults: usize,
    /// Number of line resets executed.
    pub num_line_resets: usize,
}

impl Default for ProbeStatistics {
    /// All counters start at zero.
    fn default() -> (r: Self)
        ensures
            r.num_transfers == 0,
            r.num_extra_transfers == 0,
            r.num_io_calls == 0,
            r.num_wait_resp == 0,
            r.num_faults == 0,
            r.num_line_resets == 0,
    {
        ProbeStatistics {
            num_transfers: 0,
            num_extra_transfers: 0,
            num_io_calls: 0,
            num_wait_resp: 0,
            num_faults: 0,
            num_line_resets: 0,
        }
    }
}

/// Relies on `spin_sleep::sleep`: puts the thread to sleep for the given
/// duration, spinning near the deadline for microsecond precision.
#[verifier::external_body]
pub(crate) fn precise_sleep_ns(nanos: u64) {
    spin_sleep::sleep(std::time::Duration::from_nanos(nanos));
}

/// Sleep for the given number of milliseconds, as the polling loops do
/// between reads.
pub(crate) fn sleep_ms(ms: u32) {
    precise_sleep_ns((ms as u64) * 1_000_000);
}

/// `a + b`, saturating at the largest counter value.
pub open spec fn sat_add_spec(a: usize, b: usize) -> usize {
    if a + b <= usize::MAX {
        (a + b) as usize
    } else {
        usize::MAX
    }
}

/// Saturating addition for counters and idle-cycle budgets.
pub fn sat_add(a: usize, b: usize) -> (r: usize)
    ensures
        r == sat_add_spec(a, b),
{
    if a <= usize::MAX - b {
        a + b
    } else {
        usize::MAX
    }
}

impl ProbeStatistics {
    /// Count one transfer added to fulfil protocol requirements.
    pub fn record_extra_transfer(&mut self)
        ensures
            final(self).num_extra_transfers == sat_add_spec(old(self).num_extra_transfers, 1),
            final(self).num_transfers == old(self).num_transfers,
            final(self).num_io_calls == old(self).num_io_calls,
            final(self).num_wait_resp == old(self).num_wait_resp,
            final(self).num_faults == old(self).num_faults,
            final(self).num_line_resets == old(self).num_line_resets,
    {
        self.num_extra_transfers = sat_add(self.num_extra_transfers, 1);
    }

    /// Count the transfers of one driven batch.
    pub fn record_transfers(&mut self, num_transfers: usize)
        ensures
            final(self).num_transfers == sat_add_spec(old(self).num_transfers, num_transfers),
            final(self).num_extra_transfers == old(self).num_extra_transfers,
            final(self).num_io_calls == old(self).num_io_calls,
            final(self).num_wait_resp == old(self).num_wait_resp,
            final(self).num_faults == old(self).num_faults,
            final(self).num_line_resets == old(self).num_line_resets,
    {
        self.num_transfers = sat_add(self.num_transfers, num_transfers);
    }

    /// Count one call into the probe's I/O function.
    pub fn report_io(&mut self)
        ensures
            final(self).num_io_calls == sat_add_spec(old(self).num_io_calls, 1),
            final(self).num_transfers == old(self).num_transfers,
            final(self).num_extra_transfers == old(self).num_extra_transfers,
            final(self).num_wait_resp == old(self).num_wait_resp,
            final(self).num_faults == old(self).num_faults,
            final(self).num_line_resets == old(self).num_line_resets,
    {
        self.num_io_calls = sat_add(self.num_io_calls, 1);
    }

    /// Count WAIT and FAULT responses; other outcomes are not counted.
    pub fn report_swd_response(&mut self, response: &Result<u32, DapError>)
        ensures
            final(self).num_faults == (if response == Err::<u32, DapError>(DapError::FaultResponse) {
                sat_add_spec(old(self).num_faults, 1)
            } else {
                old(self).num_faults
            }),
            final(self).num_wait_resp == (if response == Err::<u32, DapError>(
                DapError::WaitResponse,
            ) {
                sat_add_spec(old(self).num_wait_resp, 1)
            } else {
                old(self).num_wait_resp
            }),
            final(self).num_transfers == old(self).num_transfers,
            final(self).num_extra_transfers == old(self).num_extra_transfers,
            final(self).num_io_calls == old(self).num_io_calls,
            final(self).num_line_resets == old(self).num_line_resets,
    {
        match response {
            Err(DapError::FaultResponse) => {
                self.num_faults = sat_add(self.num_faults, 1);
            }
            Err(DapError::WaitResponse) => {
                self.num_wait_resp = sat_add(self.num_wait_resp, 1);
            }
            _ => {}
        }
    }

    /// Count one line reset.
    pub fn report_line_reset(&mut self)
        ensures
            final(self).num_line_resets == sat_add_spec(old(self).num_line_resets, 1),
            final(self).num_transfers == old(self).num_transfers,
            final(self).num_extra_transfers == old(self).num_extra_transfers,
            final(self).num_io_calls == old(self).num_io_calls,
            final(self).num_wait_resp == old(self).num_wait_resp,
            final(self).num_faults == old(self).num_faults,
    {
        self.num_line_resets = sat_add(self.num_line_resets, 1);
    }
}

/// Raw bit-level access to a probe.  Implementations drive real hardware;
/// nothing can be promised about the bits a target answers with.
pub trait RawProtocolIo: Sized {
    /// Shift the given TMS/TDI bit streams out over JTAG and sample TDO.
    fn jtag_io(&mut self, tms: &Vec<bool>, tdi: &Vec<bool>) -> (r: Result<
        Vec<bool>,
        DebugProbeError,
    >);

    /// Drive the given bit stream over SWD, with a per-bit direction, and
    /// sample the line for every bit.
    fn swd_io(&mut self, dir: &Vec<bool>, swdio: &Vec<bool>) -> (r: Result<
        Vec<bool>,
        DebugProbeError,
    >);

    /// The settings of the SWD engine for this probe.
    fn swd_settings(&self) -> (r: SwdSettings);

    /// The traffic counters of this probe.
    fn probe_statistics(&mut self) -> (r: &mut ProbeStatistics);

    /// The protocol the probe currently speaks.
    fn active_protocol(&self) -> (r: WireProtocol);
}

/// Access to a probe's JTAG state machine.
pub trait JTAGAccess: Sized {
    /// Set the instruction-register length used for subsequent accesses.
    fn set_ir_len(&mut self, len: u32);

    /// Read a JTAG register.
    fn read_register(&mut self, address: u32, len: u32) -> (r: Result<Vec<u8>, DebugProbeError>);

    /// Set the number of idle cycles clocked between accesses.
    fn set_idle_cycles(&mut self, idle_cycles: u8);

    /// The number of idle cycles clocked between accesses.
    fn get_idle_cycles(&self) -> (r: u8);

    /// Write `data` into the JTAG register selected by the IR value
    /// `address`, shifting `len` bits, and return the bits shifted out.
    fn write_register(&mut self, address: u32, data: &Vec<u8>, len: u32) -> (r: Result<
        Vec<u8>,
        DebugProbeError,
    >);
}

} // verus!
