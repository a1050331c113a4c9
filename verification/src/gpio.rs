//! A debug probe made of two GPIO lines, driven by bit-banging.
//!
//! The probe clocks SWD manually: for every bit it sets the data line,
//! holds the clock low for half a period, samples the line, then raises
//! the clock for the other half.  The half-period wait must be precise at
//! microsecond scale, which an ordinary scheduler sleep cannot deliver.

use vstd::prelude::*;

use crate::probe::{
    precise_sleep_ns, DebugProbeError, JTAGAccess, ProbeStatistics, RawProtocolIo, SwdSettings,
    WireProtocol,
};

verus! {

/// Two GPIO lines as a debug port: a clock output and a bidirectional
/// data line.  Implementations drive real pins; nothing can be promised
/// about the level an input read samples.
pub trait BitbangInterface: Sized {
    /// Sample the data line.
    fn read(&self) -> (r: bool);

    /// Switch the data line between host-driven (true) and open (false).
    fn drive(&mut self, out: bool);

    /// Set the clock and data lines.
    fn write(&mut self, clk: bool, data: bool);
}

/// A bit-bang interface that drives nothing and always samples high, for
/// exercising the probe logic without hardware.
#[derive(Debug, Clone, Copy)]
pub struct DummyBitbangInterface {
    /// The last clock level written.
    pub clk: bool,
    /// The last data level written.
    pub data: bool,
    /// Whether the host currently drives the data line.
    pub is_driven: bool,
}

impl DummyBitbangInterface {
    /// A fresh dummy interface: clock low, data high, line driven.
    pub fn new() -> (r: Self)
        ensures
            r.clk == false,
            r.data == true,
            r.is_driven == true,
    {
        DummyBitbangInterface { clk: false, data: true, is_driven: true }
    }
}

impl BitbangInterface for DummyBitbangInterface {
    /// The dummy line reads back whatever was last written.
    fn read(&self) -> (r: bool) {
        self.data
    }

    fn drive(&mut self, out: bool) {
        self.is_driven = out;
    }

    fn write(&mut self, clk: bool, data: bool) {
        self.clk = clk;
        self.data = data;
    }
}

/// A debug probe made of bit-banged GPIO lines.  It speaks SWD only.
pub struct GpioDap<B: BitbangInterface> {
    clk_sleep_ns: u64,
    bitbanger: B,
    swd_settings: SwdSettings,
    statistics: ProbeStatistics,
}

impl<B: BitbangInterface> GpioDap<B> {
    /// A probe over the given line driver, clocking at 500 kHz.
    pub fn new(bitbanger: B) -> (r: GpioDap<B>)
        ensures
            r.spec_clk_sleep_ns() == 1000,
    {
        GpioDap {
            clk_sleep_ns: 1000,  // 1 us half-period: 500 kHz
            bitbanger,
            swd_settings: Default::default(),
            statistics: Default::default(),
        }
    }

    /// The half-period wait between clock edges, in nanoseconds.
    pub closed spec fn spec_clk_sleep_ns(&self) -> u64 {
        self.clk_sleep_ns
    }

    /// The probe's clock rate in kHz.
    pub fn speed_khz(&self) -> (r: u32)
        ensures
            self.spec_clk_sleep_ns() > 0 ==> r as int == 1_000_000int / (
            self.spec_clk_sleep_ns() as int) / 2,
    {
        if self.clk_sleep_ns == 0 {
            return 0;
        }
        let per_half = 1_000_000u64 / self.clk_sleep_ns;
        (per_half / 2) as u32
    }

    /// Set the clock rate; the effective rate is returned.
    pub fn set_speed(&mut self, speed_khz: u32) -> (r: Result<u32, DebugProbeError>)
        ensures
            speed_khz > 0 ==> final(self).spec_clk_sleep_ns() as int == 1_000_000int / (
            speed_khz as int) / 2,
            speed_khz == 0 ==> r == Err::<u32, DebugProbeError>(DebugProbeError::NotImplemented)
                && final(self).spec_clk_sleep_ns() == old(self).spec_clk_sleep_ns(),
    {
        if speed_khz == 0 {
            return Err(DebugProbeError::NotImplemented);
        }
        self.clk_sleep_ns = (1_000_000u64 / (speed_khz as u64)) / 2;
        Ok(self.speed_khz())
    }

    /// The probe only speaks SWD.
    pub fn select_protocol(&mut self, protocol: WireProtocol) -> (r: Result<(), DebugProbeError>)
        ensures
            r == Ok::<(), DebugProbeError>(()) <==> protocol == WireProtocol::Swd,
    {
        if protocol == WireProtocol::Swd {
            Ok(())
        } else {
            Err(DebugProbeError::NotImplemented)
        }
    }
}

impl<B: BitbangInterface> RawProtocolIo for GpioDap<B> {
    /// The GPIO probe has no JTAG support.
    fn jtag_io(&mut self, tms: &Vec<bool>, tdi: &Vec<bool>) -> (r: Result<
        Vec<bool>,
        DebugProbeError,
    >) {
        Err(DebugProbeError::NotImplemented)
    }

    /// Clock the bits out, sampling the line once per bit while the clock
    /// is low.
    fn swd_io(&mut self, dir: &Vec<bool>, swdio: &Vec<bool>) -> (r: Result<
        Vec<bool>,
        DebugProbeError,
    >) {
        self.statistics.report_io();

        let count = if dir.len() < swdio.len() {
            dir.len()
        } else {
            swdio.len()
        };

        let mut result_bits: Vec<bool> = Vec::new();
        let mut i: usize = 0;
        while i < count
            invariant
                i <= count,
                count <= dir@.len(),
                count <= swdio@.len(),
                result_bits@.len() == i,
            decreases count - i,
        {
            let is_output = dir[i];
            let value = swdio[i];

            self.bitbanger.drive(is_output);

            self.bitbanger.write(false, value);
            precise_sleep_ns(self.clk_sleep_ns);

            result_bits.push(self.bitbanger.read());

            self.bitbanger.write(true, value);
            precise_sleep_ns(self.clk_sleep_ns);

            i = i + 1;
        }

        Ok(result_bits)
    }

    fn swd_settings(&self) -> (r: SwdSettings) {
        self.swd_settings
    }

    fn probe_statistics(&mut self) -> (r: &mut ProbeStatistics) {
        &mut self.statistics
    }

    fn active_protocol(&self) -> (r: WireProtocol) {
        WireProtocol::Swd
    }
}

impl<B: BitbangInterface> GpioDap<B> {
    /// Perform a line reset followed by a read of DPIDR, retried once.
    pub fn line_reset(&mut self) -> (r: Result<(), DebugProbeError>) {
        let mut log = crate::raw_dap::TransferLog::new();
        crate::raw_dap::run_line_reset(self, &mut log)
    }
}

impl<B: BitbangInterface> JTAGAccess for GpioDap<B> {
    fn set_ir_len(&mut self, len: u32) {
    }

    /// The GPIO probe has no JTAG support.
    fn read_register(&mut self, address: u32, len: u32) -> (r: Result<Vec<u8>, DebugProbeError>) {
        Err(DebugProbeError::NotImplemented)
    }

    fn set_idle_cycles(&mut self, idle_cycles: u8) {
    }

    fn get_idle_cycles(&self) -> (r: u8) {
        0
    }

    /// The GPIO probe has no JTAG support.
    fn write_register(&mut self, address: u32, data: &Vec<u8>, len: u32) -> (r: Result<
        Vec<u8>,
        DebugProbeError,
    >) {
        Err(DebugProbeError::NotImplemented)
    }
}

} // verus!
