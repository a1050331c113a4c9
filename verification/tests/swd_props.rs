//! Bit-level properties of the SWD codec and the batch planner, and the
//! GPIO probe over the dummy line driver.

use probe_rs::dap::{DapError, DapTransfer, PortType, TransferDirection};
use probe_rs::gpio::{DummyBitbangInterface, GpioDap};
use probe_rs::probe::RawProtocolIo;
use probe_rs::swd::{build_swd_transfer, parse_swd_response, response_length};
use probe_rs::transfer::plan_transfers;

fn ok_read_response(value: u32, parity: bool) -> Vec<bool> {
    let mut response = vec![false; 48];
    response[10] = true;  // ACK OK
    for j in 0..32 {
        response[13 + j] = (value >> j) & 1 == 1;
    }
    response[13 + 32] = parity;
    response
}

/// A read parses as OK exactly when the value and its parity bit have an
/// even total Hamming weight.
#[test]
fn read_parity_must_be_even() {
    // 0x2BA01477 has 14 set bits, so the correct parity bit is 0.
    let response = ok_read_response(0x2BA01477, false);
    assert_eq!(
        parse_swd_response(&response, 0, TransferDirection::Read),
        Ok(0x2BA01477)
    );

    let response = ok_read_response(0x2BA01477, true);
    assert_eq!(
        parse_swd_response(&response, 0, TransferDirection::Read),
        Err(DapError::IncorrectParity)
    );

    // 7 has 3 set bits, so the parity bit must be 1.
    let response = ok_read_response(7, true);
    assert_eq!(parse_swd_response(&response, 0, TransferDirection::Read), Ok(7));
}

/// The three ACK patterns and the no-acknowledge pattern parse to their
/// errors.
#[test]
fn ack_patterns() {
    let mut response = vec![false; 48];
    response[11] = true;
    assert_eq!(
        parse_swd_response(&response, 0, TransferDirection::Read),
        Err(DapError::WaitResponse)
    );

    let mut response = vec![false; 48];
    response[12] = true;
    assert_eq!(
        parse_swd_response(&response, 0, TransferDirection::Read),
        Err(DapError::FaultResponse)
    );

    let mut response = vec![false; 48];
    response[10] = true;
    response[11] = true;
    response[12] = true;
    assert_eq!(
        parse_swd_response(&response, 0, TransferDirection::Read),
        Err(DapError::NoAcknowledge)
    );

    let response = vec![false; 48];
    assert_eq!(
        parse_swd_response(&response, 0, TransferDirection::Read),
        Err(DapError::SwdProtocol)
    );

    let response = vec![false; 10];
    assert_eq!(
        parse_swd_response(&response, 0, TransferDirection::Read),
        Err(DapError::SwdProtocol)
    );
}

/// Every transfer's line sequence is 48 bits, and a write request
/// carries its value LSB-first with an even parity bit.
#[test]
fn request_bit_layout() {
    assert_eq!(response_length(TransferDirection::Read), 48);
    assert_eq!(response_length(TransferDirection::Write), 48);

    let seq = build_swd_transfer(
        PortType::DebugPort,
        probe_rs::dap::TransferType::Write(0x0000_0001),
        0,
    );
    let io = seq.io_bits();
    assert_eq!(io.len(), 48);
    // 2 idle, start, APnDP=0, RnW=0, A2=0, A3=0, parity=0, stop, park.
    assert_eq!(
        &io[..10],
        &[false, false, true, false, false, false, false, false, false, true]
    );
    // 5 target-driven bits, then the data LSB-first.
    assert_eq!(io[15], true);
    for k in 16..47 {
        assert_eq!(io[k], false);
    }
    // One set data bit: odd weight, so the trailing parity bit is 1.
    assert_eq!(io[47], true);

    let seq = build_swd_transfer(PortType::AccessPort, probe_rs::dap::TransferType::Read, 4);
    let io = seq.io_bits();
    let dir = seq.direction_bits();
    assert_eq!(io.len(), 48);
    // Start, APnDP=1, RnW=1, A2=1, A3=0, parity over the four = 1.
    assert_eq!(&io[..10], &[false, false, true, true, true, true, false, true, false, true]);
    // The host drives the request, the target everything after.
    for k in 0..10 {
        assert_eq!(dir[k], true);
    }
    for k in 10..48 {
        assert_eq!(dir[k], false);
    }
}

/// A posted write immediately followed by a verify-sensitive transfer
/// gets a RDBUFF read inserted between the two, with the pre-verify
/// idle cycles on the write.
#[test]
fn write_before_sensitive_read_is_flushed() {
    let transfers = vec![
        DapTransfer::write(PortType::DebugPort, 4, 0x50),
        DapTransfer::read(PortType::DebugPort, 0),
    ];

    let (phys, indices) = plan_transfers(&transfers, 2, 8, 8, true);

    // write CTRL, RDBUFF read, DPIDR read, final RDBUFF for the pending
    // write of nothing further -- the batch ends on a read, so no more.
    assert_eq!(phys.len(), 3);
    assert_eq!(phys[0].direction, TransferDirection::Write);
    assert!(phys[0].idle_cycles_after >= 8);
    assert_eq!(phys[1].port, PortType::DebugPort);
    assert_eq!(phys[1].address, 12);
    assert_eq!(phys[1].direction, TransferDirection::Read);
    assert_eq!(phys[2].address, 0);

    // The write's status arrives with the inserted RDBUFF read.
    assert_eq!(indices, vec![1, 2]);
}

/// The planner inserts exactly the synthetic transfers the rules demand:
/// one RDBUFF read after a pending access-port read, one at the end of
/// the batch while something is pending.
#[test]
fn synthetic_transfer_count() {
    // AP read then DP read: one mid-batch RDBUFF insertion.
    let transfers = vec![
        DapTransfer::read(PortType::AccessPort, 0),
        DapTransfer::read(PortType::DebugPort, 4),
    ];
    let (phys, _) = plan_transfers(&transfers, 2, 8, 8, true);
    assert_eq!(phys.len(), 3);

    // Two DP reads: nothing inserted.
    let transfers = vec![
        DapTransfer::read(PortType::DebugPort, 4),
        DapTransfer::read(PortType::DebugPort, 4),
    ];
    let (phys, _) = plan_transfers(&transfers, 2, 8, 8, true);
    assert_eq!(phys.len(), 2);

    // A batch ending on an AP read: one final RDBUFF read.
    let transfers = vec![DapTransfer::read(PortType::AccessPort, 0)];
    let (phys, _) = plan_transfers(&transfers, 2, 8, 8, true);
    assert_eq!(phys.len(), 2);
}

/// The GPIO probe clocks out every bit and samples the line once per
/// bit; the dummy line driver reads back what was driven.
#[test]
fn gpio_dap_bitbangs_all_bits() {
    let mut dap = GpioDap::new(DummyBitbangInterface::new());

    assert_eq!(dap.speed_khz(), 500);
    let effective = dap.set_speed(1000).unwrap();
    assert_eq!(effective, 1000);

    let io = vec![true, false, true, true, false];
    let dir = vec![true, true, true, true, true];
    let result = dap.swd_io(&dir, &io).unwrap();
    assert_eq!(result, io);
}
