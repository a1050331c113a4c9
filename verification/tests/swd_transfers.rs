//! The transfer engine against a scripted probe: correct bit counts,
//! retry behaviour, and the synthetic transfers the posted-read rules
//! demand, over SWD and JTAG.

use probe_rs::dap::{DapError, DapTransfer, PortType, TransferStatus};
use probe_rs::jtag::{
    decode_jtag_result, remark_succeeded_as_fault,
    parse_jtag_response, JTAG_ABORT_IR_VALUE, JTAG_ACCESS_PORT_IR_VALUE, JTAG_DEBUG_PORT_IR_VALUE,
    JTAG_DR_BIT_LENGTH, JTAG_STATUS_OK, JTAG_STATUS_WAIT,
};
use probe_rs::probe::{
    DebugProbeError, JTAGAccess, ProbeStatistics, RawProtocolIo, SwdSettings, WireProtocol,
};
use probe_rs::raw_dap::{raw_read_register, raw_write_register, TransferLog};
use probe_rs::transfer::perform_transfers;

#[allow(dead_code)]
enum DapAcknowledge {
    Success,
    Wait,
    Fault,
    NoAck,
}

#[derive(Debug)]
struct ExpectedJtagTransaction {
    ir_address: u32,
    address: u32,
    value: u32,
    read: bool,
    result: u64,
}

struct MockJaylink {
    direction_input: Option<Vec<bool>>,
    io_input: Option<Vec<bool>>,
    transfer_responses: Vec<Vec<bool>>,
    jtag_transactions: Vec<ExpectedJtagTransaction>,

    expected_transfer_count: usize,
    performed_transfer_count: usize,

    swd_settings: SwdSettings,
    probe_statistics: ProbeStatistics,

    protocol: WireProtocol,
}

impl MockJaylink {
    fn new() -> Self {
        Self {
            direction_input: None,
            io_input: None,
            transfer_responses: vec![vec![]],
            jtag_transactions: vec![],

            expected_transfer_count: 1,
            performed_transfer_count: 0,

            swd_settings: SwdSettings::default(),
            probe_statistics: ProbeStatistics::default(),

            protocol: WireProtocol::Swd,
        }
    }

    fn select_protocol(&mut self, protocol: WireProtocol) -> Result<(), DebugProbeError> {
        self.protocol = protocol;
        Ok(())
    }

    fn set_ack(response: &mut [bool], acknowledge: DapAcknowledge) {
        match acknowledge {
            DapAcknowledge::Success => {
                response[10] = true;
            }
            DapAcknowledge::Wait => {
                response[11] = true;
            }
            DapAcknowledge::Fault => {
                response[12] = true;
            }
            DapAcknowledge::NoAck => {}
        }
    }

    fn add_write_response(&mut self, acknowledge: DapAcknowledge, idle_cycles: usize) {
        // 2 idle + 8 request + 1 turnaround + 3 ack + 2 turnaround + 32
        // data bits, plus the write's own idle cycles.
        let write_length = 2 + 8 + 1 + 3 + 2 + 32 + idle_cycles;
        let mut response = vec![false; write_length];
        Self::set_ack(&mut response, acknowledge);
        self.transfer_responses.last_mut().unwrap().extend(response);
    }

    fn add_read_response(&mut self, acknowledge: DapAcknowledge, value: u32) {
        // 2 idle + 8 request + 1 turnaround + 3 ack + 32 data + parity +
        // 1 turnaround.
        let read_length = 2 + 8 + 1 + 3 + 32 + 2;
        let mut response = vec![false; read_length];
        Self::set_ack(&mut response, acknowledge);
        for j in 0..32 {
            response[13 + j] = (value >> j) & 1 == 1;
        }
        response[13 + 32] = value.count_ones() % 2 == 1;
        self.transfer_responses.last_mut().unwrap().extend(response);
    }

    fn add_idle_cycles(&mut self, len: usize) {
        self.transfer_responses
            .last_mut()
            .unwrap()
            .extend(std::iter::repeat(false).take(len))
    }

    fn add_transfer(&mut self) {
        self.transfer_responses.push(Vec::new());
        self.expected_transfer_count += 1;
    }

    fn add_jtag_abort(&mut self) {
        let expected = ExpectedJtagTransaction {
            ir_address: JTAG_ABORT_IR_VALUE,
            address: 0,
            value: 0,
            read: false,
            result: 0,
        };
        self.jtag_transactions.push(expected);
        self.expected_transfer_count += 1;
    }

    fn add_jtag_response(
        &mut self,
        port: PortType,
        address: u32,
        read: bool,
        acknowlege: DapAcknowledge,
        output_value: u32,
        input_value: u32,
    ) {
        let mut response = (output_value as u64) << 3;

        let status = match acknowlege {
            DapAcknowledge::Success => JTAG_STATUS_OK,
            DapAcknowledge::Wait => JTAG_STATUS_WAIT,
            _ => 0b111,
        };

        response |= status as u64;

        let expected = ExpectedJtagTransaction {
            ir_address: if port == PortType::DebugPort {
                JTAG_DEBUG_PORT_IR_VALUE
            } else {
                JTAG_ACCESS_PORT_IR_VALUE
            },
            address,
            value: input_value,
            read,
            result: response,
        };

        self.jtag_transactions.push(expected);
        self.expected_transfer_count += 1;
    }
}

impl RawProtocolIo for MockJaylink {
    fn jtag_io(&mut self, _tms: &Vec<bool>, _tdi: &Vec<bool>) -> Result<Vec<bool>, DebugProbeError> {
        Ok(Vec::new())
    }

    fn swd_io(&mut self, dir: &Vec<bool>, swdio: &Vec<bool>) -> Result<Vec<bool>, DebugProbeError> {
        self.direction_input = Some(dir.clone());
        self.io_input = Some(swdio.clone());

        assert_eq!(
            self.direction_input.as_ref().unwrap().len(),
            self.io_input.as_ref().unwrap().len()
        );

        let transfer_response = self.transfer_responses.remove(0);

        assert_eq!(
            transfer_response.len(),
            self.io_input.as_ref().map(|v| v.len()).unwrap(),
            "Length mismatch for transfer {}/{}",
            self.performed_transfer_count + 1,
            self.expected_transfer_count
        );

        self.performed_transfer_count += 1;

        Ok(transfer_response)
    }

    fn swd_settings(&self) -> SwdSettings {
        self.swd_settings
    }

    fn probe_statistics(&mut self) -> &mut ProbeStatistics {
        &mut self.probe_statistics
    }

    fn active_protocol(&self) -> WireProtocol {
        self.protocol
    }
}

impl JTAGAccess for MockJaylink {
    fn set_ir_len(&mut self, _len: u32) {}

    fn read_register(&mut self, _address: u32, _len: u32) -> Result<Vec<u8>, DebugProbeError> {
        panic!("unused in these tests")
    }

    fn set_idle_cycles(&mut self, _idle_cycles: u8) {}

    fn get_idle_cycles(&self) -> u8 {
        0
    }

    fn write_register(
        &mut self,
        address: u32,
        data: &Vec<u8>,
        len: u32,
    ) -> Result<Vec<u8>, DebugProbeError> {
        let jtag_value = parse_jtag_response(&data[..5].to_vec());

        // Always 35 bit transfers.
        assert_eq!(len, JTAG_DR_BIT_LENGTH);

        let jtag_transaction = self.jtag_transactions.remove(0);

        assert_eq!(
            jtag_transaction.ir_address,
            address,
            "Address mismatch with {} remaining transactions",
            self.jtag_transactions.len()
        );

        if jtag_transaction.ir_address != JTAG_ABORT_IR_VALUE {
            let value = (jtag_value >> 3) as u32;
            let rnw = jtag_value & 1 == 1;
            let dap_address = ((jtag_value & 0x6) << 1) as u32;

            assert_eq!(dap_address, jtag_transaction.address);
            assert_eq!(rnw, jtag_transaction.read);
            assert_eq!(value, jtag_transaction.value);
        }

        self.performed_transfer_count += 1;

        let ret = jtag_transaction.result;

        Ok(ret.to_le_bytes()[..5].to_vec())
    }
}

#[test]
fn read_register() {
    let read_value = 12;

    let mut mock = MockJaylink::new();

    mock.add_read_response(DapAcknowledge::Success, 0);
    mock.add_read_response(DapAcknowledge::Success, read_value);
    mock.add_idle_cycles(mock.swd_settings.idle_cycles_after_transfer());

    let result = raw_read_register(&mut mock, &mut TransferLog::new(), PortType::AccessPort, 4).unwrap();

    assert_eq!(result, read_value);
}

#[test]
fn read_register_jtag() {
    let read_value = 12;

    let mut mock = MockJaylink::new();

    let result = mock.select_protocol(WireProtocol::Jtag);
    assert_eq!(false, result.is_err());

    // Read request
    mock.add_jtag_response(PortType::AccessPort, 4, true, DapAcknowledge::Success, 0, 0);
    mock.add_jtag_response(PortType::DebugPort, 12, true, DapAcknowledge::Success, read_value, 0);
    // Check CTRL
    mock.add_jtag_response(PortType::DebugPort, 4, true, DapAcknowledge::Success, 0, 0);
    mock.add_jtag_response(PortType::DebugPort, 12, true, DapAcknowledge::Success, 0, 0);

    let result = raw_read_register(&mut mock, &mut TransferLog::new(), PortType::AccessPort, 4).unwrap();

    assert_eq!(result, read_value);
}

#[test]
fn read_register_with_wait_response() {
    let read_value = 47;
    let mut mock = MockJaylink::new();

    mock.add_read_response(DapAcknowledge::Success, 0);
    mock.add_read_response(DapAcknowledge::Wait, 0);
    mock.add_idle_cycles(mock.swd_settings.idle_cycles_after_transfer());

    // When a wait response is received, the sticky overrun bit has to be
    // cleared.

    mock.add_transfer();
    mock.add_write_response(
        DapAcknowledge::Success,
        mock.swd_settings.num_idle_cycles_between_writes(),
    );
    mock.add_idle_cycles(mock.swd_settings.idle_cycles_after_transfer());

    mock.add_transfer();
    mock.add_read_response(DapAcknowledge::Success, 0);
    mock.add_read_response(DapAcknowledge::Success, read_value);
    mock.add_idle_cycles(mock.swd_settings.idle_cycles_after_transfer());

    let result = raw_read_register(&mut mock, &mut TransferLog::new(), PortType::AccessPort, 4).unwrap();

    assert_eq!(result, read_value);
}

#[test]
fn read_register_with_wait_response_jtag() {
    let read_value = 47;
    let mut mock = MockJaylink::new();

    let result = mock.select_protocol(WireProtocol::Jtag);
    assert_eq!(false, result.is_err());

    // Read
    mock.add_jtag_response(PortType::AccessPort, 4, true, DapAcknowledge::Success, 0, 0);
    mock.add_jtag_response(PortType::DebugPort, 12, true, DapAcknowledge::Wait, 0, 0);
    // Check CTRL
    mock.add_jtag_response(PortType::DebugPort, 4, true, DapAcknowledge::Success, 0, 0);
    mock.add_jtag_response(PortType::DebugPort, 12, true, DapAcknowledge::Success, 0, 0);

    // When a wait response is received, the sticky overrun bit has to be
    // cleared.
    mock.add_jtag_abort();

    // Retry
    mock.add_jtag_response(PortType::AccessPort, 4, true, DapAcknowledge::Success, 0, 0);
    mock.add_jtag_response(PortType::DebugPort, 12, true, DapAcknowledge::Success, read_value, 0);
    // Check CTRL
    mock.add_jtag_response(PortType::DebugPort, 4, true, DapAcknowledge::Success, 0, 0);
    mock.add_jtag_response(PortType::DebugPort, 12, true, DapAcknowledge::Success, 0, 0);

    let result = raw_read_register(&mut mock, &mut TransferLog::new(), PortType::AccessPort, 4).unwrap();

    assert_eq!(result, read_value);
}

#[test]
fn write_register() {
    let mut mock = MockJaylink::new();

    let idle_cycles = mock.swd_settings.num_idle_cycles_between_writes();

    mock.add_write_response(DapAcknowledge::Success, idle_cycles);
    mock.add_idle_cycles(mock.swd_settings.idle_cycles_before_write_verify());
    mock.add_read_response(DapAcknowledge::Success, 0);
    mock.add_idle_cycles(mock.swd_settings.idle_cycles_after_transfer());

    raw_write_register(&mut mock, &mut TransferLog::new(), PortType::AccessPort, 4, 0x123)
        .expect("Failed to write register");
}

#[test]
fn write_register_jtag() {
    let mut mock = MockJaylink::new();

    let result = mock.select_protocol(WireProtocol::Jtag);
    assert_eq!(false, result.is_err());

    mock.add_jtag_response(PortType::AccessPort, 4, false, DapAcknowledge::Success, 0x0, 0x123);
    mock.add_jtag_response(PortType::DebugPort, 12, true, DapAcknowledge::Success, 0x123, 0x0);
    // Check CTRL
    mock.add_jtag_response(PortType::DebugPort, 4, true, DapAcknowledge::Success, 0, 0);
    mock.add_jtag_response(PortType::DebugPort, 12, true, DapAcknowledge::Success, 0, 0);

    raw_write_register(&mut mock, &mut TransferLog::new(), PortType::AccessPort, 4, 0x123)
        .expect("Failed to write register");
}

#[test]
fn write_register_with_wait_response() {
    let mut mock = MockJaylink::new();
    let idle_cycles = mock.swd_settings.num_idle_cycles_between_writes();

    mock.add_write_response(DapAcknowledge::Success, idle_cycles);
    mock.add_idle_cycles(mock.swd_settings.idle_cycles_before_write_verify());
    mock.add_read_response(DapAcknowledge::Wait, 0);
    mock.add_idle_cycles(mock.swd_settings.idle_cycles_after_transfer());

    // Expect a write to the ABORT register.
    mock.add_transfer();
    mock.add_write_response(DapAcknowledge::Success, idle_cycles);
    mock.add_idle_cycles(mock.swd_settings.idle_cycles_after_transfer());

    // Second try to write register, with increased idle cycles.
    mock.add_transfer();
    mock.add_write_response(DapAcknowledge::Success, idle_cycles * 2);
    mock.add_idle_cycles(mock.swd_settings.idle_cycles_before_write_verify());
    mock.add_read_response(DapAcknowledge::Success, 0);
    mock.add_idle_cycles(mock.swd_settings.idle_cycles_after_transfer());

    raw_write_register(&mut mock, &mut TransferLog::new(), PortType::AccessPort, 4, 0x123)
        .expect("Failed to write register");
}

#[test]
fn write_register_with_wait_response_jtag() {
    let mut mock = MockJaylink::new();

    let result = mock.select_protocol(WireProtocol::Jtag);
    assert_eq!(false, result.is_err());

    mock.add_jtag_response(PortType::AccessPort, 4, false, DapAcknowledge::Success, 0x0, 0x123);
    mock.add_jtag_response(PortType::DebugPort, 12, true, DapAcknowledge::Wait, 0x0, 0x0);
    // Check CTRL
    mock.add_jtag_response(PortType::DebugPort, 4, true, DapAcknowledge::Success, 0, 0);
    mock.add_jtag_response(PortType::DebugPort, 12, true, DapAcknowledge::Success, 0, 0);

    // Expect a write to the ABORT register.
    mock.add_jtag_abort();

    // Second try to write register.
    mock.add_jtag_response(PortType::AccessPort, 4, false, DapAcknowledge::Success, 0x0, 0x123);
    mock.add_jtag_response(PortType::DebugPort, 12, true, DapAcknowledge::Success, 0x123, 0x0);
    // Check CTRL
    mock.add_jtag_response(PortType::DebugPort, 4, true, DapAcknowledge::Success, 0, 0);
    mock.add_jtag_response(PortType::DebugPort, 12, true, DapAcknowledge::Success, 0, 0);

    raw_write_register(&mut mock, &mut TransferLog::new(), PortType::AccessPort, 4, 0x123)
        .expect("Failed to write register");
}

#[test]
fn single_dp_register_read() {
    let register_value = 32354;

    let mut transfers = vec![DapTransfer::read(PortType::DebugPort, 0)];

    let mut mock = MockJaylink::new();

    mock.add_read_response(DapAcknowledge::Success, register_value);
    mock.add_idle_cycles(mock.swd_settings.idle_cycles_after_transfer());

    perform_transfers(&mut mock, &mut transfers, 16).expect("Failed to perform transfer");

    let transfer_result = &transfers[0];

    assert_eq!(transfer_result.status, TransferStatus::Succeeded);
    assert_eq!(transfer_result.value, register_value);
}

#[test]
fn single_ap_register_read() {
    let register_value = 0x11_22_33_44u32;

    let mut transfers = vec![DapTransfer::read(PortType::AccessPort, 0)];

    let mut mock = MockJaylink::new();

    mock.add_read_response(DapAcknowledge::Success, 0);
    mock.add_read_response(DapAcknowledge::Success, register_value);
    mock.add_idle_cycles(mock.swd_settings.idle_cycles_after_transfer());

    perform_transfers(&mut mock, &mut transfers, 16).expect("Failed to perform transfer");

    let transfer_result = &transfers[0];

    assert_eq!(transfer_result.status, TransferStatus::Succeeded);
    assert_eq!(transfer_result.value, register_value);
}

#[test]
fn ap_then_dp_register_read() {
    // When reading from the AP first, and then from the DP, an additional
    // read from the RDBUFF register is inserted to get the result of the
    // AP read.

    let ap_read_value = 0x123223;
    let dp_read_value = 0xFFAABB;

    let mut transfers = vec![
        DapTransfer::read(PortType::AccessPort, 4),
        DapTransfer::read(PortType::DebugPort, 3),
    ];

    let mut mock = MockJaylink::new();

    mock.add_read_response(DapAcknowledge::Success, 0);
    mock.add_read_response(DapAcknowledge::Success, ap_read_value);
    mock.add_read_response(DapAcknowledge::Success, dp_read_value);
    mock.add_idle_cycles(mock.swd_settings.idle_cycles_after_transfer());

    perform_transfers(&mut mock, &mut transfers, 16).expect("Failed to perform transfer");

    assert_eq!(transfers[0].status, TransferStatus::Succeeded);
    assert_eq!(transfers[0].value, ap_read_value);

    assert_eq!(transfers[1].status, TransferStatus::Succeeded);
    assert_eq!(transfers[1].value, dp_read_value);
}

#[test]
fn dp_then_ap_register_read() {
    // When reading from the DP first, and then from the AP, an additional
    // read from the RDBUFF register is inserted at the end to get the
    // result of the AP read.

    let ap_read_value = 0x123223;
    let dp_read_value = 0xFFAABB;

    let mut transfers = vec![
        DapTransfer::read(PortType::DebugPort, 3),
        DapTransfer::read(PortType::AccessPort, 4),
    ];

    let mut mock = MockJaylink::new();

    mock.add_read_response(DapAcknowledge::Success, dp_read_value);
    mock.add_read_response(DapAcknowledge::Success, 0);
    mock.add_read_response(DapAcknowledge::Success, ap_read_value);
    mock.add_idle_cycles(mock.swd_settings.idle_cycles_after_transfer());

    perform_transfers(&mut mock, &mut transfers, 16).expect("Failed to perform transfer");

    assert_eq!(transfers[0].status, TransferStatus::Succeeded);
    assert_eq!(transfers[0].value, dp_read_value);

    assert_eq!(transfers[1].status, TransferStatus::Succeeded);
    assert_eq!(transfers[1].value, ap_read_value);
}

#[test]
fn multiple_ap_read() {
    // When reading from the AP twice, only a single additional read from
    // the RDBUFF register is necessary.

    let ap_read_values = [1, 2];

    let mut transfers = vec![
        DapTransfer::read(PortType::AccessPort, 4),
        DapTransfer::read(PortType::AccessPort, 4),
    ];

    let mut mock = MockJaylink::new();

    mock.add_read_response(DapAcknowledge::Success, 0);
    mock.add_read_response(DapAcknowledge::Success, ap_read_values[0]);
    mock.add_read_response(DapAcknowledge::Success, ap_read_values[1]);
    mock.add_idle_cycles(mock.swd_settings.idle_cycles_after_transfer());

    perform_transfers(&mut mock, &mut transfers, 16).expect("Failed to perform transfer");

    assert_eq!(transfers[0].status, TransferStatus::Succeeded);
    assert_eq!(transfers[0].value, ap_read_values[0]);

    assert_eq!(transfers[1].status, TransferStatus::Succeeded);
    assert_eq!(transfers[1].value, ap_read_values[1]);
}

#[test]
fn multiple_dp_read() {
    // When reading from the DP twice, no additional reads have to be
    // inserted.

    let dp_read_values = [1, 2];

    let mut transfers = vec![
        DapTransfer::read(PortType::DebugPort, 4),
        DapTransfer::read(PortType::DebugPort, 4),
    ];

    let mut mock = MockJaylink::new();

    mock.add_read_response(DapAcknowledge::Success, dp_read_values[0]);
    mock.add_read_response(DapAcknowledge::Success, dp_read_values[1]);
    mock.add_idle_cycles(mock.swd_settings.idle_cycles_after_transfer());

    perform_transfers(&mut mock, &mut transfers, 16).expect("Failed to perform transfer");

    assert_eq!(transfers[0].status, TransferStatus::Succeeded);
    assert_eq!(transfers[0].value, dp_read_values[0]);

    assert_eq!(transfers[1].status, TransferStatus::Succeeded);
    assert_eq!(transfers[1].value, dp_read_values[1]);
}

#[test]
fn single_dp_register_write() {
    let mut transfers = vec![DapTransfer::write(PortType::DebugPort, 0, 0x1234_5678)];

    let mut mock = MockJaylink::new();
    let idle_cycles = mock.swd_settings.num_idle_cycles_between_writes();

    mock.add_write_response(DapAcknowledge::Success, idle_cycles);

    mock.add_idle_cycles(mock.swd_settings.idle_cycles_after_transfer());

    perform_transfers(&mut mock, &mut transfers, idle_cycles).expect("Failed to perform transfer");

    let transfer_result = &transfers[0];

    assert_eq!(transfer_result.status, TransferStatus::Succeeded);
}

#[test]
fn single_ap_register_write() {
    let mut transfers = vec![DapTransfer::write(PortType::AccessPort, 0, 0x1234_5678)];

    let mut mock = MockJaylink::new();

    let idle_cycles = mock.swd_settings.num_idle_cycles_between_writes();

    mock.add_write_response(DapAcknowledge::Success, idle_cycles);

    // To verify that the write was successful, an additional read is
    // performed.
    mock.add_idle_cycles(mock.swd_settings.idle_cycles_before_write_verify());
    mock.add_read_response(DapAcknowledge::Success, 0);
    mock.add_idle_cycles(mock.swd_settings.idle_cycles_after_transfer());

    perform_transfers(&mut mock, &mut transfers, idle_cycles).expect("Failed to perform transfer");

    let transfer_result = &transfers[0];

    assert_eq!(transfer_result.status, TransferStatus::Succeeded);
}

#[test]
fn multiple_ap_register_write() {
    let mut transfers = vec![
        DapTransfer::write(PortType::AccessPort, 0, 0x1234_5678),
        DapTransfer::write(PortType::AccessPort, 0, 0xABABABAB),
    ];

    let mut mock = MockJaylink::new();

    let idle_cycles = mock.swd_settings.num_idle_cycles_between_writes();

    mock.add_write_response(DapAcknowledge::Success, idle_cycles);
    mock.add_write_response(DapAcknowledge::Success, idle_cycles);

    mock.add_idle_cycles(mock.swd_settings.idle_cycles_before_write_verify());
    mock.add_read_response(DapAcknowledge::Success, 0);
    mock.add_idle_cycles(mock.swd_settings.idle_cycles_after_transfer());

    perform_transfers(&mut mock, &mut transfers, idle_cycles).expect("Failed to perform transfer");

    assert_eq!(transfers[0].status, TransferStatus::Succeeded);
    assert_eq!(transfers[1].status, TransferStatus::Succeeded);
}

#[test]
fn dp_read_returns_standard_dpidr() {
    // A DPIDR read acknowledged with ACK `001`, data 0x2BA01477 and an
    // even total Hamming weight returns exactly that value.
    let mut mock = MockJaylink::new();

    mock.add_read_response(DapAcknowledge::Success, 0x2BA01477);
    mock.add_idle_cycles(mock.swd_settings.idle_cycles_after_transfer());

    let result = raw_read_register(&mut mock, &mut TransferLog::new(), PortType::DebugPort, 0).unwrap();

    assert_eq!(result, 0x2BA01477);
}

#[test]
fn empty_batch_returns_ok_without_io() {
    // An empty batch performs no transfers and succeeds; the mock would
    // panic on any probe I/O beyond its scripted single empty response.
    let mut mock = MockJaylink::new();
    let mut transfers: Vec<DapTransfer> = vec![];

    perform_transfers(&mut mock, &mut transfers, 16).expect("Failed to perform transfer");

    assert_eq!(mock.performed_transfer_count, 0);
    assert!(transfers.is_empty());
}

#[test]
fn decode_jtag_result_splits_value_and_status() {

    // Value in bits [34:3], status OK in the low three bits.
    let received: u64 = (0x1234_5678u64 << 3) | 0b010;
    let (value, status) = decode_jtag_result(received);
    assert_eq!(value, 0x1234_5678);
    assert_eq!(status, TransferStatus::Succeeded);

    // WAIT status.
    let (_, status) = decode_jtag_result((0x1u64 << 3) | 0b001);
    assert_eq!(status, TransferStatus::Failed(DapError::WaitResponse));

    // Anything else is a no-acknowledge.
    let (_, status) = decode_jtag_result((0x1u64 << 3) | 0b111);
    assert_eq!(status, TransferStatus::Failed(DapError::NoAcknowledge));
}

#[test]
fn remark_succeeded_as_fault_flips_only_acknowledged_transfers() {

    let mut transfers = vec![
        DapTransfer::read(PortType::AccessPort, 4),
        DapTransfer::write(PortType::AccessPort, 4, 0x42),
        DapTransfer::read(PortType::DebugPort, 0),
    ];
    transfers[0].status = TransferStatus::Succeeded;
    transfers[1].status = TransferStatus::Failed(DapError::WaitResponse);
    transfers[2].status = TransferStatus::Succeeded;

    remark_succeeded_as_fault(&mut transfers);

    assert_eq!(transfers[0].status, TransferStatus::Failed(DapError::FaultResponse));
    assert_eq!(transfers[1].status, TransferStatus::Failed(DapError::WaitResponse));
    assert_eq!(transfers[2].status, TransferStatus::Failed(DapError::FaultResponse));
    // The request fields are untouched.
    assert_eq!(transfers[1].value, 0x42);
}
