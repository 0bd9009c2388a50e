use sx126x::commands::status::{
    ClearDeviceErrors, CommandStatus, CommandStatusError, DeviceErrors, GetDeviceErrors,
    GetDeviceErrorsResponse, GetPacketStatus, GetPacketStatusResponse, GetRssiInst,
    GetRssiInstResponse, GetRxBufferStatus, GetRxBufferStatusResponse, GetStats, GetStatsResponse,
    GetStatus, OperatingMode, OperatingModeError, PacketStatus, ResetStats, RxBufferStatus, Stats,
    Status, StatusError,
};

#[test]
fn operating_mode_rejects_invalid_discriminant() {
    // 0x09 names no operating mode; the error carries the value.
    assert_eq!(
        OperatingMode::try_from(0x09),
        Err(OperatingModeError::InvalidValue(9))
    );
}

#[test]
fn operating_mode_accepts_every_defined_code() {
    assert_eq!(OperatingMode::try_from(0x2), Ok(OperatingMode::StandbyRc));
    assert_eq!(OperatingMode::try_from(0x3), Ok(OperatingMode::StandbyXosc));
    assert_eq!(
        OperatingMode::try_from(0x4),
        Ok(OperatingMode::FrequencySynthesizer)
    );
    assert_eq!(OperatingMode::try_from(0x5), Ok(OperatingMode::Receive));
    assert_eq!(OperatingMode::try_from(0x6), Ok(OperatingMode::Transmit));
    for m in [
        OperatingMode::StandbyRc,
        OperatingMode::StandbyXosc,
        OperatingMode::FrequencySynthesizer,
        OperatingMode::Receive,
        OperatingMode::Transmit,
    ] {
        assert_eq!(OperatingMode::try_from(m.code()), Ok(m));
    }
}

#[test]
fn command_status_round_trips_every_defined_code() {
    for c in [
        CommandStatus::DataAvailable,
        CommandStatus::Timeout,
        CommandStatus::ProcessingError,
        CommandStatus::ExecutionFailure,
        CommandStatus::TxDone,
    ] {
        assert_eq!(CommandStatus::try_from(c.code()), Ok(c));
    }
    assert_eq!(
        CommandStatus::try_from(0x7),
        Err(CommandStatusError::InvalidValue(7))
    );
}

#[test]
fn status_byte_decodes_both_subfields() {
    // 0b0_101_011_0: mode bits 101 = 0x5, command bits 011 = 0x3.
    let s = Status::from_bytes([0b0101_0110]).unwrap();
    assert_eq!(s.mode, OperatingMode::Receive);
    assert_eq!(s.cmd_status, CommandStatus::Timeout);
}

#[test]
fn status_byte_reports_which_half_is_invalid() {
    // Mode bits 000 are invalid.
    assert_eq!(
        Status::from_bytes([0b0000_0110]),
        Err(StatusError::InvalidMode(OperatingModeError::InvalidValue(0)))
    );
    // Mode bits valid, command bits 000 invalid.
    assert_eq!(
        Status::from_bytes([0b0010_0000]),
        Err(StatusError::InvalidCommandStatus(
            CommandStatusError::InvalidValue(0)
        ))
    );
}

#[test]
fn rssi_response_decodes_status_and_rssi() {
    // Status 0x54: mode 0x5 = Receive, command 0x2 = DataAvailable.
    let r = GetRssiInstResponse::from_bytes([0x54, 120]).unwrap();
    assert_eq!(r.status.mode, OperatingMode::Receive);
    assert_eq!(r.status.cmd_status, CommandStatus::DataAvailable);
    assert_eq!(r.rssi, 120);
}

#[test]
fn rssi_response_fails_whole_decode_on_bad_status() {
    assert_eq!(
        GetRssiInstResponse::from_bytes([0x00, 120]),
        Err(StatusError::InvalidMode(OperatingModeError::InvalidValue(0)))
    );
}

#[test]
fn rx_buffer_status_response_decodes() {
    let r = GetRxBufferStatusResponse::from_bytes([0x54, 32, 0x80]).unwrap();
    assert_eq!(
        r.buffer_status,
        RxBufferStatus {
            payload_length: 32,
            buffer_pointer: 0x80
        }
    );
}

#[test]
fn packet_status_response_keeps_raw_bytes() {
    let r = GetPacketStatusResponse::from_bytes([0x54, 0x40, 0x10, 0x42]).unwrap();
    assert_eq!(r.packet_status, PacketStatus {
        status: [0x40, 0x10, 0x42]
    });
}

#[test]
fn device_errors_decode_each_flag_bit() {
    let e = DeviceErrors::from_bytes([0x01, 0b0101_0101]);
    assert!(e.rc64k_calib_err);
    assert!(!e.rc13m_calib_err);
    assert!(e.pll_calib_err);
    assert!(!e.adc_calib_err);
    assert!(e.img_calib_err);
    assert!(!e.xosc_start_err);
    assert!(e.pll_lock_err);
    assert!(e.pa_ramp_err);
    let none = DeviceErrors::from_bytes([0x00, 0x00]);
    assert!(!none.pa_ramp_err && !none.rc64k_calib_err && !none.pll_lock_err);
}

#[test]
fn device_errors_response_decodes() {
    let r = GetDeviceErrorsResponse::from_bytes([0x44, 0x00, 0x40]).unwrap();
    assert_eq!(r.status.mode, OperatingMode::FrequencySynthesizer);
    assert!(r.errors.pll_lock_err);
    assert!(!r.errors.pa_ramp_err);
}

#[test]
fn stats_decode_big_endian_counters() {
    let s = Stats::from_bytes([0x00, 0x05, 0x00, 0x02, 0x01, 0x01]);
    assert_eq!(
        s,
        Stats {
            packets_received: 5,
            packets_crc_error: 2,
            packets_header_error: 257
        }
    );
}

#[test]
fn stats_response_decodes_and_fails_as_one_unit() {
    let r = GetStatsResponse::from_bytes([0x44, 0x00, 0x05, 0x00, 0x02, 0x00, 0x01]).unwrap();
    assert_eq!(r.stats.packets_received, 5);
    assert_eq!(r.stats.packets_crc_error, 2);
    assert_eq!(r.stats.packets_header_error, 1);
    assert_eq!(
        GetStatsResponse::from_bytes([0x0F, 0x00, 0x05, 0x00, 0x02, 0x00, 0x01]),
        Err(StatusError::InvalidMode(OperatingModeError::InvalidValue(0)))
    );
}

#[test]
fn status_command_opcodes_match_the_wire_table() {
    assert_eq!(GetStatus::id(), 0xC0);
    assert_eq!(GetRssiInst::id(), 0x15);
    assert_eq!(GetRxBufferStatus::id(), 0x13);
    assert_eq!(GetPacketStatus::id(), 0x14);
    assert_eq!(GetDeviceErrors::id(), 0x17);
    assert_eq!(ClearDeviceErrors::id(), 0x07);
    assert_eq!(GetStats::id(), 0x10);
    assert_eq!(ResetStats::id(), 0x00);
}
