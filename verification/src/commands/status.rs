//! Status and monitoring commands.
//!
//! These commands report the device operating mode and command execution
//! status, signal strength, received packet information, error flags and
//! packet statistics. They carry no parameters; everything of interest is
//! in the decoded responses.

use crate::commands::NoParameters;
use crate::wire::spec_u16_from_be;
use crate::wire::u16_from_be;
use vstd::prelude::*;

verus! {

/// Error for a mode field that matches no defined operating mode.
#[derive(Debug, Clone, Copy, PartialEq, Eq, Structural)]
pub enum OperatingModeError {
    /// The value does not correspond to a valid operating mode.
    InvalidValue(u8),
}

/// Error for a status field that matches no defined command status.
#[derive(Debug, Clone, Copy, PartialEq, Eq, Structural)]
pub enum CommandStatusError {
    /// The value does not correspond to a valid command status.
    InvalidValue(u8),
}

/// Error for a status byte whose mode or command-status half is invalid.
#[derive(Debug, Clone, Copy, PartialEq, Eq, Structural)]
pub enum StatusError {
    /// The operating-mode half of the status byte is invalid.
    InvalidMode(OperatingModeError),
    /// The command-status half of the status byte is invalid.
    InvalidCommandStatus(CommandStatusError),
}

/// Operating mode of the device, from bits 6:4 of the status byte.
#[derive(Debug, Clone, Copy, PartialEq, Eq, Structural)]
pub enum OperatingMode {
    /// STDBY_RC mode: RC oscillator running (wire code 0x2).
    StandbyRc,
    /// STDBY_XOSC mode: crystal oscillator running (wire code 0x3).
    StandbyXosc,
    /// FS mode: frequency synthesizer running (wire code 0x4).
    FrequencySynthesizer,
    /// RX mode: receiving packets (wire code 0x5).
    Receive,
    /// TX mode: transmitting packets (wire code 0x6).
    Transmit,
}

impl OperatingMode {
    /// The chip-defined wire code of each operating mode.
    pub open spec fn spec_code(self) -> u8 {
        match self {
            OperatingMode::StandbyRc => 0x2,
            OperatingMode::StandbyXosc => 0x3,
            OperatingMode::FrequencySynthesizer => 0x4,
            OperatingMode::Receive => 0x5,
            OperatingMode::Transmit => 0x6,
        }
    }

    /// The mode named by a code; codes outside 0x2 through 0x6 are
    /// rejected with the offending value, never coerced to a mode.
    pub open spec fn spec_try_from(value: u8) -> Result<OperatingMode, OperatingModeError> {
        if value == 0x2 {
            Ok(OperatingMode::StandbyRc)
        } else if value == 0x3 {
            Ok(OperatingMode::StandbyXosc)
        } else if value == 0x4 {
            Ok(OperatingMode::FrequencySynthesizer)
        } else if value == 0x5 {
            Ok(OperatingMode::Receive)
        } else if value == 0x6 {
            Ok(OperatingMode::Transmit)
        } else {
            Err(OperatingModeError::InvalidValue(value))
        }
    }

    pub fn code(self) -> (r: u8)
        ensures
            r == self.spec_code(),
    {
        match self {
            OperatingMode::StandbyRc => 0x2,
            OperatingMode::StandbyXosc => 0x3,
            OperatingMode::FrequencySynthesizer => 0x4,
            OperatingMode::Receive => 0x5,
            OperatingMode::Transmit => 0x6,
        }
    }

    pub fn try_from(value: u8) -> (r: Result<OperatingMode, OperatingModeError>)
        ensures
            r == OperatingMode::spec_try_from(value),
    {
        match value {
            0x2 => Ok(OperatingMode::StandbyRc),
            0x3 => Ok(OperatingMode::StandbyXosc),
            0x4 => Ok(OperatingMode::FrequencySynthesizer),
            0x5 => Ok(OperatingMode::Receive),
            0x6 => Ok(OperatingMode::Transmit),
            invalid => Err(OperatingModeError::InvalidValue(invalid)),
        }
    }
}

/// Decoding the code of an operating mode always recovers the mode.
pub proof fn lemma_operating_mode_roundtrip(m: OperatingMode)
    ensures
        OperatingMode::spec_try_from(m.spec_code()) == Ok::<OperatingMode, OperatingModeError>(m),
{
}

/// Command processing status, from bits 3:1 of the status byte.
#[derive(Debug, Clone, Copy, PartialEq, Eq, Structural)]
pub enum CommandStatus {
    /// Data is available to be read from the radio (wire code 0x2).
    DataAvailable,
    /// Command timed out during execution (wire code 0x3).
    Timeout,
    /// Error occurred during command processing (wire code 0x4).
    ProcessingError,
    /// Command execution failed (wire code 0x5).
    ExecutionFailure,
    /// TX operation completed successfully (wire code 0x6).
    TxDone,
}

impl CommandStatus {
    /// The chip-defined wire code of each command status.
    pub open spec fn spec_code(self) -> u8 {
        match self {
            CommandStatus::DataAvailable => 0x2,
            CommandStatus::Timeout => 0x3,
            CommandStatus::ProcessingError => 0x4,
            CommandStatus::ExecutionFailure => 0x5,
            CommandStatus::TxDone => 0x6,
        }
    }

    /// The status named by a code; codes outside 0x2 through 0x6 are
    /// rejected with the offending value.
    pub open spec fn spec_try_from(value: u8) -> Result<CommandStatus, CommandStatusError> {
        if value == 0x2 {
            Ok(CommandStatus::DataAvailable)
        } else if value == 0x3 {
            Ok(CommandStatus::Timeout)
        } else if value == 0x4 {
            Ok(CommandStatus::ProcessingError)
        } else if value == 0x5 {
            Ok(CommandStatus::ExecutionFailure)
        } else if value == 0x6 {
            Ok(CommandStatus::TxDone)
        } else {
            Err(CommandStatusError::InvalidValue(value))
        }
    }

    pub fn code(self) -> (r: u8)
        ensures
            r == self.spec_code(),
    {
        match self {
            CommandStatus::DataAvailable => 0x2,
            CommandStatus::Timeout => 0x3,
            CommandStatus::ProcessingError => 0x4,
            CommandStatus::ExecutionFailure => 0x5,
            CommandStatus::TxDone => 0x6,
        }
    }

    pub fn try_from(value: u8) -> (r: Result<CommandStatus, CommandStatusError>)
        ensures
            r == CommandStatus::spec_try_from(value),
    {
        match value {
            0x2 => Ok(CommandStatus::DataAvailable),
            0x3 => Ok(CommandStatus::Timeout),
            0x4 => Ok(CommandStatus::ProcessingError),
            0x5 => Ok(CommandStatus::ExecutionFailure),
            0x6 => Ok(CommandStatus::TxDone),
            invalid => Err(CommandStatusError::InvalidValue(invalid)),
        }
    }
}

/// Decoding the code of a command status always recovers the status.
pub proof fn lemma_command_status_roundtrip(s: CommandStatus)
    ensures
        CommandStatus::spec_try_from(s.spec_code()) == Ok::<CommandStatus, CommandStatusError>(s),
{
}

/// Device status: operating mode and command execution status.
///
/// The status byte packs the operating mode in bits 6:4 and the command
/// status in bits 3:1; bits 7 and 0 are reserved and ignored.
#[derive(Debug, Clone, Copy, PartialEq, Eq, Structural)]
pub struct Status {
    /// Current operating mode of the device.
    pub mode: OperatingMode,
    /// Status of the last command execution.
    pub cmd_status: CommandStatus,
}

impl Status {
    /// The mode half of a status byte: bits 6:4.
    pub open spec fn spec_mode_bits(b: u8) -> u8 {
        (b / 16) % 8
    }

    /// The command-status half of a status byte: bits 3:1.
    pub open spec fn spec_cmd_bits(b: u8) -> u8 {
        (b / 2) % 8
    }

    /// Both halves of the status byte are validated independently; the
    /// error names which half failed and the offending value.
    pub open spec fn spec_from_bytes(bytes: Seq<u8>) -> Result<Status, StatusError>
        recommends
            bytes.len() == 1,
    {
        match OperatingMode::spec_try_from(Self::spec_mode_bits(bytes[0])) {
            Err(e) => Err(StatusError::InvalidMode(e)),
            Ok(mode) => match CommandStatus::spec_try_from(Self::spec_cmd_bits(bytes[0])) {
                Err(e) => Err(StatusError::InvalidCommandStatus(e)),
                Ok(cmd_status) => Ok(Status { mode, cmd_status }),
            },
        }
    }

    pub fn from_bytes(bytes: [u8; 1]) -> (r: Result<Status, StatusError>)
        ensures
            r == Status::spec_from_bytes(bytes@),
    {
        let mode_bits = (bytes[0] / 16) % 8;
        let cmd_bits = (bytes[0] / 2) % 8;
        let mode = match OperatingMode::try_from(mode_bits) {
            Ok(m) => m,
            Err(e) => {
                return Err(StatusError::InvalidMode(e));
            },
        };
        let cmd_status = match CommandStatus::try_from(cmd_bits) {
            Ok(c) => c,
            Err(e) => {
                return Err(StatusError::InvalidCommandStatus(e));
            },
        };
        Ok(Status { mode, cmd_status })
    }
}

/// GetStatus command (opcode 0xC0).
///
/// Reads the current operating mode and last command status.
#[derive(Debug, Clone, Copy)]
pub struct GetStatus;

impl GetStatus {
    pub fn id() -> (r: u8)
        ensures
            r == 0xC0,
    {
        0xC0
    }

    pub fn invoking_parameters(self) -> (r: NoParameters)
        ensures
            r == NoParameters,
    {
        NoParameters
    }
}

/// Response of GetRssiInst: status and instantaneous RSSI.
///
/// Signal power in dBm is `-rssi / 2`.
#[derive(Debug, Clone, Copy, PartialEq, Eq, Structural)]
pub struct GetRssiInstResponse {
    /// Device status from the first response byte.
    pub status: Status,
    /// Instantaneous RSSI value.
    pub rssi: u8,
}

impl GetRssiInstResponse {
    /// One status byte followed by the RSSI byte; an invalid status byte
    /// fails the whole decode.
    pub open spec fn spec_from_bytes(bytes: Seq<u8>) -> Result<GetRssiInstResponse, StatusError>
        recommends
            bytes.len() == 2,
    {
        match Status::spec_from_bytes(bytes.subrange(0, 1)) {
            Err(e) => Err(e),
            Ok(status) => Ok(GetRssiInstResponse { status, rssi: bytes[1] }),
        }
    }

    pub fn from_bytes(bytes: [u8; 2]) -> (r: Result<GetRssiInstResponse, StatusError>)
        ensures
            r == GetRssiInstResponse::spec_from_bytes(bytes@),
    {
        proof {
            assert(bytes@.subrange(0, 1) =~= seq![bytes@[0]]);
        }
        match Status::from_bytes([bytes[0]]) {
            Err(e) => Err(e),
            Ok(status) => Ok(GetRssiInstResponse { status, rssi: bytes[1] }),
        }
    }
}

/// GetRssiInst command (opcode 0x15).
///
/// Reads the instantaneous RSSI during reception.
#[derive(Debug, Clone, Copy)]
pub struct GetRssiInst;

impl GetRssiInst {
    pub fn id() -> (r: u8)
        ensures
            r == 0x15,
    {
        0x15
    }

    pub fn invoking_parameters(self) -> (r: NoParameters)
        ensures
            r == NoParameters,
    {
        NoParameters
    }
}

/// Received packet location in the data buffer.
#[derive(Debug, Clone, Copy, PartialEq, Eq, Structural)]
pub struct RxBufferStatus {
    /// Length of the received payload in bytes.
    pub payload_length: u8,
    /// Offset of the first payload byte from the RX base address.
    pub buffer_pointer: u8,
}

impl RxBufferStatus {
    /// The payload length byte followed by the buffer pointer byte.
    pub open spec fn spec_from_bytes(bytes: Seq<u8>) -> RxBufferStatus
        recommends
            bytes.len() == 2,
    {
        RxBufferStatus { payload_length: bytes[0], buffer_pointer: bytes[1] }
    }

    pub fn from_bytes(bytes: [u8; 2]) -> (r: RxBufferStatus)
        ensures
            r == RxBufferStatus::spec_from_bytes(bytes@),
    {
        RxBufferStatus { payload_length: bytes[0], buffer_pointer: bytes[1] }
    }
}

/// Response of GetRxBufferStatus: status and RX buffer information.
#[derive(Debug, Clone, Copy, PartialEq, Eq, Structural)]
pub struct GetRxBufferStatusResponse {
    /// Device status from the first response byte.
    pub status: Status,
    /// RX buffer information.
    pub buffer_status: RxBufferStatus,
}

impl GetRxBufferStatusResponse {
    /// One status byte followed by the two buffer-status bytes; an
    /// invalid status byte fails the whole decode.
    pub open spec fn spec_from_bytes(bytes: Seq<u8>) -> Result<
        GetRxBufferStatusResponse,
        StatusError,
    >
        recommends
            bytes.len() == 3,
    {
        match Status::spec_from_bytes(bytes.subrange(0, 1)) {
            Err(e) => Err(e),
            Ok(status) => Ok(
                GetRxBufferStatusResponse {
                    status,
                    buffer_status: RxBufferStatus::spec_from_bytes(bytes.subrange(1, 3)),
                },
            ),
        }
    }

    pub fn from_bytes(bytes: [u8; 3]) -> (r: Result<GetRxBufferStatusResponse, StatusError>)
        ensures
            r == GetRxBufferStatusResponse::spec_from_bytes(bytes@),
    {
        proof {
            assert(bytes@.subrange(0, 1) =~= seq![bytes@[0]]);
            assert(bytes@.subrange(1, 3) =~= seq![bytes@[1], bytes@[2]]);
        }
        match Status::from_bytes([bytes[0]]) {
            Err(e) => Err(e),
            Ok(status) => Ok(
                GetRxBufferStatusResponse {
                    status,
                    buffer_status: RxBufferStatus::from_bytes([bytes[1], bytes[2]]),
                },
            ),
        }
    }
}

/// GetRxBufferStatus command (opcode 0x13).
///
/// Reads the length and location of the last received packet.
#[derive(Debug, Clone, Copy)]
pub struct GetRxBufferStatus;

impl GetRxBufferStatus {
    pub fn id() -> (r: u8)
        ensures
            r == 0x13,
    {
        0x13
    }

    pub fn invoking_parameters(self) -> (r: NoParameters)
        ensures
            r == NoParameters,
    {
        NoParameters
    }
}

/// Raw packet status bytes.
///
/// GFSK: RX status, RSSI at sync word, average RSSI. LoRa: packet RSSI,
/// packet SNR, signal RSSI. The interpretation depends on the packet
/// type, so the three bytes are kept raw.
#[derive(Debug, Clone, Copy, PartialEq, Eq)]
pub struct PacketStatus {
    /// The three status bytes as returned by the chip.
    pub status: [u8; 3],
}

impl PacketStatus {
    /// The three bytes, unchanged.
    pub open spec fn spec_from_bytes(bytes: Seq<u8>) -> PacketStatus
        recommends
            bytes.len() == 3,
    {
        PacketStatus { status: [bytes[0], bytes[1], bytes[2]] }
    }

    pub fn from_bytes(bytes: [u8; 3]) -> (r: PacketStatus)
        ensures
            r == PacketStatus::spec_from_bytes(bytes@),
    {
        proof {
            assert(bytes =~= PacketStatus::spec_from_bytes(bytes@).status);
        }
        PacketStatus { status: bytes }
    }
}

/// Response of GetPacketStatus: status and raw packet status bytes.
#[derive(Debug, Clone, Copy, PartialEq, Eq)]
pub struct GetPacketStatusResponse {
    /// Device status from the first response byte.
    pub status: Status,
    /// Packet status information.
    pub packet_status: PacketStatus,
}

impl GetPacketStatusResponse {
    /// One status byte followed by the three packet status bytes; an
    /// invalid status byte fails the whole decode.
    pub open spec fn spec_from_bytes(bytes: Seq<u8>) -> Result<
        GetPacketStatusResponse,
        StatusError,
    >
        recommends
            bytes.len() == 4,
    {
        match Status::spec_from_bytes(bytes.subrange(0, 1)) {
            Err(e) => Err(e),
            Ok(status) => Ok(
                GetPacketStatusResponse {
                    status,
                    packet_status: PacketStatus::spec_from_bytes(bytes.subrange(1, 4)),
                },
            ),
        }
    }

    pub fn from_bytes(bytes: [u8; 4]) -> (r: Result<GetPacketStatusResponse, StatusError>)
        ensures
            r == GetPacketStatusResponse::spec_from_bytes(bytes@),
    {
        proof {
            assert(bytes@.subrange(0, 1) =~= seq![bytes@[0]]);
            assert(bytes@.subrange(1, 4) =~= seq![bytes@[1], bytes@[2], bytes@[3]]);
        }
        match Status::from_bytes([bytes[0]]) {
            Err(e) => Err(e),
            Ok(status) => {
                let packet_status = PacketStatus::from_bytes([bytes[1], bytes[2], bytes[3]]);
                proof {
                    assert(packet_status.status@ =~= bytes@.subrange(1, 4));
                }
                Ok(GetPacketStatusResponse { status, packet_status })
            },
        }
    }
}

/// GetPacketStatus command (opcode 0x14).
///
/// Reads the detailed status of the last received packet.
#[derive(Debug, Clone, Copy)]
pub struct GetPacketStatus;

impl GetPacketStatus {
    pub fn id() -> (r: u8)
        ensures
            r == 0x14,
    {
        0x14
    }

    pub fn invoking_parameters(self) -> (r: NoParameters)
        ensures
            r == NoParameters,
    {
        NoParameters
    }
}

/// Device error flags.
#[derive(Debug, Clone, Copy, PartialEq, Eq, Structural)]
pub struct DeviceErrors {
    /// RC64k oscillator calibration error.
    pub rc64k_calib_err: bool,
    /// RC13M oscillator calibration error.
    pub rc13m_calib_err: bool,
    /// PLL calibration error.
    pub pll_calib_err: bool,
    /// ADC calibration error.
    pub adc_calib_err: bool,
    /// Image rejection calibration error.
    pub img_calib_err: bool,
    /// Crystal oscillator startup error; normal with a TCXO at startup.
    pub xosc_start_err: bool,
    /// PLL lock error.
    pub pll_lock_err: bool,
    /// Power amplifier ramping error.
    pub pa_ramp_err: bool,
}

impl DeviceErrors {
    /// The calibration and startup flags sit in bits 0 through 6 of the
    /// low byte; the PA ramp flag is bit 0 of the high byte.
    pub open spec fn spec_from_bytes(bytes: Seq<u8>) -> DeviceErrors
        recommends
            bytes.len() == 2,
    {
        DeviceErrors {
            rc64k_calib_err: bytes[1] % 2 == 1,
            rc13m_calib_err: (bytes[1] / 2) % 2 == 1,
            pll_calib_err: (bytes[1] / 4) % 2 == 1,
            adc_calib_err: (bytes[1] / 8) % 2 == 1,
            img_calib_err: (bytes[1] / 16) % 2 == 1,
            xosc_start_err: (bytes[1] / 32) % 2 == 1,
            pll_lock_err: (bytes[1] / 64) % 2 == 1,
            pa_ramp_err: bytes[0] % 2 == 1,
        }
    }

    pub fn from_bytes(bytes: [u8; 2]) -> (r: DeviceErrors)
        ensures
            r == DeviceErrors::spec_from_bytes(bytes@),
    {
        DeviceErrors {
            rc64k_calib_err: bytes[1] % 2 == 1,
            rc13m_calib_err: (bytes[1] / 2) % 2 == 1,
            pll_calib_err: (bytes[1] / 4) % 2 == 1,
            adc_calib_err: (bytes[1] / 8) % 2 == 1,
            img_calib_err: (bytes[1] / 16) % 2 == 1,
            xosc_start_err: (bytes[1] / 32) % 2 == 1,
            pll_lock_err: (bytes[1] / 64) % 2 == 1,
            pa_ramp_err: bytes[0] % 2 == 1,
        }
    }
}

/// Response of GetDeviceErrors: status and error flags.
#[derive(Debug, Clone, Copy, PartialEq, Eq, Structural)]
pub struct GetDeviceErrorsResponse {
    /// Device status from the first response byte.
    pub status: Status,
    /// Device error flags.
    pub errors: DeviceErrors,
}

impl GetDeviceErrorsResponse {
    /// One status byte followed by the two error-flag bytes; an invalid
    /// status byte fails the whole decode.
    pub open spec fn spec_from_bytes(bytes: Seq<u8>) -> Result<
        GetDeviceErrorsResponse,
        StatusError,
    >
        recommends
            bytes.len() == 3,
    {
        match Status::spec_from_bytes(bytes.subrange(0, 1)) {
            Err(e) => Err(e),
            Ok(status) => Ok(
                GetDeviceErrorsResponse {
                    status,
                    errors: DeviceErrors::spec_from_bytes(bytes.subrange(1, 3)),
                },
            ),
        }
    }

    pub fn from_bytes(bytes: [u8; 3]) -> (r: Result<GetDeviceErrorsResponse, StatusError>)
        ensures
            r == GetDeviceErrorsResponse::spec_from_bytes(bytes@),
    {
        proof {
            assert(bytes@.subrange(0, 1) =~= seq![bytes@[0]]);
            assert(bytes@.subrange(1, 3) =~= seq![bytes@[1], bytes@[2]]);
        }
        match Status::from_bytes([bytes[0]]) {
            Err(e) => Err(e),
            Ok(status) => Ok(
                GetDeviceErrorsResponse {
                    status,
                    errors: DeviceErrors::from_bytes([bytes[1], bytes[2]]),
                },
            ),
        }
    }
}

/// GetDeviceErrors command (opcode 0x17).
///
/// Reads the accumulated device error flags.
#[derive(Debug, Clone, Copy)]
pub struct GetDeviceErrors;

impl GetDeviceErrors {
    pub fn id() -> (r: u8)
        ensures
            r == 0x17,
    {
        0x17
    }

    pub fn invoking_parameters(self) -> (r: NoParameters)
        ensures
            r == NoParameters,
    {
        NoParameters
    }
}

/// ClearDeviceErrors command (opcode 0x07).
///
/// Clears all device error flags at once.
#[derive(Debug, Clone, Copy)]
pub struct ClearDeviceErrors;

impl ClearDeviceErrors {
    pub fn id() -> (r: u8)
        ensures
            r == 0x07,
    {
        0x07
    }

    pub fn invoking_parameters(self) -> (r: NoParameters)
        ensures
            r == NoParameters,
    {
        NoParameters
    }
}

/// Packet reception statistics.
#[derive(Debug, Clone, Copy, PartialEq, Eq, Structural)]
pub struct Stats {
    /// Number of packets received.
    pub packets_received: u16,
    /// Number of packets with a payload CRC error.
    pub packets_crc_error: u16,
    /// Number of packets with a header error.
    pub packets_header_error: u16,
}

impl Stats {
    /// Three 16-bit big-endian counters.
    pub open spec fn spec_from_bytes(bytes: Seq<u8>) -> Stats
        recommends
            bytes.len() == 6,
    {
        Stats {
            packets_received: spec_u16_from_be(bytes[0], bytes[1]),
            packets_crc_error: spec_u16_from_be(bytes[2], bytes[3]),
            packets_header_error: spec_u16_from_be(bytes[4], bytes[5]),
        }
    }

    pub fn from_bytes(bytes: [u8; 6]) -> (r: Stats)
        ensures
            r == Stats::spec_from_bytes(bytes@),
    {
        Stats {
            packets_received: u16_from_be(bytes[0], bytes[1]),
            packets_crc_error: u16_from_be(bytes[2], bytes[3]),
            packets_header_error: u16_from_be(bytes[4], bytes[5]),
        }
    }
}

/// Response of GetStats: status and packet statistics.
#[derive(Debug, Clone, Copy, PartialEq, Eq, Structural)]
pub struct GetStatsResponse {
    /// Device status from the first response byte.
    pub status: Status,
    /// Packet reception statistics.
    pub stats: Stats,
}

impl GetStatsResponse {
    /// One status byte followed by the six statistics bytes; an invalid
    /// status byte fails the whole decode.
    pub open spec fn spec_from_bytes(bytes: Seq<u8>) -> Result<GetStatsResponse, StatusError>
        recommends
            bytes.len() == 7,
    {
        match Status::spec_from_bytes(bytes.subrange(0, 1)) {
            Err(e) => Err(e),
            Ok(status) => Ok(
                GetStatsResponse { status, stats: Stats::spec_from_bytes(bytes.subrange(1, 7)) },
            ),
        }
    }

    pub fn from_bytes(bytes: [u8; 7]) -> (r: Result<GetStatsResponse, StatusError>)
        ensures
            r == GetStatsResponse::spec_from_bytes(bytes@),
    {
        proof {
            assert(bytes@.subrange(0, 1) =~= seq![bytes@[0]]);
            assert(bytes@.subrange(1, 7) =~= seq![
                bytes@[1],
                bytes@[2],
                bytes@[3],
                bytes@[4],
                bytes@[5],
                bytes@[6],
            ]);
        }
        match Status::from_bytes([bytes[0]]) {
            Err(e) => Err(e),
            Ok(status) => Ok(
                GetStatsResponse {
                    status,
                    stats: Stats::from_bytes(
                        [bytes[1], bytes[2], bytes[3], bytes[4], bytes[5], bytes[6]],
                    ),
                },
            ),
        }
    }
}

/// GetStats command (opcode 0x10).
///
/// Reads the packet reception statistics.
#[derive(Debug, Clone, Copy)]
pub struct GetStats;

impl GetStats {
    pub fn id() -> (r: u8)
        ensures
            r == 0x10,
    {
        0x10
    }

    pub fn invoking_parameters(self) -> (r: NoParameters)
        ensures
            r == NoParameters,
    {
        NoParameters
    }
}

/// ResetStats command (opcode 0x00).
///
/// Resets all packet reception statistics to zero.
#[derive(Debug, Clone, Copy)]
pub struct ResetStats;

impl ResetStats {
    pub fn id() -> (r: u8)
        ensures
            r == 0x00,
    {
        0x00
    }

    pub fn invoking_parameters(self) -> (r: NoParameters)
        ensures
            r == NoParameters,
    {
        NoParameters
    }
}

} // verus!
