//! Operational mode commands.
//!
//! These commands move the radio between sleep, standby, frequency
//! synthesis, transmit and receive modes, and configure power
//! management, calibration and the power amplifier. Most configuration
//! must be issued in STDBY_RC mode.

use crate::commands::NoParameters;
use crate::wire::spec_u32_be;
use vstd::prelude::*;

verus! {

/// Sleep mode behaviour: configuration retention and wake-up sources.
#[derive(Debug, Clone, Copy, PartialEq, Eq, Structural)]
pub struct SleepConfig {
    /// When set the configuration is retained in sleep (warm start,
    /// bit 2); when clear all registers reset to defaults (cold start).
    pub warm_start: bool,
    /// When set the device can wake on RTC timeout (bit 0); when clear
    /// it wakes on the NSS falling edge only.
    pub rtc_wakeup: bool,
}

impl SleepConfig {
    /// The configuration byte: warm start in bit 2, RTC wake-up in
    /// bit 0.
    pub open spec fn spec_bits(self) -> u8 {
        ((if self.warm_start {
            4int
        } else {
            0int
        }) + (if self.rtc_wakeup {
            1int
        } else {
            0int
        })) as u8
    }

    pub open spec fn spec_to_bytes(self) -> Seq<u8> {
        seq![self.spec_bits()]
    }

    pub fn to_bytes(self) -> (r: [u8; 1])
        ensures
            r@ == self.spec_to_bytes(),
    {
        let bits = (if self.warm_start {
            4u8
        } else {
            0u8
        }) + (if self.rtc_wakeup {
            1u8
        } else {
            0u8
        });
        let r = [bits];
        proof {
            assert(r@ =~= self.spec_to_bytes());
        }
        r
    }
}

/// SetSleep command (opcode 0x84).
///
/// Puts the radio into sleep mode for minimum power consumption; only
/// valid from standby.
#[derive(Debug, Clone, Copy)]
pub struct SetSleep {
    /// Sleep configuration.
    pub config: SleepConfig,
}

impl SetSleep {
    pub fn id() -> (r: u8)
        ensures
            r == 0x84,
    {
        0x84
    }

    pub fn invoking_parameters(self) -> (r: SleepConfig)
        ensures
            r == self.config,
    {
        self.config
    }
}

/// Standby mode oscillator selection.
#[derive(Debug, Clone, Copy, PartialEq, Eq, Structural)]
pub enum StandbyConfig {
    /// Run on the 13 MHz RC oscillator (wire code 0x00); used for
    /// configuration and lowest power.
    Rc,
    /// Run on the 32 MHz crystal (wire code 0x01); faster transition to
    /// TX and RX.
    Xosc,
}

impl StandbyConfig {
    /// The chip-defined wire code of each standby configuration.
    pub open spec fn spec_code(self) -> u8 {
        match self {
            StandbyConfig::Rc => 0x00,
            StandbyConfig::Xosc => 0x01,
        }
    }

    pub open spec fn spec_to_bytes(self) -> Seq<u8> {
        seq![self.spec_code()]
    }

    pub fn to_bytes(self) -> (r: [u8; 1])
        ensures
            r@ == self.spec_to_bytes(),
    {
        let r = [match self {
            StandbyConfig::Rc => 0x00,
            StandbyConfig::Xosc => 0x01,
        }];
        proof {
            assert(r@ =~= self.spec_to_bytes());
        }
        r
    }
}

/// SetStandby command (opcode 0x80).
///
/// Puts the radio into standby mode for configuration; STDBY_RC is the
/// mode after power-up and the one most configuration requires.
#[derive(Debug, Clone, Copy)]
pub struct SetStandby {
    /// Standby mode configuration.
    pub config: StandbyConfig,
}

impl SetStandby {
    pub fn id() -> (r: u8)
        ensures
            r == 0x80,
    {
        0x80
    }

    pub fn invoking_parameters(self) -> (r: StandbyConfig)
        ensures
            r == self.config,
    {
        self.config
    }
}

/// SetFs command (opcode 0xC1).
///
/// Puts the radio into frequency synthesis mode with the PLL locked to
/// the configured frequency.
#[derive(Debug, Clone, Copy)]
pub struct SetFs;

impl SetFs {
    pub fn id() -> (r: u8)
        ensures
            r == 0xC1,
    {
        0xC1
    }

    pub fn invoking_parameters(self) -> (r: NoParameters)
        ensures
            r == NoParameters,
    {
        NoParameters
    }
}

/// Timeout for TX and RX operations, in steps of 15.625 microseconds.
#[derive(Debug, Clone, Copy, PartialEq, Eq, Structural)]
pub struct Timeout(pub u32);

impl Timeout {
    /// The four big-endian bytes of the timeout value.
    pub open spec fn spec_to_bytes(self) -> Seq<u8> {
        spec_u32_be(self.0)
    }

    pub fn to_bytes(self) -> (r: [u8; 4])
        ensures
            r@ == self.spec_to_bytes(),
    {
        let v = self.0;
        let r = [
            (v / 0x1000000) as u8,
            ((v / 0x10000) % 0x100) as u8,
            ((v / 0x100) % 0x100) as u8,
            (v % 0x100) as u8,
        ];
        proof {
            assert(r@ =~= self.spec_to_bytes());
        }
        r
    }
}

/// SetTx command (opcode 0x83).
///
/// Puts the radio into transmit mode; a zero timeout disables the
/// timeout.
#[derive(Debug, Clone, Copy)]
pub struct SetTx {
    /// Timeout in steps of 15.625 microseconds; at most 262 seconds.
    pub timeout: Timeout,
}

impl SetTx {
    pub fn id() -> (r: u8)
        ensures
            r == 0x83,
    {
        0x83
    }

    pub fn invoking_parameters(self) -> (r: Timeout)
        ensures
            r == self.timeout,
    {
        self.timeout
    }
}

/// RX operation mode.
#[derive(Debug, Clone, Copy, PartialEq, Eq, Structural)]
pub enum RxMode {
    /// Return after receiving a single packet.
    Single,
    /// Continuous reception until stopped by command.
    Continuous,
    /// Return after the given timeout or a packet reception; timeout in
    /// steps of 15.625 microseconds, at most 262 seconds.
    Timed(u32),
}

impl RxMode {
    /// The timeout value each RX mode stands for: 0x000000 for single,
    /// 0xFFFFFF for continuous, the given value for timed reception.
    pub open spec fn spec_timeout(self) -> Timeout {
        match self {
            RxMode::Single => Timeout(0x000000),
            RxMode::Continuous => Timeout(0xFFFFFF),
            RxMode::Timed(timeout) => Timeout(timeout),
        }
    }
}

impl From<RxMode> for Timeout {
    fn from(mode: RxMode) -> (r: Timeout) {
        match mode {
            RxMode::Single => Timeout(0x000000),
            RxMode::Continuous => Timeout(0xFFFFFF),
            RxMode::Timed(timeout) => Timeout(timeout),
        }
    }
}

impl vstd::std_specs::convert::FromSpecImpl<RxMode> for Timeout {
    open spec fn obeys_from_spec() -> bool {
        true
    }

    open spec fn from_spec(mode: RxMode) -> Timeout {
        mode.spec_timeout()
    }
}

/// SetRx command (opcode 0x82).
///
/// Puts the radio into receive mode.
#[derive(Debug, Clone, Copy)]
pub struct SetRx {
    /// RX operation mode.
    pub mode: RxMode,
}

impl SetRx {
    pub fn id() -> (r: u8)
        ensures
            r == 0x82,
    {
        0x82
    }

    pub fn invoking_parameters(self) -> (r: Timeout)
        ensures
            r == self.mode.spec_timeout(),
    {
        Timeout::from(self.mode)
    }
}

/// Controls when the RX timeout timer is stopped.
#[derive(Debug, Clone, Copy, PartialEq, Eq, Structural)]
pub struct StopTimerOnPreambleConfig {
    /// When set the timer stops on preamble detection (bit 0); when
    /// clear it stops on sync word or header detection.
    pub stop_on_preamble: bool,
}

impl StopTimerOnPreambleConfig {
    /// A single byte: 1 to stop on preamble, 0 otherwise.
    pub open spec fn spec_to_bytes(self) -> Seq<u8> {
        seq![
            if self.stop_on_preamble {
                1u8
            } else {
                0u8
            },
        ]
    }

    pub fn to_bytes(self) -> (r: [u8; 1])
        ensures
            r@ == self.spec_to_bytes(),
    {
        let r = [
            if self.stop_on_preamble {
                1u8
            } else {
                0u8
            },
        ];
        proof {
            assert(r@ =~= self.spec_to_bytes());
        }
        r
    }
}

/// StopTimerOnPreamble command (opcode 0x9F).
///
/// Selects whether the RX timeout timer stops on preamble detection or
/// on sync word or header detection.
#[derive(Debug, Clone, Copy)]
pub struct StopTimerOnPreamble {
    /// Stop on preamble configuration.
    pub config: StopTimerOnPreambleConfig,
}

impl StopTimerOnPreamble {
    pub fn id() -> (r: u8)
        ensures
            r == 0x9F,
    {
        0x9F
    }

    pub fn invoking_parameters(self) -> (r: StopTimerOnPreambleConfig)
        ensures
            r == self.config,
    {
        self.config
    }
}

/// Periodic wake-up configuration for duty-cycled reception.
#[derive(Debug, Clone, Copy, PartialEq, Eq, Structural)]
pub struct RxDutyCycleConfig {
    /// Time in RX mode, in steps of 15.625 microseconds.
    pub rx_period: u32,
    /// Time in sleep mode, in steps of 15.625 microseconds.
    pub sleep_period: u32,
}

impl RxDutyCycleConfig {
    /// The RX period then the sleep period, each as four big-endian
    /// bytes.
    pub open spec fn spec_to_bytes(self) -> Seq<u8> {
        spec_u32_be(self.rx_period) + spec_u32_be(self.sleep_period)
    }

    pub fn to_bytes(self) -> (r: [u8; 8])
        ensures
            r@ == self.spec_to_bytes(),
    {
        let a = self.rx_period;
        let b = self.sleep_period;
        let r = [
            (a / 0x1000000) as u8,
            ((a / 0x10000) % 0x100) as u8,
            ((a / 0x100) % 0x100) as u8,
            (a % 0x100) as u8,
            (b / 0x1000000) as u8,
            ((b / 0x10000) % 0x100) as u8,
            ((b / 0x100) % 0x100) as u8,
            (b % 0x100) as u8,
        ];
        proof {
            assert(r@ =~= self.spec_to_bytes());
        }
        r
    }
}

/// SetRxDutyCycle command (opcode 0x94).
///
/// Configures periodic wake-up for packet reception; the loop ends on a
/// received packet or a SetStandby command.
#[derive(Debug, Clone, Copy)]
pub struct SetRxDutyCycle {
    /// Duty cycle configuration.
    pub config: RxDutyCycleConfig,
}

impl SetRxDutyCycle {
    pub fn id() -> (r: u8)
        ensures
            r == 0x94,
    {
        0x94
    }

    pub fn invoking_parameters(self) -> (r: RxDutyCycleConfig)
        ensures
            r == self.config,
    {
        self.config
    }
}

/// SetCad command (opcode 0xC5).
///
/// Starts channel activity detection; LoRa packet type only.
#[derive(Debug, Clone, Copy)]
pub struct SetCad;

impl SetCad {
    pub fn id() -> (r: u8)
        ensures
            r == 0xC5,
    {
        0xC5
    }

    pub fn invoking_parameters(self) -> (r: NoParameters)
        ensures
            r == NoParameters,
    {
        NoParameters
    }
}

/// SetTxContinuousWave command (opcode 0xD1).
///
/// Transmits an unmodulated carrier at the configured frequency; a test
/// command for measuring RF performance.
#[derive(Debug, Clone, Copy)]
pub struct SetTxContinuousWave;

impl SetTxContinuousWave {
    pub fn id() -> (r: u8)
        ensures
            r == 0xD1,
    {
        0xD1
    }

    pub fn invoking_parameters(self) -> (r: NoParameters)
        ensures
            r == NoParameters,
    {
        NoParameters
    }
}

/// SetTxInfinitePreamble command (opcode 0xD2).
///
/// Transmits preamble indefinitely; a test command for measuring
/// modulation.
#[derive(Debug, Clone, Copy)]
pub struct SetTxInfinitePreamble;

impl SetTxInfinitePreamble {
    pub fn id() -> (r: u8)
        ensures
            r == 0xD2,
    {
        0xD2
    }

    pub fn invoking_parameters(self) -> (r: NoParameters)
        ensures
            r == NoParameters,
    {
        NoParameters
    }
}

/// Voltage regulator configuration.
#[derive(Debug, Clone, Copy, PartialEq, Eq, Structural)]
pub enum RegulatorMode {
    /// Only the LDO is used in all modes (wire code 0x00).
    LdoOnly,
    /// DC-DC plus LDO for STDBY_XOSC, FS, RX and TX (wire code 0x01);
    /// about half the power, needs an external inductor.
    DcDcLdo,
}

impl RegulatorMode {
    /// The chip-defined wire code of each regulator mode.
    pub open spec fn spec_code(self) -> u8 {
        match self {
            RegulatorMode::LdoOnly => 0x00,
            RegulatorMode::DcDcLdo => 0x01,
        }
    }

    pub open spec fn spec_to_bytes(self) -> Seq<u8> {
        seq![self.spec_code()]
    }

    pub fn to_bytes(self) -> (r: [u8; 1])
        ensures
            r@ == self.spec_to_bytes(),
    {
        let r = [match self {
            RegulatorMode::LdoOnly => 0x00,
            RegulatorMode::DcDcLdo => 0x01,
        }];
        proof {
            assert(r@ =~= self.spec_to_bytes());
        }
        r
    }
}

/// SetRegulatorMode command (opcode 0x96).
///
/// Configures the voltage regulator; must be issued in STDBY_RC mode.
#[derive(Debug, Clone, Copy)]
pub struct SetRegulatorMode {
    /// Regulator mode selection.
    pub mode: RegulatorMode,
}

impl SetRegulatorMode {
    pub fn id() -> (r: u8)
        ensures
            r == 0x96,
    {
        0x96
    }

    pub fn invoking_parameters(self) -> (r: RegulatorMode)
        ensures
            r == self.mode,
    {
        self.mode
    }
}

/// Selection of the blocks to calibrate.
#[derive(Debug, Clone, Copy, PartialEq, Eq, Structural)]
pub struct CalibrationConfig {
    /// RC64k oscillator calibration (bit 0).
    pub rc64k: bool,
    /// RC13M oscillator calibration (bit 1).
    pub rc13m: bool,
    /// PLL calibration (bit 2).
    pub pll: bool,
    /// ADC pulse calibration (bit 3).
    pub adc_pulse: bool,
    /// ADC bulk N calibration (bit 4).
    pub adc_bulk_n: bool,
    /// ADC bulk P calibration (bit 5).
    pub adc_bulk_p: bool,
    /// Image rejection calibration (bit 6).
    pub image: bool,
}

impl CalibrationConfig {
    /// The selection byte: the sum of the weights of the selected
    /// blocks.
    pub open spec fn spec_bits(self) -> u8 {
        ((if self.rc64k {
            1int
        } else {
            0int
        }) + (if self.rc13m {
            2int
        } else {
            0int
        }) + (if self.pll {
            4int
        } else {
            0int
        }) + (if self.adc_pulse {
            8int
        } else {
            0int
        }) + (if self.adc_bulk_n {
            16int
        } else {
            0int
        }) + (if self.adc_bulk_p {
            32int
        } else {
            0int
        }) + (if self.image {
            64int
        } else {
            0int
        })) as u8
    }

    pub open spec fn spec_to_bytes(self) -> Seq<u8> {
        seq![self.spec_bits()]
    }

    pub fn to_bytes(self) -> (r: [u8; 1])
        ensures
            r@ == self.spec_to_bytes(),
    {
        let bits = (if self.rc64k {
            1u8
        } else {
            0u8
        }) + (if self.rc13m {
            2
        } else {
            0
        }) + (if self.pll {
            4
        } else {
            0
        }) + (if self.adc_pulse {
            8
        } else {
            0
        }) + (if self.adc_bulk_n {
            16
        } else {
            0
        }) + (if self.adc_bulk_p {
            32
        } else {
            0
        }) + (if self.image {
            64
        } else {
            0
        });
        let r = [bits];
        proof {
            assert(r@ =~= self.spec_to_bytes());
        }
        r
    }
}

/// Calibrate command (opcode 0x89).
///
/// Calibrates the selected blocks; must be issued in STDBY_RC mode.
#[derive(Debug, Clone, Copy)]
pub struct Calibrate {
    /// Calibration configuration.
    pub config: CalibrationConfig,
}

impl Calibrate {
    pub fn id() -> (r: u8)
        ensures
            r == 0x89,
    {
        0x89
    }

    pub fn invoking_parameters(self) -> (r: CalibrationConfig)
        ensures
            r == self.config,
    {
        self.config
    }
}

/// Frequency range for image rejection calibration.
#[derive(Debug, Clone, Copy, PartialEq, Eq, Structural)]
pub struct ImageCalibConfig {
    /// Start frequency code.
    pub freq1: u8,
    /// Stop frequency code.
    pub freq2: u8,
}

impl ImageCalibConfig {
    /// The start code followed by the stop code.
    pub open spec fn spec_to_bytes(self) -> Seq<u8> {
        seq![self.freq1, self.freq2]
    }

    pub fn to_bytes(self) -> (r: [u8; 2])
        ensures
            r@ == self.spec_to_bytes(),
    {
        let r = [self.freq1, self.freq2];
        proof {
            assert(r@ =~= self.spec_to_bytes());
        }
        r
    }
}

/// CalibrateImage command (opcode 0x98).
///
/// Calibrates image rejection for the given frequency range; must be
/// issued in STDBY_RC mode.
#[derive(Debug, Clone, Copy)]
pub struct CalibrateImage {
    /// Image calibration configuration.
    pub config: ImageCalibConfig,
}

impl CalibrateImage {
    pub fn id() -> (r: u8)
        ensures
            r == 0x98,
    {
        0x98
    }

    pub fn invoking_parameters(self) -> (r: ImageCalibConfig)
        ensures
            r == self.config,
    {
        self.config
    }
}

/// Device selection for the PA configuration.
#[derive(Debug, Clone, Copy, PartialEq, Eq, Structural)]
pub enum DeviceSelect {
    /// SX1262 (wire code 0x00), up to +22 dBm.
    Sx1262,
    /// SX1261 (wire code 0x01), up to +15 dBm.
    Sx1261,
}

impl DeviceSelect {
    /// The chip-defined wire code of each device.
    pub open spec fn spec_code(self) -> u8 {
        match self {
            DeviceSelect::Sx1262 => 0x00,
            DeviceSelect::Sx1261 => 0x01,
        }
    }

    pub fn code(self) -> (r: u8)
        ensures
            r == self.spec_code(),
    {
        match self {
            DeviceSelect::Sx1262 => 0x00,
            DeviceSelect::Sx1261 => 0x01,
        }
    }
}

/// Power amplifier configuration parameters.
#[derive(Debug, Clone, Copy, PartialEq, Eq, Structural)]
pub struct PaConfig {
    /// PA duty cycle; controls efficiency.
    pub duty_cycle: u8,
    /// Maximum output power control, 0x00 to 0x07; SX1262 only.
    pub hp_max: u8,
    /// Device selection.
    pub device_sel: DeviceSelect,
    /// PA lookup table selector; always 0x01.
    pub pa_lut: u8,
}

impl PaConfig {
    /// Duty cycle, HP max, device code, PA LUT, one byte each.
    pub open spec fn spec_to_bytes(self) -> Seq<u8> {
        seq![self.duty_cycle, self.hp_max, self.device_sel.spec_code(), self.pa_lut]
    }

    pub fn to_bytes(self) -> (r: [u8; 4])
        ensures
            r@ == self.spec_to_bytes(),
    {
        let r = [self.duty_cycle, self.hp_max, self.device_sel.code(), self.pa_lut];
        proof {
            assert(r@ =~= self.spec_to_bytes());
        }
        r
    }
}

/// SetPaConfig command (opcode 0x95).
///
/// Configures the power amplifier; must precede SetTxParams.
#[derive(Debug, Clone, Copy)]
pub struct SetPaConfig {
    /// PA configuration.
    pub config: PaConfig,
}

impl SetPaConfig {
    pub fn id() -> (r: u8)
        ensures
            r == 0x95,
    {
        0x95
    }

    pub fn invoking_parameters(self) -> (r: PaConfig)
        ensures
            r == self.config,
    {
        self.config
    }
}

/// Mode entered after a TX or RX operation completes.
#[derive(Debug, Clone, Copy, PartialEq, Eq, Structural)]
pub enum FallbackMode {
    /// Frequency synthesis mode (wire code 0x40); fastest turnaround.
    Fs,
    /// STDBY_XOSC mode (wire code 0x30).
    StdbyXosc,
    /// STDBY_RC mode (wire code 0x20); the default, lowest power.
    StdbyRc,
}

impl FallbackMode {
    /// The chip-defined wire code of each fallback mode.
    pub open spec fn spec_code(self) -> u8 {
        match self {
            FallbackMode::Fs => 0x40,
            FallbackMode::StdbyXosc => 0x30,
            FallbackMode::StdbyRc => 0x20,
        }
    }

    pub open spec fn spec_to_bytes(self) -> Seq<u8> {
        seq![self.spec_code()]
    }

    pub fn to_bytes(self) -> (r: [u8; 1])
        ensures
            r@ == self.spec_to_bytes(),
    {
        let r = [match self {
            FallbackMode::Fs => 0x40,
            FallbackMode::StdbyXosc => 0x30,
            FallbackMode::StdbyRc => 0x20,
        }];
        proof {
            assert(r@ =~= self.spec_to_bytes());
        }
        r
    }
}

/// SetRxTxFallbackMode command (opcode 0x93).
///
/// Selects the mode entered after a packet operation completes.
#[derive(Debug, Clone, Copy)]
pub struct SetRxTxFallbackMode {
    /// Fallback mode selection.
    pub mode: FallbackMode,
}

impl SetRxTxFallbackMode {
    pub fn id() -> (r: u8)
        ensures
            r == 0x93,
    {
        0x93
    }

    pub fn invoking_parameters(self) -> (r: FallbackMode)
        ensures
            r == self.mode,
    {
        self.mode
    }
}

} // verus!
