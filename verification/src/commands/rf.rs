//! RF, modulation and packet configuration commands.
//!
//! These commands set the RF frequency, select the packet framing mode
//! (GFSK or LoRa), and configure modulation, packet format, channel
//! activity detection and the data buffer base addresses.

use crate::wire::{spec_u24_be, spec_u32_be, spec_i8_byte, i8_byte};
use vstd::prelude::*;

verus! {

/// Reference oscillator frequency in Hz assumed by the register transforms.
pub const FXTAL_HZ: u32 = 32_000_000;

/// The frequency register value: `(frequency * 2^25) / ref_hz`, truncated
/// to 32 bits. Division is truncating; no rounding to nearest is applied.
pub open spec fn spec_frequency_to_register(frequency: u32, ref_hz: u32) -> u32 {
    ((frequency * 0x2000000) / (ref_hz as int) % 0x100000000) as u32
}

/// The bit-rate register value: `(32 * ref_hz) / bit_rate`, truncated
/// to 32 bits; only the low 24 bits reach the wire.
pub open spec fn spec_bit_rate_to_register(bit_rate: u32, ref_hz: u32) -> u32 {
    ((32 * ref_hz) / (bit_rate as int) % 0x100000000) as u32
}

/// Computes the frequency register value with 64-bit intermediate
/// precision, so the product never overflows.
pub fn frequency_to_register(frequency: u32, ref_hz: u32) -> (r: u32)
    requires
        ref_hz >= 1,
    ensures
        r == spec_frequency_to_register(frequency, ref_hz),
{
    let wide: u64 = (frequency as u64) * 0x2000000;
    ((wide / (ref_hz as u64)) % 0x100000000) as u32
}

/// Computes the bit-rate register value with 64-bit intermediate precision.
pub fn bit_rate_to_register(bit_rate: u32, ref_hz: u32) -> (r: u32)
    requires
        bit_rate >= 1,
    ensures
        r == spec_bit_rate_to_register(bit_rate, ref_hz),
{
    let wide: u64 = 32 * (ref_hz as u64);
    ((wide / (bit_rate as u64)) % 0x100000000) as u32
}

/// RF frequency configuration.
///
/// The encoded register value is `frequency * 2^25 / FXTAL_HZ`.
#[derive(Debug, Clone, Copy, PartialEq, Eq, Structural)]
pub struct RfFrequencyConfig {
    /// RF frequency in Hz. The chip accepts 150 MHz to 960 MHz; values
    /// outside that range still encode, but are physically meaningless.
    pub frequency: u32,
}

impl RfFrequencyConfig {
    /// The four big-endian bytes of the frequency register value.
    pub open spec fn spec_to_bytes(self) -> Seq<u8> {
        spec_u32_be(spec_frequency_to_register(self.frequency, FXTAL_HZ))
    }

    pub fn to_bytes(self) -> (r: [u8; 4])
        ensures
            r@ == self.spec_to_bytes(),
    {
        let v = frequency_to_register(self.frequency, FXTAL_HZ);
        let r = [
            (v / 0x1000000) as u8,
            ((v / 0x10000) % 0x100) as u8,
            ((v / 0x100) % 0x100) as u8,
            (v % 0x100) as u8,
        ];
        proof {
            assert(r@ =~= self.spec_to_bytes());
        }
        r
    }
}

/// SetRfFrequency command (opcode 0x86).
///
/// Sets the RF frequency used for both TX and RX.
#[derive(Debug, Clone, Copy)]
pub struct SetRfFrequency {
    /// RF frequency configuration.
    pub config: RfFrequencyConfig,
}

impl SetRfFrequency {
    pub fn id() -> (r: u8)
        ensures
            r == 0x86,
    {
        0x86
    }

    pub fn invoking_parameters(self) -> (r: RfFrequencyConfig)
        ensures
            r == self.config,
    {
        self.config
    }
}

/// Error for a packet-type byte that matches no defined packet type.
#[derive(Debug, Clone, Copy, PartialEq, Eq, Structural)]
pub struct InvalidPacketType(pub u8);

/// Packet framing mode.
#[derive(Debug, Clone, Copy, PartialEq, Eq, Structural)]
pub enum PacketType {
    /// GFSK framing (wire code 0x00); bit rates 0.6 to 300 kbps.
    Gfsk,
    /// LoRa framing (wire code 0x01); spreading factors 5 to 12.
    LoRa,
}

impl PacketType {
    /// The chip-defined wire code of each packet type.
    pub open spec fn spec_code(self) -> u8 {
        match self {
            PacketType::Gfsk => 0x00,
            PacketType::LoRa => 0x01,
        }
    }

    pub open spec fn spec_to_bytes(self) -> Seq<u8> {
        seq![self.spec_code()]
    }

    /// The packet type named by a one-byte response; bytes that match no
    /// defined packet type are rejected, never coerced to a default.
    pub open spec fn spec_from_bytes(bytes: Seq<u8>) -> Result<PacketType, InvalidPacketType>
        recommends
            bytes.len() == 1,
    {
        if bytes[0] == 0x00 {
            Ok(PacketType::Gfsk)
        } else if bytes[0] == 0x01 {
            Ok(PacketType::LoRa)
        } else {
            Err(InvalidPacketType(bytes[0]))
        }
    }

    pub fn to_bytes(self) -> (r: [u8; 1])
        ensures
            r@ == self.spec_to_bytes(),
    {
        let r = [match self {
            PacketType::Gfsk => 0x00,
            PacketType::LoRa => 0x01,
        }];
        proof {
            assert(r@ =~= self.spec_to_bytes());
        }
        r
    }

    pub fn from_bytes(bytes: [u8; 1]) -> (r: Result<PacketType, InvalidPacketType>)
        ensures
            r == PacketType::spec_from_bytes(bytes@),
    {
        match bytes[0] {
            0x00 => Ok(PacketType::Gfsk),
            0x01 => Ok(PacketType::LoRa),
            invalid => Err(InvalidPacketType(invalid)),
        }
    }
}

/// Decoding the encoded packet type always recovers the packet type.
pub proof fn lemma_packet_type_roundtrip(v: PacketType)
    ensures
        PacketType::spec_from_bytes(v.spec_to_bytes()) == Ok::<PacketType, InvalidPacketType>(v),
{
}

/// SetPacketType command (opcode 0x8A).
///
/// Selects the packet framing mode; must precede the other RF
/// configuration commands.
#[derive(Debug, Clone, Copy)]
pub struct SetPacketType {
    /// Packet type selection.
    pub packet_type: PacketType,
}

impl SetPacketType {
    pub fn id() -> (r: u8)
        ensures
            r == 0x8A,
    {
        0x8A
    }

    pub fn invoking_parameters(self) -> (r: PacketType)
        ensures
            r == self.packet_type,
    {
        self.packet_type
    }
}

/// GetPacketType command (opcode 0x11).
///
/// Reads back the currently configured packet type.
#[derive(Debug, Clone, Copy)]
pub struct GetPacketType;

impl GetPacketType {
    pub fn id() -> (r: u8)
        ensures
            r == 0x11,
    {
        0x11
    }

    pub fn invoking_parameters(self) -> (r: crate::commands::NoParameters)
        ensures
            r == crate::commands::NoParameters,
    {
        crate::commands::NoParameters
    }
}

/// Power amplifier ramp time options.
#[derive(Debug, Clone, Copy, PartialEq, Eq, Structural)]
pub enum RampTime {
    /// 10 microseconds.
    Micros10,
    /// 20 microseconds.
    Micros20,
    /// 40 microseconds.
    Micros40,
    /// 80 microseconds.
    Micros80,
    /// 200 microseconds.
    Micros200,
    /// 800 microseconds.
    Micros800,
    /// 1700 microseconds.
    Micros1700,
    /// 3400 microseconds.
    Micros3400,
}

impl RampTime {
    /// The chip-defined wire code of each ramp time.
    pub open spec fn spec_code(self) -> u8 {
        match self {
            RampTime::Micros10 => 0x00,
            RampTime::Micros20 => 0x01,
            RampTime::Micros40 => 0x02,
            RampTime::Micros80 => 0x03,
            RampTime::Micros200 => 0x04,
            RampTime::Micros800 => 0x05,
            RampTime::Micros1700 => 0x06,
            RampTime::Micros3400 => 0x07,
        }
    }

    pub fn code(self) -> (r: u8)
        ensures
            r == self.spec_code(),
    {
        match self {
            RampTime::Micros10 => 0x00,
            RampTime::Micros20 => 0x01,
            RampTime::Micros40 => 0x02,
            RampTime::Micros80 => 0x03,
            RampTime::Micros200 => 0x04,
            RampTime::Micros800 => 0x05,
            RampTime::Micros1700 => 0x06,
            RampTime::Micros3400 => 0x07,
        }
    }
}

/// TX power and ramp time parameters.
#[derive(Debug, Clone, Copy, PartialEq, Eq, Structural)]
pub struct TxParams {
    /// Output power in dBm, two's-complement encoded.
    /// SX1261: -17 to +14 dBm; SX1262: -9 to +22 dBm.
    pub power: i8,
    /// Power amplifier ramp time.
    pub ramp_time: RampTime,
}

impl TxParams {
    /// One power byte (two's complement) followed by the ramp-time code.
    pub open spec fn spec_to_bytes(self) -> Seq<u8> {
        seq![spec_i8_byte(self.power), self.ramp_time.spec_code()]
    }

    pub fn to_bytes(self) -> (r: [u8; 2])
        ensures
            r@ == self.spec_to_bytes(),
    {
        let r = [i8_byte(self.power), self.ramp_time.code()];
        proof {
            assert(r@ =~= self.spec_to_bytes());
        }
        r
    }
}

/// SetTxParams command (opcode 0x8E).
///
/// Sets the TX output power and PA ramp time; configure the PA first.
#[derive(Debug, Clone, Copy)]
pub struct SetTxParams {
    /// TX parameters configuration.
    pub params: TxParams,
}

impl SetTxParams {
    pub fn id() -> (r: u8)
        ensures
            r == 0x8E,
    {
        0x8E
    }

    pub fn invoking_parameters(self) -> (r: TxParams)
        ensures
            r == self.params,
    {
        self.params
    }
}

/// GFSK pulse shape options for spectral shaping.
#[derive(Debug, Clone, Copy, PartialEq, Eq, Structural)]
pub enum GfskPulseShape {
    /// No pulse shaping filter.
    NoFilter,
    /// Gaussian filter, BT = 0.3.
    Bt03,
    /// Gaussian filter, BT = 0.5.
    Bt05,
    /// Gaussian filter, BT = 0.7.
    Bt07,
    /// Gaussian filter, BT = 1.0.
    Bt1,
}

impl GfskPulseShape {
    /// The chip-defined wire code of each pulse shape.
    pub open spec fn spec_code(self) -> u8 {
        match self {
            GfskPulseShape::NoFilter => 0x00,
            GfskPulseShape::Bt03 => 0x08,
            GfskPulseShape::Bt05 => 0x09,
            GfskPulseShape::Bt07 => 0x0A,
            GfskPulseShape::Bt1 => 0x0B,
        }
    }

    pub fn code(self) -> (r: u8)
        ensures
            r == self.spec_code(),
    {
        match self {
            GfskPulseShape::NoFilter => 0x00,
            GfskPulseShape::Bt03 => 0x08,
            GfskPulseShape::Bt05 => 0x09,
            GfskPulseShape::Bt07 => 0x0A,
            GfskPulseShape::Bt1 => 0x0B,
        }
    }
}

/// GFSK receiver channel filter bandwidth options (double-side bandwidth).
#[derive(Debug, Clone, Copy, PartialEq, Eq, Structural)]
pub enum GfskBandwidth {
    /// 4.8 kHz.
    Bw48,
    /// 5.8 kHz.
    Bw58,
    /// 7.3 kHz.
    Bw73,
    /// 9.7 kHz.
    Bw97,
    /// 11.7 kHz.
    Bw117,
    /// 14.6 kHz.
    Bw146,
    /// 29.3 kHz.
    Bw293,
    /// 39 kHz.
    Bw39,
    /// 46.9 kHz.
    Bw469,
    /// 58.6 kHz.
    Bw586,
    /// 78.2 kHz.
    Bw782,
    /// 93.8 kHz.
    Bw938,
    /// 117.3 kHz.
    Bw1173,
    /// 156.2 kHz.
    Bw1562,
    /// 187.2 kHz.
    Bw1872,
    /// 232.3 kHz.
    Bw2323,
    /// 312.0 kHz.
    Bw3120,
    /// 373.6 kHz.
    Bw3736,
    /// 467.0 kHz.
    Bw4670,
}

impl GfskBandwidth {
    /// The chip-defined wire code of each bandwidth.
    pub open spec fn spec_code(self) -> u8 {
        match self {
            GfskBandwidth::Bw48 => 0x1F,
            GfskBandwidth::Bw58 => 0x17,
            GfskBandwidth::Bw73 => 0x0F,
            GfskBandwidth::Bw97 => 0x1E,
            GfskBandwidth::Bw117 => 0x16,
            GfskBandwidth::Bw146 => 0x0E,
            GfskBandwidth::Bw293 => 0x0D,
            GfskBandwidth::Bw39 => 0x1C,
            GfskBandwidth::Bw469 => 0x14,
            GfskBandwidth::Bw586 => 0x0C,
            GfskBandwidth::Bw782 => 0x1B,
            GfskBandwidth::Bw938 => 0x13,
            GfskBandwidth::Bw1173 => 0x0B,
            GfskBandwidth::Bw1562 => 0x1A,
            GfskBandwidth::Bw1872 => 0x12,
            GfskBandwidth::Bw2323 => 0x0A,
            GfskBandwidth::Bw3120 => 0x19,
            GfskBandwidth::Bw3736 => 0x11,
            GfskBandwidth::Bw4670 => 0x09,
        }
    }

    pub fn code(self) -> (r: u8)
        ensures
            r == self.spec_code(),
    {
        match self {
            GfskBandwidth::Bw48 => 0x1F,
            GfskBandwidth::Bw58 => 0x17,
            GfskBandwidth::Bw73 => 0x0F,
            GfskBandwidth::Bw97 => 0x1E,
            GfskBandwidth::Bw117 => 0x16,
            GfskBandwidth::Bw146 => 0x0E,
            GfskBandwidth::Bw293 => 0x0D,
            GfskBandwidth::Bw39 => 0x1C,
            GfskBandwidth::Bw469 => 0x14,
            GfskBandwidth::Bw586 => 0x0C,
            GfskBandwidth::Bw782 => 0x1B,
            GfskBandwidth::Bw938 => 0x13,
            GfskBandwidth::Bw1173 => 0x0B,
            GfskBandwidth::Bw1562 => 0x1A,
            GfskBandwidth::Bw1872 => 0x12,
            GfskBandwidth::Bw2323 => 0x0A,
            GfskBandwidth::Bw3120 => 0x19,
            GfskBandwidth::Bw3736 => 0x11,
            GfskBandwidth::Bw4670 => 0x09,
        }
    }
}

/// GFSK modulation parameters.
#[derive(Debug, Clone, Copy, PartialEq, Eq, Structural)]
pub struct GfskModParams {
    /// Bit rate in bits per second; the chip accepts 600 bps to 300 kbps.
    /// Must be nonzero for the register transform to be defined.
    pub bit_rate: u32,
    /// Pulse shape filtering.
    pub pulse_shape: GfskPulseShape,
    /// RX channel filter bandwidth.
    pub bandwidth: GfskBandwidth,
    /// Frequency deviation in Hz.
    pub freq_deviation: u32,
}

/// LoRa spreading factor options (chips per symbol, 2^SF).
#[derive(Debug, Clone, Copy, PartialEq, Eq, Structural)]
pub enum SpreadingFactor {
    /// SF5, 32 chips per symbol.
    SF5,
    /// SF6, 64 chips per symbol.
    SF6,
    /// SF7, 128 chips per symbol.
    SF7,
    /// SF8, 256 chips per symbol.
    SF8,
    /// SF9, 512 chips per symbol.
    SF9,
    /// SF10, 1024 chips per symbol.
    SF10,
    /// SF11, 2048 chips per symbol.
    SF11,
    /// SF12, 4096 chips per symbol.
    SF12,
}

impl SpreadingFactor {
    /// The chip-defined wire code: the spreading factor itself.
    pub open spec fn spec_code(self) -> u8 {
        match self {
            SpreadingFactor::SF5 => 5,
            SpreadingFactor::SF6 => 6,
            SpreadingFactor::SF7 => 7,
            SpreadingFactor::SF8 => 8,
            SpreadingFactor::SF9 => 9,
            SpreadingFactor::SF10 => 10,
            SpreadingFactor::SF11 => 11,
            SpreadingFactor::SF12 => 12,
        }
    }

    pub fn code(self) -> (r: u8)
        ensures
            r == self.spec_code(),
    {
        match self {
            SpreadingFactor::SF5 => 5,
            SpreadingFactor::SF6 => 6,
            SpreadingFactor::SF7 => 7,
            SpreadingFactor::SF8 => 8,
            SpreadingFactor::SF9 => 9,
            SpreadingFactor::SF10 => 10,
            SpreadingFactor::SF11 => 11,
            SpreadingFactor::SF12 => 12,
        }
    }
}

/// LoRa signal bandwidth options.
#[derive(Debug, Clone, Copy, PartialEq, Eq, Structural)]
pub enum LoRaBandwidth {
    /// 7.81 kHz.
    Bw7,
    /// 10.42 kHz.
    Bw10,
    /// 15.63 kHz.
    Bw15,
    /// 20.83 kHz.
    Bw20,
    /// 31.25 kHz.
    Bw31,
    /// 41.67 kHz.
    Bw41,
    /// 62.50 kHz.
    Bw62,
    /// 125 kHz.
    Bw125,
    /// 250 kHz.
    Bw250,
    /// 500 kHz.
    Bw500,
}

impl LoRaBandwidth {
    /// The chip-defined wire code of each bandwidth.
    pub open spec fn spec_code(self) -> u8 {
        match self {
            LoRaBandwidth::Bw7 => 0x00,
            LoRaBandwidth::Bw10 => 0x08,
            LoRaBandwidth::Bw15 => 0x01,
            LoRaBandwidth::Bw20 => 0x09,
            LoRaBandwidth::Bw31 => 0x02,
            LoRaBandwidth::Bw41 => 0x0A,
            LoRaBandwidth::Bw62 => 0x03,
            LoRaBandwidth::Bw125 => 0x04,
            LoRaBandwidth::Bw250 => 0x05,
            LoRaBandwidth::Bw500 => 0x06,
        }
    }

    pub fn code(self) -> (r: u8)
        ensures
            r == self.spec_code(),
    {
        match self {
            LoRaBandwidth::Bw7 => 0x00,
            LoRaBandwidth::Bw10 => 0x08,
            LoRaBandwidth::Bw15 => 0x01,
            LoRaBandwidth::Bw20 => 0x09,
            LoRaBandwidth::Bw31 => 0x02,
            LoRaBandwidth::Bw41 => 0x0A,
            LoRaBandwidth::Bw62 => 0x03,
            LoRaBandwidth::Bw125 => 0x04,
            LoRaBandwidth::Bw250 => 0x05,
            LoRaBandwidth::Bw500 => 0x06,
        }
    }
}

/// LoRa forward error correction coding rate options.
#[derive(Debug, Clone, Copy, PartialEq, Eq, Structural)]
pub enum CodingRate {
    /// 4/5 coding rate.
    Cr45,
    /// 4/6 coding rate.
    Cr46,
    /// 4/7 coding rate.
    Cr47,
    /// 4/8 coding rate.
    Cr48,
}

impl CodingRate {
    /// The chip-defined wire code of each coding rate.
    pub open spec fn spec_code(self) -> u8 {
        match self {
            CodingRate::Cr45 => 0x01,
            CodingRate::Cr46 => 0x02,
            CodingRate::Cr47 => 0x03,
            CodingRate::Cr48 => 0x04,
        }
    }

    pub fn code(self) -> (r: u8)
        ensures
            r == self.spec_code(),
    {
        match self {
            CodingRate::Cr45 => 0x01,
            CodingRate::Cr46 => 0x02,
            CodingRate::Cr47 => 0x03,
            CodingRate::Cr48 => 0x04,
        }
    }
}

/// LoRa modulation parameters.
#[derive(Debug, Clone, Copy, PartialEq, Eq, Structural)]
pub struct LoRaModParams {
    /// Spreading factor.
    pub spreading_factor: SpreadingFactor,
    /// Signal bandwidth.
    pub bandwidth: LoRaBandwidth,
    /// Forward error correction coding rate.
    pub coding_rate: CodingRate,
    /// Low data rate optimization; required for symbol times of 16.38 ms
    /// and longer.
    pub low_data_rate_opt: bool,
}

/// Modulation parameters for the selected packet type.
///
/// Exactly one of the two shapes is active; the packet type configured
/// separately on the chip selects how the bytes are interpreted. Both
/// shapes encode to the same fixed eight-byte width, zero-filled in the
/// positions the active shape does not use.
#[derive(Debug, Clone, Copy, PartialEq, Eq, Structural)]
pub enum ModulationParams {
    /// GFSK modulation configuration.
    Gfsk(GfskModParams),
    /// LoRa modulation configuration.
    LoRa(LoRaModParams),
}

impl ModulationParams {
    /// The GFSK bit rate must be nonzero for its register transform.
    pub open spec fn wf(self) -> bool {
        match self {
            ModulationParams::Gfsk(p) => p.bit_rate >= 1,
            ModulationParams::LoRa(_) => true,
        }
    }

    /// GFSK: 24-bit bit-rate register, pulse shape, bandwidth, 24-bit
    /// deviation register. LoRa: spreading factor, bandwidth, coding rate,
    /// low-data-rate flag, then four zero bytes.
    pub open spec fn spec_to_bytes(self) -> Seq<u8> {
        match self {
            ModulationParams::Gfsk(p) => spec_u24_be(
                spec_bit_rate_to_register(p.bit_rate, FXTAL_HZ),
            ) + seq![p.pulse_shape.spec_code(), p.bandwidth.spec_code()] + spec_u24_be(
                spec_frequency_to_register(p.freq_deviation, FXTAL_HZ),
            ),
            ModulationParams::LoRa(p) => seq![
                p.spreading_factor.spec_code(),
                p.bandwidth.spec_code(),
                p.coding_rate.spec_code(),
                if p.low_data_rate_opt {
                    1u8
                } else {
                    0u8
                },
                0u8,
                0u8,
                0u8,
                0u8,
            ],
        }
    }

    pub fn to_bytes(self) -> (r: [u8; 8])
        requires
            self.wf(),
        ensures
            r@ == self.spec_to_bytes(),
    {
        match self {
            ModulationParams::Gfsk(p) => {
                let br = bit_rate_to_register(p.bit_rate, FXTAL_HZ);
                let fdev = frequency_to_register(p.freq_deviation, FXTAL_HZ);
                let r = [
                    ((br / 0x10000) % 0x100) as u8,
                    ((br / 0x100) % 0x100) as u8,
                    (br % 0x100) as u8,
                    p.pulse_shape.code(),
                    p.bandwidth.code(),
                    ((fdev / 0x10000) % 0x100) as u8,
                    ((fdev / 0x100) % 0x100) as u8,
                    (fdev % 0x100) as u8,
                ];
                proof {
                    assert(r@ =~= self.spec_to_bytes());
                }
                r
            },
            ModulationParams::LoRa(p) => {
                let r = [
                    p.spreading_factor.code(),
                    p.bandwidth.code(),
                    p.coding_rate.code(),
                    if p.low_data_rate_opt {
                        1u8
                    } else {
                        0u8
                    },
                    0,
                    0,
                    0,
                    0,
                ];
                proof {
                    assert(r@ =~= self.spec_to_bytes());
                }
                r
            },
        }
    }
}

/// Both modulation shapes encode to exactly eight bytes, and the LoRa
/// shape leaves its four unused trailing bytes zero.
pub proof fn lemma_modulation_params_fixed_width(p: ModulationParams)
    ensures
        p.spec_to_bytes().len() == 8,
        p is LoRa ==> forall|i: int| 4 <= i < 8 ==> p.spec_to_bytes()[i] == 0u8,
{
}

/// SetModulationParams command (opcode 0x8B).
///
/// Configures modulation for the selected packet type; issue after
/// SetPacketType and before SetPacketParams.
#[derive(Debug, Clone, Copy)]
pub struct SetModulationParams {
    /// Modulation parameters.
    pub params: ModulationParams,
}

impl SetModulationParams {
    pub fn id() -> (r: u8)
        ensures
            r == 0x8B,
    {
        0x8B
    }

    pub fn invoking_parameters(self) -> (r: ModulationParams)
        ensures
            r == self.params,
    {
        self.params
    }
}

/// Preamble detector gate length for the GFSK packet controller.
#[derive(Debug, Clone, Copy, PartialEq, Eq, Structural)]
pub enum PreambleDetectorLength {
    /// Preamble detection off.
    Off,
    /// 8 preamble bits required.
    Bits8,
    /// 16 preamble bits required.
    Bits16,
    /// 24 preamble bits required.
    Bits24,
    /// 32 preamble bits required.
    Bits32,
}

impl PreambleDetectorLength {
    /// The chip-defined wire code of each detector length.
    pub open spec fn spec_code(self) -> u8 {
        match self {
            PreambleDetectorLength::Off => 0x00,
            PreambleDetectorLength::Bits8 => 0x04,
            PreambleDetectorLength::Bits16 => 0x05,
            PreambleDetectorLength::Bits24 => 0x06,
            PreambleDetectorLength::Bits32 => 0x07,
        }
    }

    pub fn code(self) -> (r: u8)
        ensures
            r == self.spec_code(),
    {
        match self {
            PreambleDetectorLength::Off => 0x00,
            PreambleDetectorLength::Bits8 => 0x04,
            PreambleDetectorLength::Bits16 => 0x05,
            PreambleDetectorLength::Bits24 => 0x06,
            PreambleDetectorLength::Bits32 => 0x07,
        }
    }
}

/// GFSK address filtering configuration.
#[derive(Debug, Clone, Copy, PartialEq, Eq, Structural)]
pub enum AddressFiltering {
    /// Address filtering disabled.
    Disable,
    /// Filter on the node address.
    Node,
    /// Filter on the node and broadcast addresses.
    NodeAndBroadcast,
}

impl AddressFiltering {
    /// The chip-defined wire code of each filtering mode.
    pub open spec fn spec_code(self) -> u8 {
        match self {
            AddressFiltering::Disable => 0x00,
            AddressFiltering::Node => 0x01,
            AddressFiltering::NodeAndBroadcast => 0x02,
        }
    }

    pub fn code(self) -> (r: u8)
        ensures
            r == self.spec_code(),
    {
        match self {
            AddressFiltering::Disable => 0x00,
            AddressFiltering::Node => 0x01,
            AddressFiltering::NodeAndBroadcast => 0x02,
        }
    }
}

/// GFSK packet header type.
#[derive(Debug, Clone, Copy, PartialEq, Eq, Structural)]
pub enum GFSKPacketHeaderType {
    /// Fixed-length packets; the size is known on both sides and not sent.
    Fixed,
    /// Variable-length packets; the first payload byte carries the size.
    Variable,
}

impl GFSKPacketHeaderType {
    /// The chip-defined wire code of each header type.
    pub open spec fn spec_code(self) -> u8 {
        match self {
            GFSKPacketHeaderType::Fixed => 0x00,
            GFSKPacketHeaderType::Variable => 0x01,
        }
    }

    pub fn code(self) -> (r: u8)
        ensures
            r == self.spec_code(),
    {
        match self {
            GFSKPacketHeaderType::Fixed => 0x00,
            GFSKPacketHeaderType::Variable => 0x01,
        }
    }
}

/// LoRa packet header type. Note the wire codes are the opposite of the
/// GFSK header type codes.
#[derive(Debug, Clone, Copy, PartialEq, Eq, Structural)]
pub enum LoraPacketHeaderType {
    /// Fixed-length packets; the size is known on both sides and not sent.
    Fixed,
    /// Variable-length packets; the header carries length, coding rate and
    /// header CRC.
    Variable,
}

impl LoraPacketHeaderType {
    /// The chip-defined wire code of each header type.
    pub open spec fn spec_code(self) -> u8 {
        match self {
            LoraPacketHeaderType::Fixed => 0x01,
            LoraPacketHeaderType::Variable => 0x00,
        }
    }

    pub fn code(self) -> (r: u8)
        ensures
            r == self.spec_code(),
    {
        match self {
            LoraPacketHeaderType::Fixed => 0x01,
            LoraPacketHeaderType::Variable => 0x00,
        }
    }
}

/// GFSK CRC configuration.
#[derive(Debug, Clone, Copy, PartialEq, Eq, Structural)]
pub enum CrcType {
    /// No CRC.
    CrcOff,
    /// CRC computed on one byte.
    Crc1Byte,
    /// CRC computed on two bytes.
    Crc2Byte,
    /// CRC computed on one byte and inverted.
    Crc1ByteInv,
    /// CRC computed on two bytes and inverted.
    Crc2ByteInv,
}

impl CrcType {
    /// The chip-defined wire code of each CRC configuration.
    pub open spec fn spec_code(self) -> u8 {
        match self {
            CrcType::CrcOff => 0x01,
            CrcType::Crc1Byte => 0x00,
            CrcType::Crc2Byte => 0x02,
            CrcType::Crc1ByteInv => 0x04,
            CrcType::Crc2ByteInv => 0x06,
        }
    }

    pub fn code(self) -> (r: u8)
        ensures
            r == self.spec_code(),
    {
        match self {
            CrcType::CrcOff => 0x01,
            CrcType::Crc1Byte => 0x00,
            CrcType::Crc2Byte => 0x02,
            CrcType::Crc1ByteInv => 0x04,
            CrcType::Crc2ByteInv => 0x06,
        }
    }
}

/// GFSK packet parameters.
#[derive(Debug, Clone, Copy, PartialEq, Eq, Structural)]
pub struct GFSKPacketParams {
    /// Preamble length in bits, sent as a 16-bit count of preamble bytes.
    pub preamble_length: u16,
    /// Preamble detector gate length.
    pub preamble_detector_length: PreambleDetectorLength,
    /// Sync word length in bits (0 to 64).
    pub sync_word_length: u8,
    /// Address filtering mode.
    pub address_filtering: AddressFiltering,
    /// Header type.
    pub packet_type: GFSKPacketHeaderType,
    /// Payload length in bytes to transmit, or the maximum to accept.
    pub payload_length: u8,
    /// CRC configuration.
    pub crc_type: CrcType,
    /// Whitening enable.
    pub whitening_enable: bool,
}

impl GFSKPacketParams {
    /// The nine wire bytes, fields in chip-specified order.
    pub open spec fn spec_to_bytes(self) -> Seq<u8> {
        seq![
            (self.preamble_length / 0x100) as u8,
            (self.preamble_length % 0x100) as u8,
            self.preamble_detector_length.spec_code(),
            self.sync_word_length,
            self.address_filtering.spec_code(),
            self.packet_type.spec_code(),
            self.payload_length,
            self.crc_type.spec_code(),
            if self.whitening_enable {
                1u8
            } else {
                0u8
            },
        ]
    }

    pub fn to_bytes(self) -> (r: [u8; 9])
        ensures
            r@ == self.spec_to_bytes(),
    {
        let r = [
            (self.preamble_length / 0x100) as u8,
            (self.preamble_length % 0x100) as u8,
            self.preamble_detector_length.code(),
            self.sync_word_length,
            self.address_filtering.code(),
            self.packet_type.code(),
            self.payload_length,
            self.crc_type.code(),
            if self.whitening_enable {
                1u8
            } else {
                0u8
            },
        ];
        proof {
            assert(r@ =~= self.spec_to_bytes());
        }
        r
    }
}

/// LoRa packet parameters.
#[derive(Debug, Clone, Copy, PartialEq, Eq, Structural)]
pub struct LoRaPacketParams {
    /// Preamble length as a 16-bit count of LoRa symbols.
    pub preamble_length: u16,
    /// Header type.
    pub header_type: LoraPacketHeaderType,
    /// Payload length in bytes.
    pub payload_length: u8,
    /// CRC enable.
    pub crc_enable: bool,
    /// IQ inversion enable.
    pub iq_inversion_enable: bool,
}

impl LoRaPacketParams {
    /// The six meaningful wire bytes followed by three zero bytes, so the
    /// encoding fills the same nine-byte slot as the GFSK shape.
    pub open spec fn spec_to_bytes(self) -> Seq<u8> {
        seq![
            (self.preamble_length / 0x100) as u8,
            (self.preamble_length % 0x100) as u8,
            self.header_type.spec_code(),
            self.payload_length,
            if self.crc_enable {
                1u8
            } else {
                0u8
            },
            if self.iq_inversion_enable {
                1u8
            } else {
                0u8
            },
            0u8,
            0u8,
            0u8,
        ]
    }

    pub fn to_bytes(self) -> (r: [u8; 9])
        ensures
            r@ == self.spec_to_bytes(),
    {
        let r = [
            (self.preamble_length / 0x100) as u8,
            (self.preamble_length % 0x100) as u8,
            self.header_type.code(),
            self.payload_length,
            if self.crc_enable {
                1u8
            } else {
                0u8
            },
            if self.iq_inversion_enable {
                1u8
            } else {
                0u8
            },
            0,
            0,
            0,
        ];
        proof {
            assert(r@ =~= self.spec_to_bytes());
        }
        r
    }
}

/// Packet parameters for the selected packet type.
///
/// As with [`ModulationParams`], exactly one shape is active and both
/// encode to the same fixed nine-byte width.
#[derive(Debug, Clone, Copy, PartialEq, Eq, Structural)]
pub enum PacketParams {
    /// GFSK packet parameters.
    GFSK(GFSKPacketParams),
    /// LoRa packet parameters.
    LoRa(LoRaPacketParams),
}

impl PacketParams {
    /// The nine wire bytes of whichever shape is active.
    pub open spec fn spec_to_bytes(self) -> Seq<u8> {
        match self {
            PacketParams::GFSK(p) => p.spec_to_bytes(),
            PacketParams::LoRa(p) => p.spec_to_bytes(),
        }
    }

    pub fn to_bytes(self) -> (r: [u8; 9])
        ensures
            r@ == self.spec_to_bytes(),
    {
        match self {
            PacketParams::GFSK(p) => p.to_bytes(),
            PacketParams::LoRa(p) => p.to_bytes(),
        }
    }
}

/// Both packet parameter shapes encode to exactly nine bytes, and the
/// LoRa shape leaves its three unused trailing bytes zero.
pub proof fn lemma_packet_params_fixed_width(p: PacketParams)
    ensures
        p.spec_to_bytes().len() == 9,
        p is LoRa ==> forall|i: int| 6 <= i < 9 ==> p.spec_to_bytes()[i] == 0u8,
{
}

/// SetPacketParams command (opcode 0x8C).
///
/// Configures the packet format for the selected packet type; issue after
/// SetModulationParams.
#[derive(Debug, Clone, Copy)]
pub struct SetPacketParams {
    /// Packet parameters.
    pub params: PacketParams,
}

impl SetPacketParams {
    pub fn id() -> (r: u8)
        ensures
            r == 0x8C,
    {
        0x8C
    }

    pub fn invoking_parameters(self) -> (r: PacketParams)
        ensures
            r == self.params,
    {
        self.params
    }
}

/// Channel activity detection parameters (LoRa only).
#[derive(Debug, Clone, Copy, PartialEq, Eq, Structural)]
pub struct CadParams {
    /// Number of symbols used for detection (0=1, 1=2, 2=4, 3=8, 4=16).
    pub cad_symbol_num: u8,
    /// Detection peak threshold.
    pub cad_detect_peak: u8,
    /// Detection minimum threshold.
    pub cad_detect_min: u8,
    /// Exit mode (0 = CAD only, 1 = CAD then RX).
    pub cad_exit_mode: u8,
    /// Timeout in steps of 15.625 microseconds (CAD-then-RX mode only).
    pub cad_timeout: u32,
}

impl CadParams {
    /// Four single-byte fields followed by the 32-bit timeout.
    pub open spec fn spec_to_bytes(self) -> Seq<u8> {
        seq![self.cad_symbol_num, self.cad_detect_peak, self.cad_detect_min, self.cad_exit_mode]
            + spec_u32_be(self.cad_timeout)
    }

    pub fn to_bytes(self) -> (r: [u8; 8])
        ensures
            r@ == self.spec_to_bytes(),
    {
        let t = self.cad_timeout;
        let r = [
            self.cad_symbol_num,
            self.cad_detect_peak,
            self.cad_detect_min,
            self.cad_exit_mode,
            (t / 0x1000000) as u8,
            ((t / 0x10000) % 0x100) as u8,
            ((t / 0x100) % 0x100) as u8,
            (t % 0x100) as u8,
        ];
        proof {
            assert(r@ =~= self.spec_to_bytes());
        }
        r
    }
}

/// SetCadParams command (opcode 0x88).
///
/// Configures channel activity detection; LoRa packet type only.
#[derive(Debug, Clone, Copy)]
pub struct SetCadParams {
    /// CAD parameters.
    pub params: CadParams,
}

impl SetCadParams {
    pub fn id() -> (r: u8)
        ensures
            r == 0x88,
    {
        0x88
    }

    pub fn invoking_parameters(self) -> (r: CadParams)
        ensures
            r == self.params,
    {
        self.params
    }
}

/// TX and RX base addresses within the 256-byte data buffer.
#[derive(Debug, Clone, Copy, PartialEq, Eq, Structural)]
pub struct BufferBaseAddressConfig {
    /// TX base address.
    pub tx_base_addr: u8,
    /// RX base address.
    pub rx_base_addr: u8,
}

impl BufferBaseAddressConfig {
    /// TX base address byte followed by the RX base address byte.
    pub open spec fn spec_to_bytes(self) -> Seq<u8> {
        seq![self.tx_base_addr, self.rx_base_addr]
    }

    pub fn to_bytes(self) -> (r: [u8; 2])
        ensures
            r@ == self.spec_to_bytes(),
    {
        let r = [self.tx_base_addr, self.rx_base_addr];
        proof {
            assert(r@ =~= self.spec_to_bytes());
        }
        r
    }
}

/// SetBufferBaseAddress command (opcode 0x8F).
///
/// Sets where TX and RX payloads are staged in the data buffer.
#[derive(Debug, Clone, Copy)]
pub struct SetBufferBaseAddress {
    /// Buffer base addresses configuration.
    pub config: BufferBaseAddressConfig,
}

impl SetBufferBaseAddress {
    pub fn id() -> (r: u8)
        ensures
            r == 0x8F,
    {
        0x8F
    }

    pub fn invoking_parameters(self) -> (r: BufferBaseAddressConfig)
        ensures
            r == self.config,
    {
        self.config
    }
}

/// Number of LoRa symbols required to validate a reception.
#[derive(Debug, Clone, Copy, PartialEq, Eq, Structural)]
pub struct LoRaSymbNumTimeout {
    /// 0 validates on the first detected symbol; 1 to 255 wait for that
    /// many symbols before declaring a timeout.
    pub symb_num: u8,
}

impl LoRaSymbNumTimeout {
    /// The single symbol-count byte.
    pub open spec fn spec_to_bytes(self) -> Seq<u8> {
        seq![self.symb_num]
    }

    pub fn to_bytes(self) -> (r: [u8; 1])
        ensures
            r@ == self.spec_to_bytes(),
    {
        let r = [self.symb_num];
        proof {
            assert(r@ =~= self.spec_to_bytes());
        }
        r
    }
}

/// SetLoRaSymbNumTimeout command (opcode 0xA0).
///
/// Guards against false LoRa detections on noise; LoRa packet type only.
#[derive(Debug, Clone, Copy)]
pub struct SetLoRaSymbNumTimeout {
    /// LoRa symbol timeout configuration.
    pub config: LoRaSymbNumTimeout,
}

impl SetLoRaSymbNumTimeout {
    pub fn id() -> (r: u8)
        ensures
            r == 0xA0,
    {
        0xA0
    }

    pub fn invoking_parameters(self) -> (r: LoRaSymbNumTimeout)
        ensures
            r == self.config,
    {
        self.config
    }
}

} // verus!
