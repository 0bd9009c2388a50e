//! RF operation registers.
//!
//! These registers expose the hardware random number generator and
//! control TX modulation optimization, receiver gain, PA clamping and
//! over-current protection.

use crate::wire::{spec_u32_from_be, u32_from_be};
use vstd::prelude::*;

verus! {

/// Random number register (address 0x0819).
///
/// Each read returns a fresh 32-bit value derived from thermal noise in
/// the RF frontend.
#[derive(Debug, Clone, Copy, PartialEq, Eq, Structural)]
pub struct RandomNumber {
    /// The 32-bit random value.
    pub value: u32,
}

impl RandomNumber {
    /// The register address.
    pub fn id() -> (r: u16)
        ensures
            r == 0x0819,
    {
        0x0819
    }

    /// The value read from four big-endian bytes.
    pub open spec fn spec_from_bytes(bytes: Seq<u8>) -> RandomNumber
        recommends
            bytes.len() == 4,
    {
        RandomNumber { value: spec_u32_from_be(bytes[0], bytes[1], bytes[2], bytes[3]) }
    }

    pub fn from_bytes(bytes: [u8; 4]) -> (r: RandomNumber)
        ensures
            r == RandomNumber::spec_from_bytes(bytes@),
    {
        RandomNumber { value: u32_from_be(bytes[0], bytes[1], bytes[2], bytes[3]) }
    }
}

/// TX modulation register (address 0x0889).
///
/// Bandwidth optimization bit for transmit modulation quality: clear it
/// for LoRa at 500 kHz bandwidth, set it for every other LoRa bandwidth
/// and for GFSK.
#[derive(Debug, Clone, Copy, PartialEq, Eq, Structural)]
pub struct TxModulation {
    /// Bandwidth optimization (bit 2); true is the chip default.
    pub bw_500khz_opt: bool,
}

impl TxModulation {
    /// The register address.
    pub fn id() -> (r: u16)
        ensures
            r == 0x0889,
    {
        0x0889
    }

    /// One byte with the optimization flag in bit 2.
    pub open spec fn spec_to_bytes(self) -> Seq<u8> {
        seq![
            if self.bw_500khz_opt {
                4u8
            } else {
                0u8
            },
        ]
    }

    /// The optimization flag read back from bit 2 of one byte; other
    /// bits are ignored.
    pub open spec fn spec_from_bytes(bytes: Seq<u8>) -> TxModulation
        recommends
            bytes.len() == 1,
    {
        TxModulation { bw_500khz_opt: (bytes[0] / 4) % 2 == 1 }
    }

    pub fn to_bytes(self) -> (r: [u8; 1])
        ensures
            r@ == self.spec_to_bytes(),
    {
        let r = [
            if self.bw_500khz_opt {
                4u8
            } else {
                0u8
            },
        ];
        proof {
            assert(r@ =~= self.spec_to_bytes());
        }
        r
    }

    pub fn from_bytes(bytes: [u8; 1]) -> (r: TxModulation)
        ensures
            r == TxModulation::spec_from_bytes(bytes@),
    {
        TxModulation { bw_500khz_opt: (bytes[0] / 4) % 2 == 1 }
    }
}

impl Default for TxModulation {
    /// Optimization enabled, the chip default.
    fn default() -> (r: Self)
        ensures
            r == (TxModulation { bw_500khz_opt: true }),
    {
        TxModulation { bw_500khz_opt: true }
    }
}

/// Decoding the encoded TX modulation setting recovers it.
pub proof fn lemma_tx_modulation_roundtrip(v: TxModulation)
    ensures
        TxModulation::spec_from_bytes(v.spec_to_bytes()) == v,
{
}

/// Error for a gain byte that matches no defined RX gain mode.
#[derive(Debug, Clone, Copy, PartialEq, Eq, Structural)]
pub struct InvalidGainMode(pub u8);

/// RX gain register (address 0x08AC).
///
/// Trades receiver sensitivity against power consumption. The setting
/// is not retained through sleep unless the register is put on the
/// retention list.
#[derive(Debug, Clone, Copy, PartialEq, Eq, Structural)]
pub enum RxGain {
    /// Power saving gain (wire code 0x94): lower consumption, about
    /// 3 dB less sensitivity.
    PowerSaving,
    /// Boosted gain (wire code 0x96): maximum sensitivity.
    Boosted,
}

impl RxGain {
    /// The register address.
    pub fn id() -> (r: u16)
        ensures
            r == 0x08AC,
    {
        0x08AC
    }

    /// The chip-defined wire code of each gain mode.
    pub open spec fn spec_to_byte(self) -> u8 {
        match self {
            RxGain::PowerSaving => 0x94,
            RxGain::Boosted => 0x96,
        }
    }

    /// The gain mode named by a byte; bytes that match no defined mode
    /// are rejected with the offending value.
    pub open spec fn spec_from_byte(value: u8) -> Result<RxGain, InvalidGainMode> {
        if value == 0x94 {
            Ok(RxGain::PowerSaving)
        } else if value == 0x96 {
            Ok(RxGain::Boosted)
        } else {
            Err(InvalidGainMode(value))
        }
    }

    /// Converts a raw byte value to a gain mode.
    pub fn from_byte(value: u8) -> (r: Result<RxGain, InvalidGainMode>)
        ensures
            r == RxGain::spec_from_byte(value),
    {
        match value {
            0x94 => Ok(RxGain::PowerSaving),
            0x96 => Ok(RxGain::Boosted),
            invalid => Err(InvalidGainMode(invalid)),
        }
    }

    /// Converts a gain mode to its raw byte value.
    pub fn to_byte(self) -> (r: u8)
        ensures
            r == self.spec_to_byte(),
    {
        match self {
            RxGain::PowerSaving => 0x94,
            RxGain::Boosted => 0x96,
        }
    }

    /// The single wire byte of the gain mode.
    pub open spec fn spec_to_bytes(self) -> Seq<u8> {
        seq![self.spec_to_byte()]
    }

    /// The gain mode read back from one byte; invalid bytes are
    /// rejected.
    pub open spec fn spec_from_bytes(bytes: Seq<u8>) -> Result<RxGain, InvalidGainMode>
        recommends
            bytes.len() == 1,
    {
        RxGain::spec_from_byte(bytes[0])
    }

    pub fn to_bytes(self) -> (r: [u8; 1])
        ensures
            r@ == self.spec_to_bytes(),
    {
        let r = [self.to_byte()];
        proof {
            assert(r@ =~= self.spec_to_bytes());
        }
        r
    }

    pub fn from_bytes(bytes: [u8; 1]) -> (r: Result<RxGain, InvalidGainMode>)
        ensures
            r == RxGain::spec_from_bytes(bytes@),
    {
        RxGain::from_byte(bytes[0])
    }
}

impl Default for RxGain {
    /// Power saving gain.
    fn default() -> (r: Self)
        ensures
            r == RxGain::PowerSaving,
    {
        RxGain::PowerSaving
    }
}

/// Decoding the encoded gain mode recovers it.
pub proof fn lemma_rx_gain_roundtrip(v: RxGain)
    ensures
        RxGain::spec_from_bytes(v.spec_to_bytes()) == Ok::<RxGain, InvalidGainMode>(v),
{
}

/// TX clamp configuration register (address 0x08D8).
///
/// PA clamping threshold protecting against over-voltage; set the
/// threshold to 0xF on the SX1262 for the optimal clamp.
#[derive(Debug, Clone, Copy, PartialEq, Eq, Structural)]
pub struct TxClampConfig {
    /// Clamping threshold, carried in bits 4:1 of the register byte;
    /// the chip default is 0x4.
    pub threshold: u8,
}

impl TxClampConfig {
    /// The register address.
    pub fn id() -> (r: u16)
        ensures
            r == 0x08D8,
    {
        0x08D8
    }

    /// Only thresholds that fit the four wire bits survive a round
    /// trip.
    pub open spec fn wf(self) -> bool {
        self.threshold < 16
    }

    /// One byte with the low four threshold bits shifted into
    /// bits 4:1.
    pub open spec fn spec_to_bytes(self) -> Seq<u8> {
        seq![((self.threshold % 16) * 2) as u8]
    }

    /// The threshold read back from bits 4:1 of one byte.
    pub open spec fn spec_from_bytes(bytes: Seq<u8>) -> TxClampConfig
        recommends
            bytes.len() == 1,
    {
        TxClampConfig { threshold: (bytes[0] / 2) % 16 }
    }

    pub fn to_bytes(self) -> (r: [u8; 1])
        ensures
            r@ == self.spec_to_bytes(),
    {
        let r = [(self.threshold % 16) * 2];
        proof {
            assert(r@ =~= self.spec_to_bytes());
        }
        r
    }

    pub fn from_bytes(bytes: [u8; 1]) -> (r: TxClampConfig)
        ensures
            r == TxClampConfig::spec_from_bytes(bytes@),
    {
        TxClampConfig { threshold: (bytes[0] / 2) % 16 }
    }
}

impl Default for TxClampConfig {
    /// The chip default clamping threshold.
    fn default() -> (r: Self)
        ensures
            r == (TxClampConfig { threshold: 0x4 }),
    {
        TxClampConfig { threshold: 0x4 }
    }
}

/// Decoding the encoded clamp threshold recovers it for every value
/// that fits the four wire bits.
pub proof fn lemma_tx_clamp_config_roundtrip(v: TxClampConfig)
    requires
        v.wf(),
    ensures
        TxClampConfig::spec_from_bytes(v.spec_to_bytes()) == v,
{
}

/// Over-current protection configuration register (address 0x08E7).
///
/// Current limit for the power amplifier in steps of 2.5 mA; rewritten
/// automatically whenever SetPaConfig runs.
#[derive(Debug, Clone, Copy, PartialEq, Eq, Structural)]
pub struct OcpConfiguration {
    /// Current limit in steps of 2.5 mA; the default is 0x18 (60 mA)
    /// for the SX1261 and 0x38 (140 mA) for the SX1262.
    pub threshold: u8,
}

impl OcpConfiguration {
    /// The register address.
    pub fn id() -> (r: u16)
        ensures
            r == 0x08E7,
    {
        0x08E7
    }

    /// The single threshold byte.
    pub open spec fn spec_to_bytes(self) -> Seq<u8> {
        seq![self.threshold]
    }

    /// The threshold read back from one byte.
    pub open spec fn spec_from_bytes(bytes: Seq<u8>) -> OcpConfiguration
        recommends
            bytes.len() == 1,
    {
        OcpConfiguration { threshold: bytes[0] }
    }

    pub fn to_bytes(self) -> (r: [u8; 1])
        ensures
            r@ == self.spec_to_bytes(),
    {
        let r = [self.threshold];
        proof {
            assert(r@ =~= self.spec_to_bytes());
        }
        r
    }

    pub fn from_bytes(bytes: [u8; 1]) -> (r: OcpConfiguration)
        ensures
            r == OcpConfiguration::spec_from_bytes(bytes@),
    {
        OcpConfiguration { threshold: bytes[0] }
    }
}

impl Default for OcpConfiguration {
    /// The SX1261 default current limit.
    fn default() -> (r: Self)
        ensures
            r == (OcpConfiguration { threshold: 0x18 }),
    {
        OcpConfiguration { threshold: 0x18 }
    }
}

/// Decoding the encoded OCP threshold recovers it.
pub proof fn lemma_ocp_configuration_roundtrip(v: OcpConfiguration)
    ensures
        OcpConfiguration::spec_from_bytes(v.spec_to_bytes()) == v,
{
}

} // verus!
