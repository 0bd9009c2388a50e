//! Packet handling registers.
//!
//! These registers configure data whitening, CRC calculation, sync
//! words, address filtering and IQ polarity; together with the packet
//! parameter commands they define the complete packet format.

use crate::wire::{spec_u16_be, spec_u16_from_be, u16_from_be};
use vstd::prelude::*;

verus! {

/// Whitening initial value register (address 0x06B8).
///
/// Initial state of the 9-bit whitening LFSR used in GFSK mode.
#[derive(Debug, Clone, Copy, PartialEq, Eq, Structural)]
pub struct WhiteningInitialValue {
    /// Initial LFSR value; the chip default is 0x0100.
    pub value: u16,
}

impl WhiteningInitialValue {
    /// The register address.
    pub fn id() -> (r: u16)
        ensures
            r == 0x06B8,
    {
        0x06B8
    }

    /// The two big-endian bytes of the value.
    pub open spec fn spec_to_bytes(self) -> Seq<u8> {
        spec_u16_be(self.value)
    }

    /// The value read back from two big-endian bytes.
    pub open spec fn spec_from_bytes(bytes: Seq<u8>) -> WhiteningInitialValue
        recommends
            bytes.len() == 2,
    {
        WhiteningInitialValue { value: spec_u16_from_be(bytes[0], bytes[1]) }
    }

    pub fn to_bytes(self) -> (r: [u8; 2])
        ensures
            r@ == self.spec_to_bytes(),
    {
        let r = [(self.value / 0x100) as u8, (self.value % 0x100) as u8];
        proof {
            assert(r@ =~= self.spec_to_bytes());
        }
        r
    }

    pub fn from_bytes(bytes: [u8; 2]) -> (r: WhiteningInitialValue)
        ensures
            r == WhiteningInitialValue::spec_from_bytes(bytes@),
    {
        WhiteningInitialValue { value: u16_from_be(bytes[0], bytes[1]) }
    }
}

impl Default for WhiteningInitialValue {
    /// The chip default whitening seed.
    fn default() -> (r: Self)
        ensures
            r == (WhiteningInitialValue { value: 0x0100 }),
    {
        WhiteningInitialValue { value: 0x0100 }
    }
}

/// Decoding the encoded whitening value recovers it.
pub proof fn lemma_whitening_initial_value_roundtrip(v: WhiteningInitialValue)
    ensures
        WhiteningInitialValue::spec_from_bytes(v.spec_to_bytes()) == v,
{
}

/// CRC initial value register (address 0x06BC).
///
/// Starting state for the GFSK CRC; 0xFFFF gives the IBM CRC-16 and
/// 0x1D0F the CCITT CRC-16 convention.
#[derive(Debug, Clone, Copy, PartialEq, Eq, Structural)]
pub struct CrcInitialValue {
    /// Initial CRC value; the chip default is 0x1D0F.
    pub value: u16,
}

impl CrcInitialValue {
    /// The register address.
    pub fn id() -> (r: u16)
        ensures
            r == 0x06BC,
    {
        0x06BC
    }

    /// The two big-endian bytes of the value.
    pub open spec fn spec_to_bytes(self) -> Seq<u8> {
        spec_u16_be(self.value)
    }

    /// The value read back from two big-endian bytes.
    pub open spec fn spec_from_bytes(bytes: Seq<u8>) -> CrcInitialValue
        recommends
            bytes.len() == 2,
    {
        CrcInitialValue { value: spec_u16_from_be(bytes[0], bytes[1]) }
    }

    pub fn to_bytes(self) -> (r: [u8; 2])
        ensures
            r@ == self.spec_to_bytes(),
    {
        let r = [(self.value / 0x100) as u8, (self.value % 0x100) as u8];
        proof {
            assert(r@ =~= self.spec_to_bytes());
        }
        r
    }

    pub fn from_bytes(bytes: [u8; 2]) -> (r: CrcInitialValue)
        ensures
            r == CrcInitialValue::spec_from_bytes(bytes@),
    {
        CrcInitialValue { value: u16_from_be(bytes[0], bytes[1]) }
    }
}

impl Default for CrcInitialValue {
    /// The chip default CRC seed.
    fn default() -> (r: Self)
        ensures
            r == (CrcInitialValue { value: 0x1D0F }),
    {
        CrcInitialValue { value: 0x1D0F }
    }
}

/// Decoding the encoded CRC initial value recovers it.
pub proof fn lemma_crc_initial_value_roundtrip(v: CrcInitialValue)
    ensures
        CrcInitialValue::spec_from_bytes(v.spec_to_bytes()) == v,
{
}

/// CRC polynomial register (address 0x06BE).
///
/// Polynomial for the GFSK CRC; 0x8005 gives the IBM CRC-16 and 0x1021
/// the CCITT CRC-16 convention. Transmitter and receiver must match.
#[derive(Debug, Clone, Copy, PartialEq, Eq, Structural)]
pub struct CrcPolynomial {
    /// CRC polynomial value; the chip default is 0x1021.
    pub value: u16,
}

impl CrcPolynomial {
    /// The register address.
    pub fn id() -> (r: u16)
        ensures
            r == 0x06BE,
    {
        0x06BE
    }

    /// The two big-endian bytes of the value.
    pub open spec fn spec_to_bytes(self) -> Seq<u8> {
        spec_u16_be(self.value)
    }

    /// The value read back from two big-endian bytes.
    pub open spec fn spec_from_bytes(bytes: Seq<u8>) -> CrcPolynomial
        recommends
            bytes.len() == 2,
    {
        CrcPolynomial { value: spec_u16_from_be(bytes[0], bytes[1]) }
    }

    pub fn to_bytes(self) -> (r: [u8; 2])
        ensures
            r@ == self.spec_to_bytes(),
    {
        let r = [(self.value / 0x100) as u8, (self.value % 0x100) as u8];
        proof {
            assert(r@ =~= self.spec_to_bytes());
        }
        r
    }

    pub fn from_bytes(bytes: [u8; 2]) -> (r: CrcPolynomial)
        ensures
            r == CrcPolynomial::spec_from_bytes(bytes@),
    {
        CrcPolynomial { value: u16_from_be(bytes[0], bytes[1]) }
    }
}

impl Default for CrcPolynomial {
    /// The chip default CRC polynomial.
    fn default() -> (r: Self)
        ensures
            r == (CrcPolynomial { value: 0x1021 }),
    {
        CrcPolynomial { value: 0x1021 }
    }
}

/// Decoding the encoded CRC polynomial recovers it.
pub proof fn lemma_crc_polynomial_roundtrip(v: CrcPolynomial)
    ensures
        CrcPolynomial::spec_from_bytes(v.spec_to_bytes()) == v,
{
}

/// GFSK sync word register (address 0x06C0).
///
/// Eight sync word bytes at consecutive addresses; the configured sync
/// word length selects how many of them are used.
#[derive(Debug, Clone, Copy, PartialEq, Eq)]
pub struct SyncWord {
    /// The eight sync word bytes.
    pub value: [u8; 8],
}

impl SyncWord {
    /// The register address.
    pub fn id() -> (r: u16)
        ensures
            r == 0x06C0,
    {
        0x06C0
    }

    /// The eight bytes, unchanged.
    pub open spec fn spec_to_bytes(self) -> Seq<u8> {
        self.value@
    }

    /// The sync word read back from eight bytes, unchanged.
    pub open spec fn spec_from_bytes(bytes: Seq<u8>) -> SyncWord
        recommends
            bytes.len() == 8,
    {
        SyncWord {
            value: [
                bytes[0],
                bytes[1],
                bytes[2],
                bytes[3],
                bytes[4],
                bytes[5],
                bytes[6],
                bytes[7],
            ],
        }
    }

    pub fn to_bytes(self) -> (r: [u8; 8])
        ensures
            r@ == self.spec_to_bytes(),
    {
        self.value
    }

    pub fn from_bytes(bytes: [u8; 8]) -> (r: SyncWord)
        ensures
            r == SyncWord::spec_from_bytes(bytes@),
    {
        proof {
            assert(bytes =~= SyncWord::spec_from_bytes(bytes@).value);
        }
        SyncWord { value: bytes }
    }
}

/// Decoding the encoded sync word recovers all eight bytes.
pub proof fn lemma_sync_word_roundtrip(v: SyncWord)
    ensures
        SyncWord::spec_from_bytes(v.spec_to_bytes()) == v,
{
    assert(SyncWord::spec_from_bytes(v.spec_to_bytes()).value =~= v.value);
}

/// Node address register for GFSK address filtering (address 0x06CD).
#[derive(Debug, Clone, Copy, PartialEq, Eq, Structural)]
pub struct NodeAddress {
    /// Node address accepted by the filter.
    pub address: u8,
}

impl NodeAddress {
    /// The register address.
    pub fn id() -> (r: u16)
        ensures
            r == 0x06CD,
    {
        0x06CD
    }

    /// The single address byte.
    pub open spec fn spec_to_bytes(self) -> Seq<u8> {
        seq![self.address]
    }

    /// The address read back from one byte.
    pub open spec fn spec_from_bytes(bytes: Seq<u8>) -> NodeAddress
        recommends
            bytes.len() == 1,
    {
        NodeAddress { address: bytes[0] }
    }

    pub fn to_bytes(self) -> (r: [u8; 1])
        ensures
            r@ == self.spec_to_bytes(),
    {
        let r = [self.address];
        proof {
            assert(r@ =~= self.spec_to_bytes());
        }
        r
    }

    pub fn from_bytes(bytes: [u8; 1]) -> (r: NodeAddress)
        ensures
            r == NodeAddress::spec_from_bytes(bytes@),
    {
        NodeAddress { address: bytes[0] }
    }
}

impl Default for NodeAddress {
    /// Node address zero.
    fn default() -> (r: Self)
        ensures
            r == (NodeAddress { address: 0 }),
    {
        NodeAddress { address: 0 }
    }
}

/// Decoding the encoded node address recovers it.
pub proof fn lemma_node_address_roundtrip(v: NodeAddress)
    ensures
        NodeAddress::spec_from_bytes(v.spec_to_bytes()) == v,
{
}

/// Broadcast address register for GFSK address filtering
/// (address 0x06CE).
#[derive(Debug, Clone, Copy, PartialEq, Eq, Structural)]
pub struct BroadcastAddress {
    /// Broadcast address accepted by the filter.
    pub address: u8,
}

impl BroadcastAddress {
    /// The register address.
    pub fn id() -> (r: u16)
        ensures
            r == 0x06CE,
    {
        0x06CE
    }

    /// The single address byte.
    pub open spec fn spec_to_bytes(self) -> Seq<u8> {
        seq![self.address]
    }

    /// The address read back from one byte.
    pub open spec fn spec_from_bytes(bytes: Seq<u8>) -> BroadcastAddress
        recommends
            bytes.len() == 1,
    {
        BroadcastAddress { address: bytes[0] }
    }

    pub fn to_bytes(self) -> (r: [u8; 1])
        ensures
            r@ == self.spec_to_bytes(),
    {
        let r = [self.address];
        proof {
            assert(r@ =~= self.spec_to_bytes());
        }
        r
    }

    pub fn from_bytes(bytes: [u8; 1]) -> (r: BroadcastAddress)
        ensures
            r == BroadcastAddress::spec_from_bytes(bytes@),
    {
        BroadcastAddress { address: bytes[0] }
    }
}

impl Default for BroadcastAddress {
    /// Broadcast address zero.
    fn default() -> (r: Self)
        ensures
            r == (BroadcastAddress { address: 0 }),
    {
        BroadcastAddress { address: 0 }
    }
}

/// Decoding the encoded broadcast address recovers it.
pub proof fn lemma_broadcast_address_roundtrip(v: BroadcastAddress)
    ensures
        BroadcastAddress::spec_from_bytes(v.spec_to_bytes()) == v,
{
}

/// IQ polarity setup register (address 0x0736).
///
/// Selects standard or inverted IQ for LoRa modulation.
#[derive(Debug, Clone, Copy, PartialEq, Eq, Structural)]
pub struct IqPolaritySetup {
    /// False for standard IQ (the default), true for inverted IQ.
    pub inverted_iq: bool,
}

impl IqPolaritySetup {
    /// The register address.
    pub fn id() -> (r: u16)
        ensures
            r == 0x0736,
    {
        0x0736
    }

    /// One byte: 1 for inverted IQ, 0 for standard.
    pub open spec fn spec_to_bytes(self) -> Seq<u8> {
        seq![
            if self.inverted_iq {
                1u8
            } else {
                0u8
            },
        ]
    }

    /// The IQ selection read back from bit 0 of one byte; higher bits
    /// are ignored.
    pub open spec fn spec_from_bytes(bytes: Seq<u8>) -> IqPolaritySetup
        recommends
            bytes.len() == 1,
    {
        IqPolaritySetup { inverted_iq: bytes[0] % 2 == 1 }
    }

    pub fn to_bytes(self) -> (r: [u8; 1])
        ensures
            r@ == self.spec_to_bytes(),
    {
        let r = [
            if self.inverted_iq {
                1u8
            } else {
                0u8
            },
        ];
        proof {
            assert(r@ =~= self.spec_to_bytes());
        }
        r
    }

    pub fn from_bytes(bytes: [u8; 1]) -> (r: IqPolaritySetup)
        ensures
            r == IqPolaritySetup::spec_from_bytes(bytes@),
    {
        IqPolaritySetup { inverted_iq: bytes[0] % 2 == 1 }
    }
}

impl Default for IqPolaritySetup {
    /// Standard IQ.
    fn default() -> (r: Self)
        ensures
            r == (IqPolaritySetup { inverted_iq: false }),
    {
        IqPolaritySetup { inverted_iq: false }
    }
}

/// Decoding the encoded IQ polarity recovers it.
pub proof fn lemma_iq_polarity_setup_roundtrip(v: IqPolaritySetup)
    ensures
        IqPolaritySetup::spec_from_bytes(v.spec_to_bytes()) == v,
{
}

/// LoRa sync word register (address 0x0740).
///
/// Network identification word: 0x3444 for public networks, 0x1424 for
/// private networks. All devices of a network must match.
#[derive(Debug, Clone, Copy, PartialEq, Eq, Structural)]
pub struct LoraSyncWord {
    /// Sync word value; the chip default is 0x1424.
    pub value: u16,
}

impl LoraSyncWord {
    /// The register address.
    pub fn id() -> (r: u16)
        ensures
            r == 0x0740,
    {
        0x0740
    }

    /// The two big-endian bytes of the value.
    pub open spec fn spec_to_bytes(self) -> Seq<u8> {
        spec_u16_be(self.value)
    }

    /// The value read back from two big-endian bytes.
    pub open spec fn spec_from_bytes(bytes: Seq<u8>) -> LoraSyncWord
        recommends
            bytes.len() == 2,
    {
        LoraSyncWord { value: spec_u16_from_be(bytes[0], bytes[1]) }
    }

    pub fn to_bytes(self) -> (r: [u8; 2])
        ensures
            r@ == self.spec_to_bytes(),
    {
        let r = [(self.value / 0x100) as u8, (self.value % 0x100) as u8];
        proof {
            assert(r@ =~= self.spec_to_bytes());
        }
        r
    }

    pub fn from_bytes(bytes: [u8; 2]) -> (r: LoraSyncWord)
        ensures
            r == LoraSyncWord::spec_from_bytes(bytes@),
    {
        LoraSyncWord { value: u16_from_be(bytes[0], bytes[1]) }
    }
}

impl Default for LoraSyncWord {
    /// The private network sync word.
    fn default() -> (r: Self)
        ensures
            r == (LoraSyncWord { value: 0x1424 }),
    {
        LoraSyncWord { value: 0x1424 }
    }
}

/// Decoding the encoded LoRa sync word recovers it.
pub proof fn lemma_lora_sync_word_roundtrip(v: LoraSyncWord)
    ensures
        LoraSyncWord::spec_from_bytes(v.spec_to_bytes()) == v,
{
}

} // verus!
