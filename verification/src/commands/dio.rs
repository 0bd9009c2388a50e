//! DIO and IRQ control commands.
//!
//! These commands configure which interrupt sources are enabled, how
//! they map onto the three DIO pins, and the dedicated uses of DIO2 (RF
//! switch control) and DIO3 (TCXO supply control).

use crate::wire::{spec_u16_be, spec_u16_from_be, spec_u32_be};
use vstd::prelude::*;

verus! {

/// IRQ flag set of the radio.
///
/// Each flag is an independent bit of a 16-bit mask; bits 9 through 15
/// are reserved. Decoding ignores reserved bits rather than rejecting
/// them, so masks from newer chip revisions still decode.
#[derive(Debug, Clone, Copy, PartialEq, Eq, Structural)]
pub struct IrqMask {
    /// Packet transmission completed (bit 0).
    pub tx_done: bool,
    /// Packet received (bit 1).
    pub rx_done: bool,
    /// Preamble detected (bit 2).
    pub preamble_detected: bool,
    /// Valid sync word detected (GFSK) or valid header received (LoRa)
    /// (bit 3).
    pub sync_word_valid: bool,
    /// Header CRC error (LoRa) (bit 4).
    pub header_error: bool,
    /// Payload CRC error (bit 5).
    pub crc_error: bool,
    /// Channel activity detection finished (bit 6).
    pub cad_done: bool,
    /// Channel activity detected (bit 7).
    pub cad_detected: bool,
    /// RX or TX timeout (bit 8).
    pub timeout: bool,
}

impl IrqMask {
    /// The mask with no flag set.
    pub open spec fn spec_empty() -> IrqMask {
        IrqMask {
            tx_done: false,
            rx_done: false,
            preamble_detected: false,
            sync_word_valid: false,
            header_error: false,
            crc_error: false,
            cad_done: false,
            cad_detected: false,
            timeout: false,
        }
    }

    pub fn empty() -> (r: IrqMask)
        ensures
            r == IrqMask::spec_empty(),
    {
        IrqMask {
            tx_done: false,
            rx_done: false,
            preamble_detected: false,
            sync_word_valid: false,
            header_error: false,
            crc_error: false,
            cad_done: false,
            cad_detected: false,
            timeout: false,
        }
    }

    /// The 16-bit mask: the sum of the weights of the set flags. The
    /// result does not depend on any iteration order.
    pub open spec fn spec_bits(self) -> u16 {
        ((if self.tx_done {
            1int
        } else {
            0int
        }) + (if self.rx_done {
            2int
        } else {
            0int
        }) + (if self.preamble_detected {
            4int
        } else {
            0int
        }) + (if self.sync_word_valid {
            8int
        } else {
            0int
        }) + (if self.header_error {
            16int
        } else {
            0int
        }) + (if self.crc_error {
            32int
        } else {
            0int
        }) + (if self.cad_done {
            64int
        } else {
            0int
        }) + (if self.cad_detected {
            128int
        } else {
            0int
        }) + (if self.timeout {
            256int
        } else {
            0int
        })) as u16
    }

    /// The flag set of a 16-bit mask; reserved bits are ignored.
    pub open spec fn spec_from_bits(v: u16) -> IrqMask {
        IrqMask {
            tx_done: v % 2 == 1,
            rx_done: (v / 2) % 2 == 1,
            preamble_detected: (v / 4) % 2 == 1,
            sync_word_valid: (v / 8) % 2 == 1,
            header_error: (v / 16) % 2 == 1,
            crc_error: (v / 32) % 2 == 1,
            cad_done: (v / 64) % 2 == 1,
            cad_detected: (v / 128) % 2 == 1,
            timeout: (v / 256) % 2 == 1,
        }
    }

    pub fn bits(self) -> (r: u16)
        ensures
            r == self.spec_bits(),
    {
        (if self.tx_done {
            1u16
        } else {
            0u16
        }) + (if self.rx_done {
            2
        } else {
            0
        }) + (if self.preamble_detected {
            4
        } else {
            0
        }) + (if self.sync_word_valid {
            8
        } else {
            0
        }) + (if self.header_error {
            16
        } else {
            0
        }) + (if self.crc_error {
            32
        } else {
            0
        }) + (if self.cad_done {
            64
        } else {
            0
        }) + (if self.cad_detected {
            128
        } else {
            0
        }) + (if self.timeout {
            256
        } else {
            0
        })
    }

    pub fn from_bits(v: u16) -> (r: IrqMask)
        ensures
            r == IrqMask::spec_from_bits(v),
    {
        IrqMask {
            tx_done: v % 2 == 1,
            rx_done: (v / 2) % 2 == 1,
            preamble_detected: (v / 4) % 2 == 1,
            sync_word_valid: (v / 8) % 2 == 1,
            header_error: (v / 16) % 2 == 1,
            crc_error: (v / 32) % 2 == 1,
            cad_done: (v / 64) % 2 == 1,
            cad_detected: (v / 128) % 2 == 1,
            timeout: (v / 256) % 2 == 1,
        }
    }

    /// The two big-endian bytes of the mask.
    pub open spec fn spec_to_bytes(self) -> Seq<u8> {
        spec_u16_be(self.spec_bits())
    }

    /// The flag set read back from two big-endian bytes.
    pub open spec fn spec_from_bytes(bytes: Seq<u8>) -> IrqMask
        recommends
            bytes.len() == 2,
    {
        IrqMask::spec_from_bits(spec_u16_from_be(bytes[0], bytes[1]))
    }

    pub fn to_bytes(self) -> (r: [u8; 2])
        ensures
            r@ == self.spec_to_bytes(),
    {
        let v = self.bits();
        let r = [(v / 0x100) as u8, (v % 0x100) as u8];
        proof {
            assert(r@ =~= self.spec_to_bytes());
        }
        r
    }

    pub fn from_bytes(bytes: [u8; 2]) -> (r: IrqMask)
        ensures
            r == IrqMask::spec_from_bytes(bytes@),
    {
        let v = (bytes[0] as u16) * 0x100 + (bytes[1] as u16);
        IrqMask::from_bits(v)
    }
}

/// Decoding the encoded flag set recovers exactly the flags that were
/// set, whatever combination they were; packing and unpacking are
/// inverse, so the mask codec is idempotent and order-independent.
pub proof fn lemma_irq_mask_roundtrip(m: IrqMask)
    ensures
        IrqMask::spec_from_bytes(m.spec_to_bytes()) == m,
{
}

/// Two wire masks that agree on the nine defined bits decode to the
/// same flag set: the reserved bits 9 through 15 are ignored, never
/// rejected.
pub proof fn lemma_irq_mask_ignores_reserved_bits(v: u16, w: u16)
    requires
        v % 512 == w % 512,
    ensures
        IrqMask::spec_from_bits(v) == IrqMask::spec_from_bits(w),
{
    assert((v % 2 == w % 2) && ((v / 2) % 2 == (w / 2) % 2) && ((v / 4) % 2 == (w / 4) % 2) && ((v
        / 8) % 2 == (w / 8) % 2) && ((v / 16) % 2 == (w / 16) % 2) && ((v / 32) % 2 == (w / 32) % 2)
        && ((v / 64) % 2 == (w / 64) % 2) && ((v / 128) % 2 == (w / 128) % 2) && ((v / 256) % 2 == (
    w / 256) % 2)) by (bit_vector)
        requires
            v % 512 == w % 512,
    ;
}

/// DIO and IRQ configuration parameters.
///
/// An interrupt is generated when enabled in `irq_mask`, and appears on
/// a DIO pin when the corresponding bit is also set in that pin's mask.
#[derive(Debug, Clone, Copy, PartialEq, Eq, Structural)]
pub struct DioIrqConfig {
    /// IRQ enable mask.
    pub irq_mask: IrqMask,
    /// DIO1 interrupt mapping mask.
    pub dio1_mask: IrqMask,
    /// DIO2 interrupt mapping mask; ignored when DIO2 drives the RF
    /// switch.
    pub dio2_mask: IrqMask,
    /// DIO3 interrupt mapping mask; ignored when DIO3 powers the TCXO.
    pub dio3_mask: IrqMask,
}

impl DioIrqConfig {
    /// The four masks, each as two big-endian bytes.
    pub open spec fn spec_to_bytes(self) -> Seq<u8> {
        spec_u16_be(self.irq_mask.spec_bits()) + spec_u16_be(self.dio1_mask.spec_bits())
            + spec_u16_be(self.dio2_mask.spec_bits()) + spec_u16_be(self.dio3_mask.spec_bits())
    }

    pub fn to_bytes(self) -> (r: [u8; 8])
        ensures
            r@ == self.spec_to_bytes(),
    {
        let m0 = self.irq_mask.bits();
        let m1 = self.dio1_mask.bits();
        let m2 = self.dio2_mask.bits();
        let m3 = self.dio3_mask.bits();
        let r = [
            (m0 / 0x100) as u8,
            (m0 % 0x100) as u8,
            (m1 / 0x100) as u8,
            (m1 % 0x100) as u8,
            (m2 / 0x100) as u8,
            (m2 % 0x100) as u8,
            (m3 / 0x100) as u8,
            (m3 % 0x100) as u8,
        ];
        proof {
            assert(r@ =~= self.spec_to_bytes());
        }
        r
    }
}

/// SetDioIrqParams command (opcode 0x08).
///
/// Configures the mapping between interrupt sources and DIO pins.
#[derive(Debug, Clone, Copy)]
pub struct SetDioIrqParams {
    /// DIO and IRQ configuration parameters.
    pub config: DioIrqConfig,
}

impl SetDioIrqParams {
    pub fn id() -> (r: u8)
        ensures
            r == 0x08,
    {
        0x08
    }

    pub fn invoking_parameters(self) -> (r: DioIrqConfig)
        ensures
            r == self.config,
    {
        self.config
    }
}

/// GetIrqStatus command (opcode 0x12).
///
/// Reads the current state of all interrupt flags; flags stay set until
/// cleared with ClearIrqStatus.
#[derive(Debug, Clone, Copy)]
pub struct GetIrqStatus;

impl GetIrqStatus {
    pub fn id() -> (r: u8)
        ensures
            r == 0x12,
    {
        0x12
    }

    pub fn invoking_parameters(self) -> (r: NopParameters<1>)
        ensures
            r == NopParameters::<1>,
    {
        NopParameters
    }
}

/// ClearIrqStatus command (opcode 0x02).
///
/// Clears the interrupt flags whose mask bits are set.
#[derive(Debug, Clone, Copy)]
pub struct ClearIrqStatus {
    /// IRQ flags to clear.
    pub irq_mask: IrqMask,
}

impl ClearIrqStatus {
    pub fn id() -> (r: u8)
        ensures
            r == 0x02,
    {
        0x02
    }

    pub fn invoking_parameters(self) -> (r: IrqMask)
        ensures
            r == self.irq_mask,
    {
        self.irq_mask
    }
}

/// RF switch control configuration.
#[derive(Debug, Clone, Copy, PartialEq, Eq, Structural)]
pub struct RfSwitchConfig {
    /// When true DIO2 drives the RF switch; when false DIO2 stays
    /// available for IRQ mapping.
    pub enable: bool,
}

impl RfSwitchConfig {
    /// A single byte: 1 when enabled, 0 otherwise.
    pub open spec fn spec_to_bytes(self) -> Seq<u8> {
        seq![
            if self.enable {
                1u8
            } else {
                0u8
            },
        ]
    }

    pub fn to_bytes(self) -> (r: [u8; 1])
        ensures
            r@ == self.spec_to_bytes(),
    {
        let r = [
            if self.enable {
                1u8
            } else {
                0u8
            },
        ];
        proof {
            assert(r@ =~= self.spec_to_bytes());
        }
        r
    }
}

/// SetDio2AsRfSwitchCtrl command (opcode 0x9D).
///
/// Makes DIO2 drive an RF switch automatically: high in TX, low
/// otherwise. Overrides any IRQ mapping on DIO2.
#[derive(Debug, Clone, Copy)]
pub struct SetDio2AsRfSwitchCtrl {
    /// RF switch configuration.
    pub config: RfSwitchConfig,
}

impl SetDio2AsRfSwitchCtrl {
    pub fn id() -> (r: u8)
        ensures
            r == 0x9D,
    {
        0x9D
    }

    pub fn invoking_parameters(self) -> (r: RfSwitchConfig)
        ensures
            r == self.config,
    {
        self.config
    }
}

/// TCXO supply voltage options; the battery voltage must exceed the
/// selected voltage by at least 200 mV.
#[derive(Debug, Clone, Copy, PartialEq, Eq, Structural)]
pub enum TcxoVoltage {
    /// 1.6 V.
    V1_6,
    /// 1.7 V.
    V1_7,
    /// 1.8 V.
    V1_8,
    /// 2.2 V.
    V2_2,
    /// 2.4 V.
    V2_4,
    /// 2.7 V.
    V2_7,
    /// 3.0 V.
    V3_0,
    /// 3.3 V.
    V3_3,
}

impl TcxoVoltage {
    /// The chip-defined wire code of each voltage.
    pub open spec fn spec_code(self) -> u8 {
        match self {
            TcxoVoltage::V1_6 => 0x00,
            TcxoVoltage::V1_7 => 0x01,
            TcxoVoltage::V1_8 => 0x02,
            TcxoVoltage::V2_2 => 0x03,
            TcxoVoltage::V2_4 => 0x04,
            TcxoVoltage::V2_7 => 0x05,
            TcxoVoltage::V3_0 => 0x06,
            TcxoVoltage::V3_3 => 0x07,
        }
    }

    pub fn code(self) -> (r: u8)
        ensures
            r == self.spec_code(),
    {
        match self {
            TcxoVoltage::V1_6 => 0x00,
            TcxoVoltage::V1_7 => 0x01,
            TcxoVoltage::V1_8 => 0x02,
            TcxoVoltage::V2_2 => 0x03,
            TcxoVoltage::V2_4 => 0x04,
            TcxoVoltage::V2_7 => 0x05,
            TcxoVoltage::V3_0 => 0x06,
            TcxoVoltage::V3_3 => 0x07,
        }
    }
}

/// TCXO control configuration.
#[derive(Debug, Clone, Copy, PartialEq, Eq, Structural)]
pub struct TcxoConfig {
    /// TCXO supply voltage.
    pub voltage: TcxoVoltage,
    /// Stabilization delay in steps of 15.625 microseconds; the chip
    /// waits this long after powering the TCXO before operating.
    pub delay: u32,
}

impl TcxoConfig {
    /// The voltage code followed by the 32-bit delay.
    pub open spec fn spec_to_bytes(self) -> Seq<u8> {
        seq![self.voltage.spec_code()] + spec_u32_be(self.delay)
    }

    pub fn to_bytes(self) -> (r: [u8; 5])
        ensures
            r@ == self.spec_to_bytes(),
    {
        let d = self.delay;
        let r = [
            self.voltage.code(),
            (d / 0x1000000) as u8,
            ((d / 0x10000) % 0x100) as u8,
            ((d / 0x100) % 0x100) as u8,
            (d % 0x100) as u8,
        ];
        proof {
            assert(r@ =~= self.spec_to_bytes());
        }
        r
    }
}

/// SetDio3AsTcxoCtrl command (opcode 0x97).
///
/// Makes DIO3 supply a regulated voltage to an external TCXO. Overrides
/// any IRQ mapping on DIO3.
#[derive(Debug, Clone, Copy)]
pub struct SetDio3AsTcxoCtrl {
    /// TCXO configuration.
    pub config: TcxoConfig,
}

impl SetDio3AsTcxoCtrl {
    pub fn id() -> (r: u8)
        ensures
            r == 0x97,
    {
        0x97
    }

    pub fn invoking_parameters(self) -> (r: TcxoConfig)
        ensures
            r == self.config,
    {
        self.config
    }
}

/// Zero-filled parameters for read commands that clock out padding
/// bytes before the data is ready, as GetIrqStatus does.
#[derive(Debug, Clone, Copy)]
pub struct NopParameters<const N: usize>;

impl<const N: usize> NopParameters<N> {
    /// N zero bytes.
    pub open spec fn spec_to_bytes(self) -> Seq<u8> {
        Seq::new(N as nat, |i: int| 0u8)
    }

    pub fn to_bytes(self) -> (r: [u8; N])
        ensures
            r@ == self.spec_to_bytes(),
    {
        let r = [0u8; N];
        proof {
            assert(r@ =~= self.spec_to_bytes());
        }
        r
    }

    pub fn from_bytes(bytes: [u8; N]) -> (r: NopParameters<N>)
        ensures
            r == NopParameters::<N>,
    {
        NopParameters
    }
}

impl<const N: usize> Default for NopParameters<N> {
    fn default() -> (r: Self)
        ensures
            r == NopParameters::<N>,
    {
        NopParameters
    }
}

} // verus!
