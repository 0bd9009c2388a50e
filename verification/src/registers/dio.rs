//! DIO pin configuration registers.
//!
//! The three configurable DIO pins can each be an input or an output,
//! with optional pull-up and pull-down resistors. DIO3 can additionally
//! supply a regulated voltage for an external TCXO.

use vstd::prelude::*;

verus! {

/// DIO output enable register (address 0x0580).
///
/// Selects which DIO pins are outputs; ignored for a pin that drives
/// the RF switch or the TCXO supply.
#[derive(Debug, Clone, Copy, PartialEq, Eq, Structural)]
pub struct DioOutputEnable {
    /// Enable DIO1 as output (bit 0).
    pub dio1: bool,
    /// Enable DIO2 as output (bit 1).
    pub dio2: bool,
    /// Enable DIO3 as output (bit 2).
    pub dio3: bool,
}

impl DioOutputEnable {
    /// The register address.
    pub fn id() -> (r: u16)
        ensures
            r == 0x0580,
    {
        0x0580
    }

    /// One byte with DIO1 in bit 0, DIO2 in bit 1, DIO3 in bit 2.
    pub open spec fn spec_to_bytes(self) -> Seq<u8> {
        seq![
            ((if self.dio1 {
                1int
            } else {
                0int
            }) + (if self.dio2 {
                2int
            } else {
                0int
            }) + (if self.dio3 {
                4int
            } else {
                0int
            })) as u8,
        ]
    }

    /// The three enable bits read back from one byte; higher bits are
    /// ignored.
    pub open spec fn spec_from_bytes(bytes: Seq<u8>) -> DioOutputEnable
        recommends
            bytes.len() == 1,
    {
        DioOutputEnable {
            dio1: bytes[0] % 2 == 1,
            dio2: (bytes[0] / 2) % 2 == 1,
            dio3: (bytes[0] / 4) % 2 == 1,
        }
    }

    pub fn to_bytes(self) -> (r: [u8; 1])
        ensures
            r@ == self.spec_to_bytes(),
    {
        let bits = (if self.dio1 {
            1u8
        } else {
            0u8
        }) + (if self.dio2 {
            2
        } else {
            0
        }) + (if self.dio3 {
            4
        } else {
            0
        });
        let r = [bits];
        proof {
            assert(r@ =~= self.spec_to_bytes());
        }
        r
    }

    pub fn from_bytes(bytes: [u8; 1]) -> (r: DioOutputEnable)
        ensures
            r == DioOutputEnable::spec_from_bytes(bytes@),
    {
        DioOutputEnable {
            dio1: bytes[0] % 2 == 1,
            dio2: (bytes[0] / 2) % 2 == 1,
            dio3: (bytes[0] / 4) % 2 == 1,
        }
    }
}

/// Decoding the encoded output enables recovers all three flags.
pub proof fn lemma_dio_output_enable_roundtrip(v: DioOutputEnable)
    ensures
        DioOutputEnable::spec_from_bytes(v.spec_to_bytes()) == v,
{
}

/// DIO input enable register (address 0x0583).
///
/// Selects which DIO pins are inputs; the input state can be read even
/// for pins configured as outputs.
#[derive(Debug, Clone, Copy, PartialEq, Eq, Structural)]
pub struct DioInputEnable {
    /// Enable DIO1 as input (bit 0).
    pub dio1: bool,
    /// Enable DIO2 as input (bit 1).
    pub dio2: bool,
    /// Enable DIO3 as input (bit 2).
    pub dio3: bool,
}

impl DioInputEnable {
    /// The register address.
    pub fn id() -> (r: u16)
        ensures
            r == 0x0583,
    {
        0x0583
    }

    /// One byte with DIO1 in bit 0, DIO2 in bit 1, DIO3 in bit 2.
    pub open spec fn spec_to_bytes(self) -> Seq<u8> {
        seq![
            ((if self.dio1 {
                1int
            } else {
                0int
            }) + (if self.dio2 {
                2int
            } else {
                0int
            }) + (if self.dio3 {
                4int
            } else {
                0int
            })) as u8,
        ]
    }

    /// The three enable bits read back from one byte; higher bits are
    /// ignored.
    pub open spec fn spec_from_bytes(bytes: Seq<u8>) -> DioInputEnable
        recommends
            bytes.len() == 1,
    {
        DioInputEnable {
            dio1: bytes[0] % 2 == 1,
            dio2: (bytes[0] / 2) % 2 == 1,
            dio3: (bytes[0] / 4) % 2 == 1,
        }
    }

    pub fn to_bytes(self) -> (r: [u8; 1])
        ensures
            r@ == self.spec_to_bytes(),
    {
        let bits = (if self.dio1 {
            1u8
        } else {
            0u8
        }) + (if self.dio2 {
            2
        } else {
            0
        }) + (if self.dio3 {
            4
        } else {
            0
        });
        let r = [bits];
        proof {
            assert(r@ =~= self.spec_to_bytes());
        }
        r
    }

    pub fn from_bytes(bytes: [u8; 1]) -> (r: DioInputEnable)
        ensures
            r == DioInputEnable::spec_from_bytes(bytes@),
    {
        DioInputEnable {
            dio1: bytes[0] % 2 == 1,
            dio2: (bytes[0] / 2) % 2 == 1,
            dio3: (bytes[0] / 4) % 2 == 1,
        }
    }
}

/// Decoding the encoded input enables recovers all three flags.
pub proof fn lemma_dio_input_enable_roundtrip(v: DioInputEnable)
    ensures
        DioInputEnable::spec_from_bytes(v.spec_to_bytes()) == v,
{
}

/// DIO pull-up control register (address 0x0584).
///
/// Enables the roughly 50 kOhm internal pull-up resistors; do not
/// enable pull-up and pull-down on the same pin.
#[derive(Debug, Clone, Copy, PartialEq, Eq, Structural)]
pub struct DioPullUpControl {
    /// Enable pull-up on DIO1 (bit 0).
    pub dio1: bool,
    /// Enable pull-up on DIO2 (bit 1).
    pub dio2: bool,
    /// Enable pull-up on DIO3 (bit 2).
    pub dio3: bool,
}

impl DioPullUpControl {
    /// The register address.
    pub fn id() -> (r: u16)
        ensures
            r == 0x0584,
    {
        0x0584
    }

    /// One byte with DIO1 in bit 0, DIO2 in bit 1, DIO3 in bit 2.
    pub open spec fn spec_to_bytes(self) -> Seq<u8> {
        seq![
            ((if self.dio1 {
                1int
            } else {
                0int
            }) + (if self.dio2 {
                2int
            } else {
                0int
            }) + (if self.dio3 {
                4int
            } else {
                0int
            })) as u8,
        ]
    }

    /// The three pull-up bits read back from one byte; higher bits are
    /// ignored.
    pub open spec fn spec_from_bytes(bytes: Seq<u8>) -> DioPullUpControl
        recommends
            bytes.len() == 1,
    {
        DioPullUpControl {
            dio1: bytes[0] % 2 == 1,
            dio2: (bytes[0] / 2) % 2 == 1,
            dio3: (bytes[0] / 4) % 2 == 1,
        }
    }

    pub fn to_bytes(self) -> (r: [u8; 1])
        ensures
            r@ == self.spec_to_bytes(),
    {
        let bits = (if self.dio1 {
            1u8
        } else {
            0u8
        }) + (if self.dio2 {
            2
        } else {
            0
        }) + (if self.dio3 {
            4
        } else {
            0
        });
        let r = [bits];
        proof {
            assert(r@ =~= self.spec_to_bytes());
        }
        r
    }

    pub fn from_bytes(bytes: [u8; 1]) -> (r: DioPullUpControl)
        ensures
            r == DioPullUpControl::spec_from_bytes(bytes@),
    {
        DioPullUpControl {
            dio1: bytes[0] % 2 == 1,
            dio2: (bytes[0] / 2) % 2 == 1,
            dio3: (bytes[0] / 4) % 2 == 1,
        }
    }
}

/// Decoding the encoded pull-up controls recovers all three flags.
pub proof fn lemma_dio_pull_up_roundtrip(v: DioPullUpControl)
    ensures
        DioPullUpControl::spec_from_bytes(v.spec_to_bytes()) == v,
{
}

/// DIO pull-down control register (address 0x0585).
///
/// Enables the roughly 50 kOhm internal pull-down resistors; do not
/// enable pull-up and pull-down on the same pin.
#[derive(Debug, Clone, Copy, PartialEq, Eq, Structural)]
pub struct DioPullDownControl {
    /// Enable pull-down on DIO1 (bit 0).
    pub dio1: bool,
    /// Enable pull-down on DIO2 (bit 1).
    pub dio2: bool,
    /// Enable pull-down on DIO3 (bit 2).
    pub dio3: bool,
}

impl DioPullDownControl {
    /// The register address.
    pub fn id() -> (r: u16)
        ensures
            r == 0x0585,
    {
        0x0585
    }

    /// One byte with DIO1 in bit 0, DIO2 in bit 1, DIO3 in bit 2.
    pub open spec fn spec_to_bytes(self) -> Seq<u8> {
        seq![
            ((if self.dio1 {
                1int
            } else {
                0int
            }) + (if self.dio2 {
                2int
            } else {
                0int
            }) + (if self.dio3 {
                4int
            } else {
                0int
            })) as u8,
        ]
    }

    /// The three pull-down bits read back from one byte; higher bits
    /// are ignored.
    pub open spec fn spec_from_bytes(bytes: Seq<u8>) -> DioPullDownControl
        recommends
            bytes.len() == 1,
    {
        DioPullDownControl {
            dio1: bytes[0] % 2 == 1,
            dio2: (bytes[0] / 2) % 2 == 1,
            dio3: (bytes[0] / 4) % 2 == 1,
        }
    }

    pub fn to_bytes(self) -> (r: [u8; 1])
        ensures
            r@ == self.spec_to_bytes(),
    {
        let bits = (if self.dio1 {
            1u8
        } else {
            0u8
        }) + (if self.dio2 {
            2
        } else {
            0
        }) + (if self.dio3 {
            4
        } else {
            0
        });
        let r = [bits];
        proof {
            assert(r@ =~= self.spec_to_bytes());
        }
        r
    }

    pub fn from_bytes(bytes: [u8; 1]) -> (r: DioPullDownControl)
        ensures
            r == DioPullDownControl::spec_from_bytes(bytes@),
    {
        DioPullDownControl {
            dio1: bytes[0] % 2 == 1,
            dio2: (bytes[0] / 2) % 2 == 1,
            dio3: (bytes[0] / 4) % 2 == 1,
        }
    }
}

/// Decoding the encoded pull-down controls recovers all three flags.
pub proof fn lemma_dio_pull_down_roundtrip(v: DioPullDownControl)
    ensures
        DioPullDownControl::spec_from_bytes(v.spec_to_bytes()) == v,
{
}

/// DIO3 output voltage control register (address 0x0920).
///
/// Selects the regulated voltage DIO3 supplies to an external TCXO;
/// used together with the SetDio3AsTcxoCtrl command.
#[derive(Debug, Clone, Copy, PartialEq, Eq, Structural)]
pub struct Dio3OutputVoltage {
    /// TCXO supply voltage selection, 0x00 (1.6 V) through 0x07
    /// (3.3 V); only the low three bits reach the wire.
    pub voltage: u8,
}

impl Dio3OutputVoltage {
    /// The register address.
    pub fn id() -> (r: u16)
        ensures
            r == 0x0920,
    {
        0x0920
    }

    /// Only voltage codes that fit the three wire bits survive a
    /// round trip.
    pub open spec fn wf(self) -> bool {
        self.voltage < 8
    }

    /// One byte holding the low three bits of the voltage code.
    pub open spec fn spec_to_bytes(self) -> Seq<u8> {
        seq![self.voltage % 8]
    }

    /// The voltage code read back from the low three bits of one byte.
    pub open spec fn spec_from_bytes(bytes: Seq<u8>) -> Dio3OutputVoltage
        recommends
            bytes.len() == 1,
    {
        Dio3OutputVoltage { voltage: bytes[0] % 8 }
    }

    pub fn to_bytes(self) -> (r: [u8; 1])
        ensures
            r@ == self.spec_to_bytes(),
    {
        let r = [self.voltage % 8];
        proof {
            assert(r@ =~= self.spec_to_bytes());
        }
        r
    }

    pub fn from_bytes(bytes: [u8; 1]) -> (r: Dio3OutputVoltage)
        ensures
            r == Dio3OutputVoltage::spec_from_bytes(bytes@),
    {
        Dio3OutputVoltage { voltage: bytes[0] % 8 }
    }
}

/// Decoding the encoded voltage recovers it for every code that fits
/// the three wire bits.
pub proof fn lemma_dio3_output_voltage_roundtrip(v: Dio3OutputVoltage)
    requires
        v.wf(),
    ensures
        Dio3OutputVoltage::spec_from_bytes(v.spec_to_bytes()) == v,
{
}

} // verus!
