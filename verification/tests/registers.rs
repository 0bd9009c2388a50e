use sx126x::registers::dio::{
    Dio3OutputVoltage, DioInputEnable, DioOutputEnable, DioPullDownControl, DioPullUpControl,
};
use sx126x::registers::packet::{
    BroadcastAddress, CrcInitialValue, CrcPolynomial, IqPolaritySetup, LoraSyncWord, NodeAddress,
    SyncWord, WhiteningInitialValue,
};
use sx126x::registers::rf::{
    InvalidGainMode, OcpConfiguration, RandomNumber, RxGain, TxClampConfig, TxModulation,
};
use sx126x::registers::system::{EventMask, RtcControl, XtaTrim, XtbTrim};

#[test]
fn register_addresses_match_the_wire_table() {
    assert_eq!(DioOutputEnable::id(), 0x0580);
    assert_eq!(DioInputEnable::id(), 0x0583);
    assert_eq!(DioPullUpControl::id(), 0x0584);
    assert_eq!(DioPullDownControl::id(), 0x0585);
    assert_eq!(Dio3OutputVoltage::id(), 0x0920);
    assert_eq!(WhiteningInitialValue::id(), 0x06B8);
    assert_eq!(CrcInitialValue::id(), 0x06BC);
    assert_eq!(CrcPolynomial::id(), 0x06BE);
    assert_eq!(SyncWord::id(), 0x06C0);
    assert_eq!(NodeAddress::id(), 0x06CD);
    assert_eq!(BroadcastAddress::id(), 0x06CE);
    assert_eq!(IqPolaritySetup::id(), 0x0736);
    assert_eq!(LoraSyncWord::id(), 0x0740);
    assert_eq!(RandomNumber::id(), 0x0819);
    assert_eq!(TxModulation::id(), 0x0889);
    assert_eq!(RxGain::id(), 0x08AC);
    assert_eq!(TxClampConfig::id(), 0x08D8);
    assert_eq!(OcpConfiguration::id(), 0x08E7);
    assert_eq!(RtcControl::id(), 0x0902);
    assert_eq!(XtaTrim::id(), 0x0911);
    assert_eq!(XtbTrim::id(), 0x0912);
    assert_eq!(EventMask::id(), 0x0944);
}

#[test]
fn dio_enable_registers_round_trip() {
    let v = DioOutputEnable {
        dio1: true,
        dio2: false,
        dio3: true,
    };
    assert_eq!(v.to_bytes(), [0x05]);
    assert_eq!(DioOutputEnable::from_bytes(v.to_bytes()), v);
    let w = DioInputEnable {
        dio1: false,
        dio2: true,
        dio3: false,
    };
    assert_eq!(w.to_bytes(), [0x02]);
    assert_eq!(DioInputEnable::from_bytes(w.to_bytes()), w);
    let p = DioPullUpControl {
        dio1: true,
        dio2: true,
        dio3: true,
    };
    assert_eq!(p.to_bytes(), [0x07]);
    assert_eq!(DioPullUpControl::from_bytes(p.to_bytes()), p);
    let q = DioPullDownControl {
        dio1: false,
        dio2: false,
        dio3: true,
    };
    assert_eq!(q.to_bytes(), [0x04]);
    assert_eq!(DioPullDownControl::from_bytes(q.to_bytes()), q);
}

#[test]
fn dio3_output_voltage_round_trips_in_range() {
    let v = Dio3OutputVoltage { voltage: 0x05 };
    assert_eq!(v.to_bytes(), [0x05]);
    assert_eq!(Dio3OutputVoltage::from_bytes(v.to_bytes()), v);
    // Only the low three bits reach the wire.
    assert_eq!(Dio3OutputVoltage { voltage: 0x0F }.to_bytes(), [0x07]);
}

#[test]
fn sixteen_bit_packet_registers_round_trip() {
    let w = WhiteningInitialValue { value: 0x0100 };
    assert_eq!(w.to_bytes(), [0x01, 0x00]);
    assert_eq!(WhiteningInitialValue::from_bytes(w.to_bytes()), w);
    let c = CrcInitialValue { value: 0x1D0F };
    assert_eq!(c.to_bytes(), [0x1D, 0x0F]);
    assert_eq!(CrcInitialValue::from_bytes(c.to_bytes()), c);
    let p = CrcPolynomial { value: 0x1021 };
    assert_eq!(p.to_bytes(), [0x10, 0x21]);
    assert_eq!(CrcPolynomial::from_bytes(p.to_bytes()), p);
    let l = LoraSyncWord { value: 0x3444 };
    assert_eq!(l.to_bytes(), [0x34, 0x44]);
    assert_eq!(LoraSyncWord::from_bytes(l.to_bytes()), l);
}

#[test]
fn sync_word_round_trips_all_eight_bytes() {
    let s = SyncWord {
        value: [0x97, 0x23, 0x52, 0x25, 0x56, 0x53, 0x65, 0x64],
    };
    assert_eq!(s.to_bytes(), s.value);
    assert_eq!(SyncWord::from_bytes(s.to_bytes()), s);
}

#[test]
fn address_registers_round_trip() {
    let n = NodeAddress { address: 0x42 };
    assert_eq!(n.to_bytes(), [0x42]);
    assert_eq!(NodeAddress::from_bytes(n.to_bytes()), n);
    let b = BroadcastAddress { address: 0xFF };
    assert_eq!(b.to_bytes(), [0xFF]);
    assert_eq!(BroadcastAddress::from_bytes(b.to_bytes()), b);
}

#[test]
fn iq_polarity_round_trips() {
    let v = IqPolaritySetup { inverted_iq: true };
    assert_eq!(v.to_bytes(), [0x01]);
    assert_eq!(IqPolaritySetup::from_bytes(v.to_bytes()), v);
    let w = IqPolaritySetup { inverted_iq: false };
    assert_eq!(IqPolaritySetup::from_bytes(w.to_bytes()), w);
}

#[test]
fn random_number_decodes_big_endian() {
    let r = RandomNumber::from_bytes([0x01, 0x02, 0x03, 0x04]);
    assert_eq!(r.value, 0x01020304);
}

#[test]
fn tx_modulation_round_trips() {
    let v = TxModulation {
        bw_500khz_opt: true,
    };
    assert_eq!(v.to_bytes(), [0x04]);
    assert_eq!(TxModulation::from_bytes(v.to_bytes()), v);
    let w = TxModulation {
        bw_500khz_opt: false,
    };
    assert_eq!(w.to_bytes(), [0x00]);
    assert_eq!(TxModulation::from_bytes(w.to_bytes()), w);
}

#[test]
fn rx_gain_round_trips_and_rejects_unknown_bytes() {
    assert_eq!(RxGain::PowerSaving.to_byte(), 0x94);
    assert_eq!(RxGain::Boosted.to_byte(), 0x96);
    assert_eq!(RxGain::from_byte(0x94), Ok(RxGain::PowerSaving));
    assert_eq!(RxGain::from_byte(0x96), Ok(RxGain::Boosted));
    assert_eq!(RxGain::from_byte(0x95), Err(InvalidGainMode(0x95)));
    assert_eq!(RxGain::from_bytes([0x96]), Ok(RxGain::Boosted));
}

#[test]
fn tx_clamp_config_shifts_threshold_into_bits_4_to_1() {
    let v = TxClampConfig { threshold: 0x0F };
    assert_eq!(v.to_bytes(), [0x1E]);
    assert_eq!(TxClampConfig::from_bytes(v.to_bytes()), v);
    let d = TxClampConfig { threshold: 0x04 };
    assert_eq!(d.to_bytes(), [0x08]);
    assert_eq!(TxClampConfig::from_bytes(d.to_bytes()), d);
}

#[test]
fn ocp_configuration_round_trips() {
    let v = OcpConfiguration { threshold: 0x38 };
    assert_eq!(v.to_bytes(), [0x38]);
    assert_eq!(OcpConfiguration::from_bytes(v.to_bytes()), v);
}

#[test]
fn rtc_and_event_mask_round_trip() {
    let v = RtcControl { enabled: true };
    assert_eq!(v.to_bytes(), [0x01]);
    assert_eq!(RtcControl::from_bytes(v.to_bytes()), v);
    let m = EventMask { mask: 0xA5 };
    assert_eq!(m.to_bytes(), [0xA5]);
    assert_eq!(EventMask::from_bytes(m.to_bytes()), m);
}

#[test]
fn crystal_trim_registers_mask_to_wire_bits() {
    let v = XtaTrim { value: 0x2F };
    assert_eq!(v.to_bytes(), [0x2F]);
    assert_eq!(XtaTrim::from_bytes(v.to_bytes()), v);
    // 0x10 is outside the 0x2F mask and is dropped on the wire.
    assert_eq!(XtaTrim { value: 0x35 }.to_bytes(), [0x25]);
    let w = XtbTrim { value: 0x22 };
    assert_eq!(w.to_bytes(), [0x22]);
    assert_eq!(XtbTrim::from_bytes(w.to_bytes()), w);
}

#[test]
fn register_defaults_match_the_chip() {
    assert_eq!(WhiteningInitialValue::default().value, 0x0100);
    assert_eq!(CrcInitialValue::default().value, 0x1D0F);
    assert_eq!(CrcPolynomial::default().value, 0x1021);
    assert_eq!(NodeAddress::default().address, 0x00);
    assert_eq!(BroadcastAddress::default().address, 0x00);
    assert!(!IqPolaritySetup::default().inverted_iq);
    assert_eq!(LoraSyncWord::default().value, 0x1424);
    assert!(TxModulation::default().bw_500khz_opt);
    assert_eq!(RxGain::default(), RxGain::PowerSaving);
    assert_eq!(TxClampConfig::default().threshold, 0x04);
    assert_eq!(OcpConfiguration::default().threshold, 0x18);
    assert!(!RtcControl::default().enabled);
    assert_eq!(XtaTrim::default().value, 0x05);
    assert_eq!(XtbTrim::default().value, 0x05);
    assert_eq!(EventMask::default().mask, 0x00);
}
