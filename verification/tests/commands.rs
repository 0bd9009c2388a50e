use sx126x::commands::dio::{
    ClearIrqStatus, DioIrqConfig, GetIrqStatus, IrqMask, NopParameters, RfSwitchConfig,
    SetDio2AsRfSwitchCtrl, SetDio3AsTcxoCtrl, SetDioIrqParams, TcxoConfig, TcxoVoltage,
};
use sx126x::commands::operational::{
    Calibrate, CalibrateImage, CalibrationConfig, DeviceSelect, FallbackMode, ImageCalibConfig,
    PaConfig, RegulatorMode, RxDutyCycleConfig, RxMode, SetCad, SetFs, SetPaConfig,
    SetRegulatorMode, SetRx, SetRxDutyCycle, SetRxTxFallbackMode, SetSleep, SetStandby, SetTx,
    SetTxContinuousWave, SetTxInfinitePreamble, SleepConfig, StandbyConfig, StopTimerOnPreamble,
    StopTimerOnPreambleConfig, Timeout,
};
use sx126x::commands::rf::{
    bit_rate_to_register, frequency_to_register, AddressFiltering, BufferBaseAddressConfig,
    CadParams, CodingRate, CrcType, GFSKPacketHeaderType, GFSKPacketParams, GetPacketType,
    GfskBandwidth, GfskModParams, GfskPulseShape, InvalidPacketType, LoRaBandwidth, LoRaModParams,
    LoRaPacketParams, LoRaSymbNumTimeout, LoraPacketHeaderType, ModulationParams, PacketParams,
    PacketType, RampTime, RfFrequencyConfig, SetBufferBaseAddress, SetCadParams,
    SetLoRaSymbNumTimeout, SetModulationParams, SetPacketParams, SetPacketType, SetRfFrequency,
    SetTxParams, SpreadingFactor, TxParams, FXTAL_HZ,
};
use sx126x::commands::NoParameters;

#[test]
fn frequency_encodes_to_documented_bytes() {
    // 868 MHz at the 32 MHz reference: (868e6 * 2^25) / 32e6 truncated
    // is 910_163_968 = 0x36400000.
    let c = RfFrequencyConfig {
        frequency: 868_000_000,
    };
    assert_eq!(c.to_bytes(), [0x36, 0x40, 0x00, 0x00]);
    assert_eq!(frequency_to_register(868_000_000, FXTAL_HZ), 910_163_968);
}

#[test]
fn frequency_915_mhz_encodes_exactly() {
    let c = RfFrequencyConfig {
        frequency: 915_000_000,
    };
    assert_eq!(c.to_bytes(), [0x39, 0x30, 0x00, 0x00]);
}

#[test]
fn bit_rate_register_is_exact() {
    // (32 * 32e6) / 100_000 = 10240 = 0x2800.
    assert_eq!(bit_rate_to_register(100_000, FXTAL_HZ), 0x2800);
}

#[test]
fn irq_mask_round_trips_tx_done_and_crc_error() {
    let m = IrqMask {
        tx_done: true,
        crc_error: true,
        ..IrqMask::empty()
    };
    let bytes = m.to_bytes();
    assert_eq!(bytes, [0x00, 0x21]);
    assert_eq!(IrqMask::from_bytes(bytes), m);
}

#[test]
fn irq_mask_round_trips_every_single_flag() {
    for bit in 0..9u16 {
        let m = IrqMask::from_bits(1 << bit);
        assert_eq!(m.bits(), 1 << bit);
        assert_eq!(IrqMask::from_bytes(m.to_bytes()), m);
    }
}

#[test]
fn irq_mask_decode_ignores_reserved_bits() {
    // Bits 9..16 set in the wire mask do not affect the decoded flags.
    let m = IrqMask::from_bytes([0xFF, 0x01]);
    assert_eq!(
        m,
        IrqMask {
            tx_done: true,
            timeout: true,
            ..IrqMask::empty()
        }
    );
}

#[test]
fn dio_irq_config_encodes_all_four_masks() {
    let cfg = DioIrqConfig {
        irq_mask: IrqMask {
            tx_done: true,
            rx_done: true,
            ..IrqMask::empty()
        },
        dio1_mask: IrqMask {
            tx_done: true,
            ..IrqMask::empty()
        },
        dio2_mask: IrqMask {
            rx_done: true,
            ..IrqMask::empty()
        },
        dio3_mask: IrqMask {
            timeout: true,
            ..IrqMask::empty()
        },
    };
    assert_eq!(
        cfg.to_bytes(),
        [0x00, 0x03, 0x00, 0x01, 0x00, 0x02, 0x01, 0x00]
    );
}

#[test]
fn packet_type_round_trips() {
    assert_eq!(
        PacketType::from_bytes(PacketType::Gfsk.to_bytes()),
        Ok(PacketType::Gfsk)
    );
    assert_eq!(
        PacketType::from_bytes(PacketType::LoRa.to_bytes()),
        Ok(PacketType::LoRa)
    );
}

#[test]
fn packet_type_rejects_unknown_byte() {
    assert_eq!(
        PacketType::from_bytes([0x02]),
        Err(InvalidPacketType(0x02))
    );
    assert_eq!(
        PacketType::from_bytes([0xFF]),
        Err(InvalidPacketType(0xFF))
    );
}

#[test]
fn tx_params_encode_negative_power_as_twos_complement() {
    let p = TxParams {
        power: -17,
        ramp_time: RampTime::Micros200,
    };
    assert_eq!(p.to_bytes(), [0xEF, 0x04]);
    let q = TxParams {
        power: 22,
        ramp_time: RampTime::Micros3400,
    };
    assert_eq!(q.to_bytes(), [0x16, 0x07]);
}

#[test]
fn gfsk_modulation_params_encode_exactly() {
    let p = ModulationParams::Gfsk(GfskModParams {
        bit_rate: 100_000,
        pulse_shape: GfskPulseShape::Bt05,
        bandwidth: GfskBandwidth::Bw1173,
        freq_deviation: 25_000,
    });
    // Bit rate register 0x002800, shape 0x09, bandwidth 0x0B,
    // deviation register 25_000 * 2^25 / 32e6 = 26214 = 0x006666.
    assert_eq!(
        p.to_bytes(),
        [0x00, 0x28, 0x00, 0x09, 0x0B, 0x00, 0x66, 0x66]
    );
}

#[test]
fn lora_modulation_params_fill_fixed_width_with_zeros() {
    let p = ModulationParams::LoRa(LoRaModParams {
        spreading_factor: SpreadingFactor::SF9,
        bandwidth: LoRaBandwidth::Bw125,
        coding_rate: CodingRate::Cr45,
        low_data_rate_opt: true,
    });
    let bytes = p.to_bytes();
    assert_eq!(bytes.len(), 8);
    assert_eq!(bytes, [0x09, 0x04, 0x01, 0x01, 0x00, 0x00, 0x00, 0x00]);
}

#[test]
fn gfsk_packet_params_encode_exactly() {
    let p = PacketParams::GFSK(GFSKPacketParams {
        preamble_length: 0x0010,
        preamble_detector_length:
            sx126x::commands::rf::PreambleDetectorLength::Bits8,
        sync_word_length: 16,
        address_filtering: AddressFiltering::Node,
        packet_type: GFSKPacketHeaderType::Variable,
        payload_length: 255,
        crc_type: CrcType::Crc2Byte,
        whitening_enable: true,
    });
    let bytes = p.to_bytes();
    assert_eq!(bytes.len(), 9);
    assert_eq!(
        bytes,
        [0x00, 0x10, 0x04, 0x10, 0x01, 0x01, 0xFF, 0x02, 0x01]
    );
}

#[test]
fn lora_packet_params_fill_fixed_width_with_zeros() {
    let p = PacketParams::LoRa(LoRaPacketParams {
        preamble_length: 8,
        header_type: LoraPacketHeaderType::Fixed,
        payload_length: 64,
        crc_enable: true,
        iq_inversion_enable: false,
    });
    let bytes = p.to_bytes();
    assert_eq!(bytes.len(), 9);
    assert_eq!(
        bytes,
        [0x00, 0x08, 0x01, 0x40, 0x01, 0x00, 0x00, 0x00, 0x00]
    );
}

#[test]
fn lora_header_codes_are_inverse_of_gfsk() {
    assert_eq!(GFSKPacketHeaderType::Fixed.code(), 0x00);
    assert_eq!(GFSKPacketHeaderType::Variable.code(), 0x01);
    assert_eq!(LoraPacketHeaderType::Fixed.code(), 0x01);
    assert_eq!(LoraPacketHeaderType::Variable.code(), 0x00);
}

#[test]
fn cad_params_encode_exactly() {
    let p = CadParams {
        cad_symbol_num: 2,
        cad_detect_peak: 22,
        cad_detect_min: 10,
        cad_exit_mode: 1,
        cad_timeout: 0x0100,
    };
    assert_eq!(p.to_bytes(), [2, 22, 10, 1, 0x00, 0x00, 0x01, 0x00]);
}

#[test]
fn buffer_base_address_and_symb_num_encode() {
    let b = BufferBaseAddressConfig {
        tx_base_addr: 0x80,
        rx_base_addr: 0x00,
    };
    assert_eq!(b.to_bytes(), [0x80, 0x00]);
    let s = LoRaSymbNumTimeout { symb_num: 5 };
    assert_eq!(s.to_bytes(), [5]);
}

#[test]
fn sleep_config_packs_bits() {
    let c = SleepConfig {
        warm_start: true,
        rtc_wakeup: true,
    };
    assert_eq!(c.to_bytes(), [0x05]);
    let c2 = SleepConfig {
        warm_start: true,
        rtc_wakeup: false,
    };
    assert_eq!(c2.to_bytes(), [0x04]);
}

#[test]
fn standby_and_regulator_and_fallback_encode() {
    assert_eq!(StandbyConfig::Rc.to_bytes(), [0x00]);
    assert_eq!(StandbyConfig::Xosc.to_bytes(), [0x01]);
    assert_eq!(RegulatorMode::LdoOnly.to_bytes(), [0x00]);
    assert_eq!(RegulatorMode::DcDcLdo.to_bytes(), [0x01]);
    assert_eq!(FallbackMode::Fs.to_bytes(), [0x40]);
    assert_eq!(FallbackMode::StdbyXosc.to_bytes(), [0x30]);
    assert_eq!(FallbackMode::StdbyRc.to_bytes(), [0x20]);
}

#[test]
fn timeout_and_rx_mode_conversions() {
    assert_eq!(Timeout(0x012345).to_bytes(), [0x00, 0x01, 0x23, 0x45]);
    assert_eq!(Timeout::from(RxMode::Single).0, 0x000000);
    assert_eq!(Timeout::from(RxMode::Continuous).0, 0xFFFFFF);
    assert_eq!(Timeout::from(RxMode::Timed(1234)).0, 1234);
}

#[test]
fn rx_duty_cycle_encodes_both_periods() {
    let c = RxDutyCycleConfig {
        rx_period: 0x00000102,
        sleep_period: 0x03040506,
    };
    assert_eq!(
        c.to_bytes(),
        [0x00, 0x00, 0x01, 0x02, 0x03, 0x04, 0x05, 0x06]
    );
}

#[test]
fn calibration_config_packs_bits() {
    let c = CalibrationConfig {
        rc64k: true,
        rc13m: true,
        pll: true,
        adc_pulse: true,
        adc_bulk_n: true,
        adc_bulk_p: true,
        image: true,
    };
    assert_eq!(c.to_bytes(), [0x7F]);
    let only_image = CalibrationConfig {
        rc64k: false,
        rc13m: false,
        pll: false,
        adc_pulse: false,
        adc_bulk_n: false,
        adc_bulk_p: false,
        image: true,
    };
    assert_eq!(only_image.to_bytes(), [0x40]);
}

#[test]
fn image_calib_and_pa_config_encode() {
    let i = ImageCalibConfig {
        freq1: 0xE1,
        freq2: 0xE9,
    };
    assert_eq!(i.to_bytes(), [0xE1, 0xE9]);
    let p = PaConfig {
        duty_cycle: 0x04,
        hp_max: 0x07,
        device_sel: DeviceSelect::Sx1262,
        pa_lut: 0x01,
    };
    assert_eq!(p.to_bytes(), [0x04, 0x07, 0x00, 0x01]);
}

#[test]
fn tcxo_config_encodes_voltage_and_delay() {
    let c = TcxoConfig {
        voltage: TcxoVoltage::V1_8,
        delay: 0x0140,
    };
    assert_eq!(c.to_bytes(), [0x02, 0x00, 0x00, 0x01, 0x40]);
}

#[test]
fn rf_switch_config_encodes() {
    assert_eq!(RfSwitchConfig { enable: true }.to_bytes(), [0x01]);
    assert_eq!(RfSwitchConfig { enable: false }.to_bytes(), [0x00]);
}

#[test]
fn nop_and_no_parameters_encode_zeros() {
    let n: NopParameters<1> = NopParameters;
    assert_eq!(n.to_bytes(), [0x00]);
    let empty: [u8; 0] = NoParameters.to_bytes();
    assert_eq!(empty.len(), 0);
}

#[test]
fn command_opcodes_match_the_wire_table() {
    assert_eq!(SetDioIrqParams::id(), 0x08);
    assert_eq!(GetIrqStatus::id(), 0x12);
    assert_eq!(ClearIrqStatus::id(), 0x02);
    assert_eq!(SetDio2AsRfSwitchCtrl::id(), 0x9D);
    assert_eq!(SetDio3AsTcxoCtrl::id(), 0x97);
    assert_eq!(SetSleep::id(), 0x84);
    assert_eq!(SetStandby::id(), 0x80);
    assert_eq!(SetFs::id(), 0xC1);
    assert_eq!(SetTx::id(), 0x83);
    assert_eq!(SetRx::id(), 0x82);
    assert_eq!(StopTimerOnPreamble::id(), 0x9F);
    assert_eq!(SetRxDutyCycle::id(), 0x94);
    assert_eq!(SetCad::id(), 0xC5);
    assert_eq!(SetTxContinuousWave::id(), 0xD1);
    assert_eq!(SetTxInfinitePreamble::id(), 0xD2);
    assert_eq!(SetRegulatorMode::id(), 0x96);
    assert_eq!(Calibrate::id(), 0x89);
    assert_eq!(CalibrateImage::id(), 0x98);
    assert_eq!(SetPaConfig::id(), 0x95);
    assert_eq!(SetRxTxFallbackMode::id(), 0x93);
    assert_eq!(SetRfFrequency::id(), 0x86);
    assert_eq!(SetPacketType::id(), 0x8A);
    assert_eq!(GetPacketType::id(), 0x11);
    assert_eq!(SetTxParams::id(), 0x8E);
    assert_eq!(SetModulationParams::id(), 0x8B);
    assert_eq!(SetPacketParams::id(), 0x8C);
    assert_eq!(SetCadParams::id(), 0x88);
    assert_eq!(SetBufferBaseAddress::id(), 0x8F);
    assert_eq!(SetLoRaSymbNumTimeout::id(), 0xA0);
}

#[test]
fn invoking_parameters_hand_back_the_payload() {
    let cfg = StopTimerOnPreambleConfig {
        stop_on_preamble: true,
    };
    let cmd = StopTimerOnPreamble { config: cfg };
    assert_eq!(cmd.invoking_parameters(), cfg);
    let rx = SetRx {
        mode: RxMode::Continuous,
    };
    assert_eq!(rx.invoking_parameters(), Timeout(0xFFFFFF));
}
