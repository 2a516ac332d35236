use radio_beacon::registers::{
    modem_config, packet_control, LengthConfig, ModulationFormat, SyncCheck, GDO_CHIP_READY,
    GDO_SYNC_WORD, MAX_PACKET_LENGTH,
};

const FORMATS: [(ModulationFormat, u8); 5] = [
    (ModulationFormat::BinaryFrequencyShiftKeying, 0),
    (ModulationFormat::GaussianFrequencyShiftKeying, 1),
    (ModulationFormat::OnOffKeying, 3),
    (ModulationFormat::FourFrequencyShiftKeying, 4),
    (ModulationFormat::MinimumShiftKeying, 7),
];

const SYNC_CHECKS: [(SyncCheck, u8); 8] = [
    (SyncCheck::Disabled, 0),
    (SyncCheck::Bits15Of16, 1),
    (SyncCheck::Bits16Of16, 2),
    (SyncCheck::Bits30Of32, 3),
    (SyncCheck::CarrierSense, 4),
    (SyncCheck::Bits15Of16CarrierSense, 5),
    (SyncCheck::Bits16Of16CarrierSense, 6),
    (SyncCheck::Bits30Of32CarrierSense, 7),
];

#[test]
fn modem_config_of_the_beacon_is_zero() {
    assert_eq!(modem_config(ModulationFormat::BinaryFrequencyShiftKeying, SyncCheck::Disabled), 0x00);
}

#[test]
fn modem_config_places_format_above_sync_check() {
    for (format, format_code) in FORMATS {
        for (sync, sync_code) in SYNC_CHECKS {
            assert_eq!(modem_config(format, sync), format_code << 4 | sync_code);
        }
    }
}

#[test]
fn modem_config_examples() {
    assert_eq!(modem_config(ModulationFormat::MinimumShiftKeying, SyncCheck::Bits30Of32CarrierSense), 0x77);
    assert_eq!(modem_config(ModulationFormat::GaussianFrequencyShiftKeying, SyncCheck::Bits16Of16), 0x12);
    assert_eq!(modem_config(ModulationFormat::OnOffKeying, SyncCheck::Disabled), 0x30);
    assert_eq!(modem_config(ModulationFormat::BinaryFrequencyShiftKeying, SyncCheck::Bits30Of32), 0x03);
}

#[test]
fn modem_config_is_what_the_driver_builds() {
    let built = cc1101::lowlevel::registers::MDMCFG2::default()
        .mod_format(cc1101::lowlevel::types::ModFormat::MOD_4FSK.value())
        .sync_mode(cc1101::lowlevel::types::SyncCheck::CHECK_16_16_CS.value())
        .bits();
    assert_eq!(
        modem_config(ModulationFormat::FourFrequencyShiftKeying, SyncCheck::Bits16Of16CarrierSense),
        built
    );
    assert_eq!(built, 0x46);
}

#[test]
fn packet_control_of_the_beacon_keeps_the_reset_value() {
    assert_eq!(packet_control(LengthConfig::Variable), 0x45);
}

#[test]
fn packet_control_for_each_length_mode() {
    assert_eq!(packet_control(LengthConfig::Fixed), 0x44);
    assert_eq!(packet_control(LengthConfig::Variable), 0x45);
    assert_eq!(packet_control(LengthConfig::Infinite), 0x46);
}

#[test]
fn packet_control_is_what_the_driver_builds() {
    let built = cc1101::lowlevel::registers::PKTCTRL0::default()
        .length_config(cc1101::lowlevel::types::LengthConfig::INFINITE.value())
        .bits();
    assert_eq!(packet_control(LengthConfig::Infinite), built);
}

#[test]
fn fixed_register_values() {
    assert_eq!(MAX_PACKET_LENGTH, 255);
    assert_eq!(GDO_SYNC_WORD, 0x06);
    assert_eq!(GDO_CHIP_READY, 0x29);
    assert_eq!(GDO_SYNC_WORD, cc1101::lowlevel::types::GdoCfg::SYNC_WORD as u8);
    assert_eq!(GDO_CHIP_READY, cc1101::lowlevel::types::GdoCfg::CHIP_RDYn as u8);
}
