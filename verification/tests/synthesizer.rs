use radio_beacon::synth::{FrequencyRegisters, RadioConfig, CRYSTAL_HZ, SYNTH_SCALE, WORD_LIMIT_HZ};

fn registers(frequency_hz: u64) -> FrequencyRegisters {
    RadioConfig { frequency_hz }.frequency_registers()
}

fn word(regs: FrequencyRegisters) -> u64 {
    (regs.freq2 as u64) << 16 | (regs.freq1 as u64) << 8 | regs.freq0 as u64
}

fn hertz(megahertz: f32) -> u64 {
    (megahertz * 1_000_000.0) as u64
}

#[test]
fn lower_edge_of_first_band() {
    assert_eq!(registers(300_000_000), FrequencyRegisters { freq0: 0xD8, freq1: 0x89, freq2: 0x0B });
}

#[test]
fn upper_edge_of_first_band() {
    assert_eq!(registers(348_000_000), FrequencyRegisters { freq0: 0x76, freq1: 0x62, freq2: 0x0D });
}

#[test]
fn lower_edge_of_second_band() {
    assert_eq!(registers(387_000_000), FrequencyRegisters { freq0: 0x76, freq1: 0xE2, freq2: 0x0E });
}

#[test]
fn upper_edge_of_second_band() {
    assert_eq!(registers(464_000_000), FrequencyRegisters { freq0: 0x9D, freq1: 0xD8, freq2: 0x11 });
}

#[test]
fn lower_edge_of_third_band() {
    assert_eq!(registers(779_000_000), FrequencyRegisters { freq0: 0x27, freq1: 0xF6, freq2: 0x1D });
}

#[test]
fn upper_edge_of_third_band() {
    assert_eq!(registers(928_000_000), FrequencyRegisters { freq0: 0x3B, freq1: 0xB1, freq2: 0x23 });
}

#[test]
fn default_carrier_432_5_mhz() {
    assert_eq!(hertz(432.500), 432_500_000);
    assert_eq!(registers(hertz(432.500)), FrequencyRegisters { freq0: 0x76, freq1: 0xA2, freq2: 0x10 });
}

#[test]
fn carrier_433_5_mhz() {
    // 433_500_000 * 65_536 / 26_000_000 = 1_092_686 = 0x10AC4E
    assert_eq!(hertz(433.5), 433_500_000);
    assert_eq!(433_500_000u64 * 65_536 / 26_000_000, 0x10AC4E);
    assert_eq!(registers(hertz(433.5)), FrequencyRegisters { freq0: 0x4E, freq1: 0xAC, freq2: 0x10 });
}

#[test]
fn carrier_is_truncated_to_whole_hertz() {
    assert_eq!(hertz(433.920_000_9), 433_920_000);
    assert_eq!(registers(hertz(433.92)), registers(433_920_000));
}

#[test]
fn registers_spell_the_word_of_the_formula() {
    for frequency_hz in [
        300_000_000u64,
        348_000_000,
        387_000_000,
        464_000_000,
        779_000_000,
        928_000_000,
        432_500_000,
        433_500_000,
    ] {
        let regs = registers(frequency_hz);
        assert_eq!(word(regs), frequency_hz * SYNTH_SCALE / CRYSTAL_HZ);
    }
}

#[test]
fn reconstructed_carrier_is_within_the_truncation_error() {
    let expected_error = [245u64, 62, 62, 214, 153, 31, 62, 306];
    let carriers = [
        300_000_000u64,
        348_000_000,
        387_000_000,
        464_000_000,
        779_000_000,
        928_000_000,
        432_500_000,
        433_500_000,
    ];
    for (frequency_hz, error) in carriers.iter().zip(expected_error.iter()) {
        let reconstructed = word(registers(*frequency_hz)) * CRYSTAL_HZ / SYNTH_SCALE;
        assert!(reconstructed <= *frequency_hz);
        assert_eq!(*frequency_hz - reconstructed, *error);
        assert!(*error <= 397);
    }
}

#[test]
fn truncation_error_reaches_397_hertz() {
    let regs = registers(433_000_213);
    assert_eq!(word(regs), 0x10A762);
    assert_eq!(word(regs) * CRYSTAL_HZ / SYNTH_SCALE, 432_999_816);
    assert_eq!(433_000_213 - word(regs) * CRYSTAL_HZ / SYNTH_SCALE, 397);
}

#[test]
fn round_trip_holds_up_to_the_word_limit() {
    let mut frequency_hz = 0u64;
    while frequency_hz < WORD_LIMIT_HZ {
        let regs = registers(frequency_hz);
        assert_eq!(word(regs), frequency_hz * SYNTH_SCALE / CRYSTAL_HZ);
        let reconstructed = word(regs) * CRYSTAL_HZ / SYNTH_SCALE;
        assert!(reconstructed <= frequency_hz && frequency_hz - reconstructed <= 397);
        frequency_hz += 999_983;
    }
}

#[test]
fn last_carrier_below_the_word_limit_fills_all_22_bits() {
    assert_eq!(
        registers(WORD_LIMIT_HZ - 1),
        FrequencyRegisters { freq0: 0xFF, freq1: 0xFF, freq2: 0x3F }
    );
}

#[test]
fn word_wraps_at_the_word_limit() {
    assert_eq!(registers(WORD_LIMIT_HZ), FrequencyRegisters { freq0: 0, freq1: 0, freq2: 0 });
}

#[test]
fn zero_carrier_gives_zero_registers() {
    assert_eq!(registers(0), FrequencyRegisters { freq0: 0, freq1: 0, freq2: 0 });
}

#[test]
fn one_crystal_period_is_one_unit_of_the_high_register() {
    assert_eq!(registers(26_000_000), FrequencyRegisters { freq0: 0, freq1: 0, freq2: 1 });
}

#[test]
fn smallest_carrier_with_a_word() {
    assert_eq!(registers(396), FrequencyRegisters { freq0: 0, freq1: 0, freq2: 0 });
    assert_eq!(registers(397), FrequencyRegisters { freq0: 1, freq1: 0, freq2: 0 });
}

#[test]
fn largest_carrier_does_not_overflow() {
    assert_eq!(registers(u64::MAX), FrequencyRegisters { freq0: 0xF8, freq1: 0x22, freq2: 0x09 });
}

#[test]
fn top_two_bits_of_high_register_are_clear() {
    let mut frequency_hz = 0u64;
    while frequency_hz <= 928_000_000 {
        assert_eq!(registers(frequency_hz).freq2 & 0xC0, 0);
        frequency_hz += 1_000_003;
    }
    assert_eq!(registers(928_000_000).freq2 & 0xC0, 0);
    assert_eq!(registers(u64::MAX).freq2 & 0xC0, 0);
    assert_eq!(registers(3_000_000_000).freq2 & 0xC0, 0);
}

#[test]
fn agrees_with_the_driver_crate_in_the_supported_bands() {
    for frequency_hz in [300_000_000u64, 433_000_000, 464_000_000, 868_000_000, 902_000_000, 918_000_000] {
        let regs = registers(frequency_hz);
        assert_eq!(
            (regs.freq0, regs.freq1, regs.freq2),
            cc1101::lowlevel::convert::from_frequency(frequency_hz)
        );
    }
}
