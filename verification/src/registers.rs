//! The part of the chip's register map that the beacon touches: the command
//! strobes, the configuration and status registers, and the encodings of the
//! fields it programs.
//!
//! Field codes and register values are taken from the `cc1101` driver crate,
//! which holds the map of the data sheet.

use vstd::prelude::*;

verus! {

/// A command strobe: a one-byte instruction that changes the chip's state.
#[derive(Clone, Copy, Debug, PartialEq, Eq, Structural)]
pub enum Command {
    /// SIDLE: leave receive or transmit and go idle.
    Sidle,
    /// STX: start transmitting.
    Stx,
}

/// A configuration register.
#[derive(Clone, Copy, Debug, PartialEq, Eq, Structural)]
pub enum ConfigRegister {
    /// IOCFG2: what the GDO2 pin shows.
    Iocfg2,
    /// IOCFG0: what the GDO0 pin shows.
    Iocfg0,
    /// PKTLEN: packet length, or the longest packet in variable-length mode.
    Pktlen,
    /// PKTCTRL0: packet automation control.
    Pktctrl0,
    /// FREQ2: bits 16 to 21 of the synthesizer word.
    Freq2,
    /// FREQ1: bits 8 to 15 of the synthesizer word.
    Freq1,
    /// FREQ0: bits 0 to 7 of the synthesizer word.
    Freq0,
    /// MDMCFG2: modulation format and sync word qualifier.
    Mdmcfg2,
}

/// A read-only status register.
#[derive(Clone, Copy, Debug, PartialEq, Eq, Structural)]
pub enum StatusRegister {
    /// PARTNUM: the chip's part number.
    Partnum,
    /// VERSION: the chip's silicon revision.
    Version,
}

/// Modulation format, the MOD_FORMAT field of MDMCFG2.
#[derive(Clone, Copy, Debug, PartialEq, Eq, Structural)]
pub enum ModulationFormat {
    /// 2-FSK.
    BinaryFrequencyShiftKeying,
    /// GFSK.
    GaussianFrequencyShiftKeying,
    /// ASK or OOK.
    OnOffKeying,
    /// 4-FSK.
    FourFrequencyShiftKeying,
    /// MSK.
    MinimumShiftKeying,
}

/// Sync word qualifier, the SYNC_MODE field of MDMCFG2.
#[derive(Clone, Copy, Debug, PartialEq, Eq, Structural)]
pub enum SyncCheck {
    /// No preamble or sync word.
    Disabled,
    /// 15 of 16 sync word bits.
    Bits15Of16,
    /// 16 of 16 sync word bits.
    Bits16Of16,
    /// 30 of 32 sync word bits.
    Bits30Of32,
    /// No sync word, carrier sense above threshold.
    CarrierSense,
    /// 15 of 16 bits and carrier sense.
    Bits15Of16CarrierSense,
    /// 16 of 16 bits and carrier sense.
    Bits16Of16CarrierSense,
    /// 30 of 32 bits and carrier sense.
    Bits30Of32CarrierSense,
}

/// Packet length mode, the LENGTH_CONFIG field of PKTCTRL0.
#[derive(Clone, Copy, Debug, PartialEq, Eq, Structural)]
pub enum LengthConfig {
    /// Length fixed by PKTLEN.
    Fixed,
    /// Length in the first byte after the sync word, at most PKTLEN.
    Variable,
    /// No end of packet.
    Infinite,
}

/// Longest packet in variable-length mode.
pub const MAX_PACKET_LENGTH: u8 = 255;

/// GDO signal selection: high from sync word sent or received to end of packet.
pub const GDO_SYNC_WORD: u8 = 0x06;

/// GDO signal selection: chip ready, active low.
pub const GDO_CHIP_READY: u8 = 0x29;

impl ModulationFormat {
    /// The field's code in the data sheet.
    pub open spec fn code(self) -> u8 {
        match self {
            ModulationFormat::BinaryFrequencyShiftKeying => 0,
            ModulationFormat::GaussianFrequencyShiftKeying => 1,
            ModulationFormat::OnOffKeying => 3,
            ModulationFormat::FourFrequencyShiftKeying => 4,
            ModulationFormat::MinimumShiftKeying => 7,
        }
    }
}

impl SyncCheck {
    /// The field's code in the data sheet.
    pub open spec fn code(self) -> u8 {
        match self {
            SyncCheck::Disabled => 0,
            SyncCheck::Bits15Of16 => 1,
            SyncCheck::Bits16Of16 => 2,
            SyncCheck::Bits30Of32 => 3,
            SyncCheck::CarrierSense => 4,
            SyncCheck::Bits15Of16CarrierSense => 5,
            SyncCheck::Bits16Of16CarrierSense => 6,
            SyncCheck::Bits30Of32CarrierSense => 7,
        }
    }
}

impl LengthConfig {
    /// The field's code in the data sheet.
    pub open spec fn code(self) -> u8 {
        match self {
            LengthConfig::Fixed => 0,
            LengthConfig::Variable => 1,
            LengthConfig::Infinite => 2,
        }
    }
}

/// MDMCFG2 with the given modulation and sync qualifier and every other field
/// at rest: no Manchester coding, DC blocking filter on.
pub open spec fn modem_config_bits(format: ModulationFormat, sync: SyncCheck) -> u8 {
    (format.code() * 16 + sync.code()) as u8
}

/// PKTCTRL0 with the given length mode and every other field at its reset
/// value: whitening on, CRC on, FIFO packet format.
pub open spec fn packet_control_bits(length: LengthConfig) -> u8 {
    (0x44 + length.code()) as u8
}

/// Calls `cc1101::lowlevel::types::ModFormat::value` on the driver's variant
/// of the same name. Trusted: the driver returns the variant's discriminant,
/// which its source gives as 0, 1, 3, 4 and 7.
#[verifier::external_body]
fn mod_format_value(format: ModulationFormat) -> (code: u8)
    ensures
        code == format.code(),
{
    let chip = match format {
        ModulationFormat::BinaryFrequencyShiftKeying => cc1101::lowlevel::types::ModFormat::MOD_2FSK,
        ModulationFormat::GaussianFrequencyShiftKeying => cc1101::lowlevel::types::ModFormat::MOD_GFSK,
        ModulationFormat::OnOffKeying => cc1101::lowlevel::types::ModFormat::MOD_ASK_OOK,
        ModulationFormat::FourFrequencyShiftKeying => cc1101::lowlevel::types::ModFormat::MOD_4FSK,
        ModulationFormat::MinimumShiftKeying => cc1101::lowlevel::types::ModFormat::MOD_MSK,
    };
    chip.value()
}

/// Calls `cc1101::lowlevel::types::SyncCheck::value` on the driver's variant
/// of the same meaning. Trusted: the driver returns the variant's
/// discriminant, which its source gives as 0 to 7 in the order listed here.
#[verifier::external_body]
fn sync_check_value(sync: SyncCheck) -> (code: u8)
    ensures
        code == sync.code(),
{
    let chip = match sync {
        SyncCheck::Disabled => cc1101::lowlevel::types::SyncCheck::DISABLED,
        SyncCheck::Bits15Of16 => cc1101::lowlevel::types::SyncCheck::CHECK_15_16,
        SyncCheck::Bits16Of16 => cc1101::lowlevel::types::SyncCheck::CHECK_16_16,
        SyncCheck::Bits30Of32 => cc1101::lowlevel::types::SyncCheck::CHECK_30_32,
        SyncCheck::CarrierSense => cc1101::lowlevel::types::SyncCheck::CHECK_0_0_CS,
        SyncCheck::Bits15Of16CarrierSense => cc1101::lowlevel::types::SyncCheck::CHECK_15_16_CS,
        SyncCheck::Bits16Of16CarrierSense => cc1101::lowlevel::types::SyncCheck::CHECK_16_16_CS,
        SyncCheck::Bits30Of32CarrierSense => cc1101::lowlevel::types::SyncCheck::CHECK_30_32_CS,
    };
    chip.value()
}

/// Calls `cc1101::lowlevel::types::LengthConfig::value` on the driver's
/// variant of the same name. Trusted: the driver returns the variant's
/// discriminant, which its source gives as 0, 1 and 2.
#[verifier::external_body]
fn length_config_value(length: LengthConfig) -> (code: u8)
    ensures
        code == length.code(),
{
    let chip = match length {
        LengthConfig::Fixed => cc1101::lowlevel::types::LengthConfig::FIXED,
        LengthConfig::Variable => cc1101::lowlevel::types::LengthConfig::VARIABLE,
        LengthConfig::Infinite => cc1101::lowlevel::types::LengthConfig::INFINITE,
    };
    chip.value()
}

/// Builds an MDMCFG2 value with the driver: `MDMCFG2::default()`, then its
/// setters `mod_format` and `sync_mode`, then `bits`. Trusted: the default is
/// the reset value 0x02; each setter clears its three-bit field (bits 4 to 6,
/// bits 0 to 2) and stores its argument there, and asserts in debug builds
/// that the argument fits the field, which `requires` guarantees.
#[verifier::external_body]
fn mdmcfg2_value(mod_format: u8, sync_mode: u8) -> (bits: u8)
    requires
        mod_format <= 7,
        sync_mode <= 7,
    ensures
        bits == mod_format * 16 + sync_mode,
{
    cc1101::lowlevel::registers::MDMCFG2::default().mod_format(mod_format).sync_mode(sync_mode).bits()
}

/// Builds a PKTCTRL0 value with the driver: `PKTCTRL0::default()`, then its
/// setter `length_config`, then `bits`. Trusted: the default is the reset
/// value 0x45; the setter clears bits 0 and 1 and stores its argument there,
/// and asserts in debug builds that the argument fits, which `requires`
/// guarantees.
#[verifier::external_body]
fn pktctrl0_value(length_config: u8) -> (bits: u8)
    requires
        length_config <= 3,
    ensures
        bits == 0x44 + length_config,
{
    cc1101::lowlevel::registers::PKTCTRL0::default().length_config(length_config).bits()
}

/// The MDMCFG2 value for a modulation format and a sync word qualifier.
pub fn modem_config(format: ModulationFormat, sync: SyncCheck) -> (bits: u8)
    ensures
        bits == modem_config_bits(format, sync),
{
    let mod_format = mod_format_value(format);
    let sync_mode = sync_check_value(sync);
    mdmcfg2_value(mod_format, sync_mode)
}

/// The PKTCTRL0 value for a packet length mode.
pub fn packet_control(length: LengthConfig) -> (bits: u8)
    ensures
        bits == packet_control_bits(length),
{
    let length_config = length_config_value(length);
    pktctrl0_value(length_config)
}

} // verus!
