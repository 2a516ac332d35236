//! Frequency synthesizer word of the transceiver.
//!
//! The chip derives its carrier from a 26 MHz crystal: a carrier of `f` hertz
//! is selected by the word `f * 2^16 / 26_000_000`, of which the chip keeps the
//! low 22 bits in three registers.

use vstd::prelude::*;

verus! {

/// Crystal reference of the transceiver, in hertz.
pub const CRYSTAL_HZ: u64 = 26_000_000;

/// One step of the synthesizer word is `CRYSTAL_HZ / SYNTH_SCALE` hertz.
pub const SYNTH_SCALE: u64 = 65_536;

/// Carriers below this many hertz have a word that fits the 22 bits the chip
/// keeps; it lies well above the highest supported band.
pub const WORD_LIMIT_HZ: u64 = 1_664_000_000;

/// The carrier the radio is tuned to.
///
/// The chip supports 300-348 MHz, 387-464 MHz and 779-928 MHz. A carrier
/// outside these bands is not rejected: its word is computed all the same.
#[derive(Clone, Copy, Debug, PartialEq, Eq, Structural)]
pub struct RadioConfig {
    /// Carrier frequency in whole hertz.
    pub frequency_hz: u64,
}

/// The three synthesizer registers, low byte first.
#[derive(Clone, Copy, Debug, PartialEq, Eq, Structural)]
pub struct FrequencyRegisters {
    /// Bits 0 to 7 of the word.
    pub freq0: u8,
    /// Bits 8 to 15 of the word.
    pub freq1: u8,
    /// Bits 16 to 21 of the word.
    pub freq2: u8,
}

/// The synthesizer word of a carrier: the carrier in units of
/// `CRYSTAL_HZ / SYNTH_SCALE`, rounded down.
pub open spec fn synth_word(frequency_hz: int) -> int {
    frequency_hz * SYNTH_SCALE as int / CRYSTAL_HZ as int
}

/// The carrier that a synthesizer word selects, in whole hertz.
pub open spec fn word_frequency(word: int) -> int {
    word * CRYSTAL_HZ as int / SYNTH_SCALE as int
}

impl FrequencyRegisters {
    /// The registers that hold the low 22 bits of `word`.
    pub open spec fn of_word(word: int) -> FrequencyRegisters {
        FrequencyRegisters {
            freq0: (word % 256) as u8,
            freq1: (word / 256 % 256) as u8,
            freq2: (word / 65_536 % 64) as u8,
        }
    }

    /// The word that the three registers spell.
    pub open spec fn word(self) -> int {
        self.freq2 * 65_536 + self.freq1 * 256 + self.freq0
    }

    /// The high register uses six bits only: its two top bits are clear.
    pub open spec fn wf(self) -> bool {
        self.freq2 <= 0x3F
    }
}

impl RadioConfig {
    /// The register values that tune the synthesizer to this carrier.
    pub fn frequency_registers(&self) -> (regs: FrequencyRegisters)
        ensures
            regs == FrequencyRegisters::of_word(synth_word(self.frequency_hz as int)),
            regs.wf(),
            regs.freq2 & 0xC0 == 0,
            regs.word() == synth_word(self.frequency_hz as int) % 0x40_0000,
    {
        let hz: u128 = self.frequency_hz as u128;
        let word: u128 = hz * (SYNTH_SCALE as u128) / (CRYSTAL_HZ as u128);
        let freq0: u8 = (word & 0xFF) as u8;
        let freq1: u8 = ((word >> 8) & 0xFF) as u8;
        let freq2: u8 = ((word >> 16) & 0x3F) as u8;
        proof {
            assert(word & 0xFF == word % 256) by (bit_vector);
            assert((word >> 8) & 0xFF == word / 256 % 256) by (bit_vector);
            assert((word >> 16) & 0x3F == word / 65_536 % 64) by (bit_vector);
            assert(freq2 <= 0x3F ==> freq2 & 0xC0 == 0) by (bit_vector);
            lemma_registers_spell_word(word as int);
        }
        FrequencyRegisters { freq0, freq1, freq2 }
    }
}

/// The registers of a word spell that word's low 22 bits, and the high
/// register never uses its two top bits.
pub proof fn lemma_registers_spell_word(word: int)
    requires
        0 <= word,
    ensures
        FrequencyRegisters::of_word(word).wf(),
        FrequencyRegisters::of_word(word).word() == word % 0x40_0000,
{
    let low = word % 65_536;
    let high = word / 65_536;
    assert(low / 256 == word / 256 % 256);
    assert(low % 256 == word % 256);
    assert(word % 0x40_0000 == (high % 64) * 65_536 + low);
}

/// Round trip of the tuning formula. For a carrier below `WORD_LIMIT_HZ` the
/// three registers spell the synthesizer word exactly, and the carrier that
/// this word selects lies at most 397 Hz below the one asked for, never above.
pub proof fn lemma_round_trip(config: RadioConfig)
    requires
        config.frequency_hz < WORD_LIMIT_HZ,
    ensures
        ({
            let hz = config.frequency_hz as int;
            let regs = FrequencyRegisters::of_word(synth_word(hz));
            &&& regs.word() == synth_word(hz)
            &&& hz - 397 <= word_frequency(regs.word()) <= hz
        }),
{
    let hz = config.frequency_hz as int;
    let word = synth_word(hz);
    assert(0 <= word < 0x40_0000);
    lemma_registers_spell_word(word);
}

} // verus!
