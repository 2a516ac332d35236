//! The operations that configure the chip and key one pulse, as sequences.

use vstd::prelude::*;
use crate::registers::{
    modem_config, modem_config_bits, packet_control, packet_control_bits, Command,
    ConfigRegister, LengthConfig, ModulationFormat, SyncCheck, GDO_CHIP_READY, GDO_SYNC_WORD,
    MAX_PACKET_LENGTH,
};
use crate::synth::{synth_word, FrequencyRegisters, RadioConfig};
use crate::transport::Transfer;

verus! {

/// Time the chip is given to leave its previous state after an idle strobe,
/// in milliseconds.
pub const SETTLE_MS: u32 = 10;

/// Length of one carrier pulse, in milliseconds.
pub const PULSE_MS: u32 = 100;

/// One thing asked of the chip or of the clock.
#[derive(Clone, Copy, Debug, PartialEq, Eq, Structural)]
pub enum Operation {
    /// Send a command strobe.
    Strobe(Command),
    /// Store a value in a configuration register.
    Write(ConfigRegister, u8),
    /// Wait for a number of milliseconds.
    Delay(u32),
}

/// The operations that bring the chip from any state to idle and program it
/// for `config`: idle strobe, settling time, the synthesizer word low byte
/// first, 2-FSK without sync word, variable packet length up to 255 bytes,
/// and the two monitoring pins.
pub open spec fn init_sequence(config: RadioConfig) -> Seq<Operation> {
    let regs = FrequencyRegisters::of_word(synth_word(config.frequency_hz as int));
    seq![
        Operation::Strobe(Command::Sidle),
        Operation::Delay(SETTLE_MS),
        Operation::Write(ConfigRegister::Freq0, regs.freq0),
        Operation::Write(ConfigRegister::Freq1, regs.freq1),
        Operation::Write(ConfigRegister::Freq2, regs.freq2),
        Operation::Write(
            ConfigRegister::Mdmcfg2,
            modem_config_bits(ModulationFormat::BinaryFrequencyShiftKeying, SyncCheck::Disabled),
        ),
        Operation::Write(ConfigRegister::Pktctrl0, packet_control_bits(LengthConfig::Variable)),
        Operation::Write(ConfigRegister::Pktlen, MAX_PACKET_LENGTH),
        Operation::Write(ConfigRegister::Iocfg0, GDO_SYNC_WORD),
        Operation::Write(ConfigRegister::Iocfg2, GDO_CHIP_READY),
    ]
}

/// The operations of one carrier pulse: idle strobe, settling time, transmit
/// strobe, the pulse itself, idle strobe.
pub open spec fn pulse_sequence() -> Seq<Operation> {
    seq![
        Operation::Strobe(Command::Sidle),
        Operation::Delay(SETTLE_MS),
        Operation::Strobe(Command::Stx),
        Operation::Delay(PULSE_MS),
        Operation::Strobe(Command::Sidle),
    ]
}

/// The number of operations of `init_sequence` after which the synthesizer
/// word is in the chip: the idle strobe, the settling time and the three
/// frequency registers.
pub const TUNED_AFTER: usize = 5;

/// What one operation puts on the bus: one transfer, carried out or refused,
/// or nothing if the operation is a wait.
pub open spec fn transfer_of(operation: Operation, carried_out: bool) -> Seq<Transfer> {
    match operation {
        Operation::Strobe(command) => seq![Transfer::Strobe(command, carried_out)],
        Operation::Write(register, value) => seq![Transfer::Write(register, value, carried_out)],
        Operation::Delay(_) => Seq::empty(),
    }
}

/// What one operation asks of the clock: one wait, or nothing if the
/// operation is a transfer.
pub open spec fn wait_of(operation: Operation) -> Seq<u32> {
    match operation {
        Operation::Delay(ms) => seq![ms],
        _ => Seq::empty(),
    }
}

/// The transfers that `ops` put on the bus, in order, when the bus carries
/// out every one of them.
pub open spec fn transfers_of(ops: Seq<Operation>) -> Seq<Transfer>
    decreases ops.len(),
{
    if ops.len() == 0 {
        Seq::empty()
    } else {
        transfers_of(ops.drop_last()) + transfer_of(ops.last(), true)
    }
}

/// The waits that `ops` ask of the clock, in order.
pub open spec fn waits_of(ops: Seq<Operation>) -> Seq<u32>
    decreases ops.len(),
{
    if ops.len() == 0 {
        Seq::empty()
    } else {
        waits_of(ops.drop_last()) + wait_of(ops.last())
    }
}

/// What has been asked so far: of the bus, of the clock, and of both in the
/// order in which it was asked.
pub struct Logs {
    /// The transfers on the bus, each with its outcome.
    pub bus: Seq<Transfer>,
    /// The waits of the clock.
    pub waits: Seq<u32>,
    /// The operations, transfers and waits in one order.
    pub issued: Seq<Operation>,
}

/// All of `plan` was carried out: every transfer of it reached the bus in
/// order and was carried out, and every wait of it was made.
pub open spec fn completed(before: Logs, after: Logs, plan: Seq<Operation>) -> bool {
    &&& after.bus == before.bus + transfers_of(plan)
    &&& after.waits == before.waits + waits_of(plan)
    &&& after.issued == before.issued + plan
}

/// The bus refused the operation at `index` of `plan`, a transfer. Everything
/// before it was carried out, the refused transfer is the last thing on the
/// bus, and nothing after it was asked of the bus or of the clock.
pub open spec fn stopped_at(before: Logs, after: Logs, plan: Seq<Operation>, index: int) -> bool {
    &&& 0 <= index < plan.len()
    &&& !(plan[index] is Delay)
    &&& after.bus == before.bus + transfers_of(plan.take(index)) + transfer_of(plan[index], false)
    &&& after.waits == before.waits + waits_of(plan.take(index))
    &&& after.issued == before.issued + plan.take(index + 1)
}

/// One more operation at the end of a sequence adds its transfer and its
/// wait at the end of what the sequence asks.
pub proof fn lemma_logs_push(ops: Seq<Operation>, operation: Operation)
    ensures
        transfers_of(ops.push(operation)) == transfers_of(ops) + transfer_of(operation, true),
        waits_of(ops.push(operation)) == waits_of(ops) + wait_of(operation),
{
    assert(ops.push(operation).drop_last() =~= ops);
}

/// The first `TUNED_AFTER` operations of the configuration put four
/// transfers on the bus: the idle strobe and the three frequency registers,
/// low byte first. Once they are carried out the synthesizer word is in the
/// chip.
pub proof fn lemma_tuned_after(config: RadioConfig)
    ensures
        transfers_of(init_sequence(config).take(TUNED_AFTER as int)) == ({
            let regs = FrequencyRegisters::of_word(synth_word(config.frequency_hz as int));
            seq![
                Transfer::Strobe(Command::Sidle, true),
                Transfer::Write(ConfigRegister::Freq0, regs.freq0, true),
                Transfer::Write(ConfigRegister::Freq1, regs.freq1, true),
                Transfer::Write(ConfigRegister::Freq2, regs.freq2, true),
            ]
        }),
{
    let s = init_sequence(config);
    let s1 = Seq::<Operation>::empty().push(s[0]);
    let s2 = s1.push(s[1]);
    let s3 = s2.push(s[2]);
    let s4 = s3.push(s[3]);
    let s5 = s4.push(s[4]);
    assert(s.take(TUNED_AFTER as int) =~= s5);
    lemma_logs_push(Seq::empty(), s[0]);
    lemma_logs_push(s1, s[1]);
    lemma_logs_push(s2, s[2]);
    lemma_logs_push(s3, s[3]);
    lemma_logs_push(s4, s[4]);
    let regs = FrequencyRegisters::of_word(synth_word(config.frequency_hz as int));
    assert(transfers_of(s5) =~= seq![
        Transfer::Strobe(Command::Sidle, true),
        Transfer::Write(ConfigRegister::Freq0, regs.freq0, true),
        Transfer::Write(ConfigRegister::Freq1, regs.freq1, true),
        Transfer::Write(ConfigRegister::Freq2, regs.freq2, true),
    ]);
}

/// The operations of `init_sequence`, to be carried out in order.
pub fn init_plan(config: &RadioConfig) -> (plan: Vec<Operation>)
    ensures
        plan@ == init_sequence(*config),
{
    let regs = config.frequency_registers();
    let modem = modem_config(ModulationFormat::BinaryFrequencyShiftKeying, SyncCheck::Disabled);
    let packet = packet_control(LengthConfig::Variable);
    let plan = vec![
        Operation::Strobe(Command::Sidle),
        Operation::Delay(SETTLE_MS),
        Operation::Write(ConfigRegister::Freq0, regs.freq0),
        Operation::Write(ConfigRegister::Freq1, regs.freq1),
        Operation::Write(ConfigRegister::Freq2, regs.freq2),
        Operation::Write(ConfigRegister::Mdmcfg2, modem),
        Operation::Write(ConfigRegister::Pktctrl0, packet),
        Operation::Write(ConfigRegister::Pktlen, MAX_PACKET_LENGTH),
        Operation::Write(ConfigRegister::Iocfg0, GDO_SYNC_WORD),
        Operation::Write(ConfigRegister::Iocfg2, GDO_CHIP_READY),
    ];
    assert(plan@ =~= init_sequence(*config));
    plan
}

/// The operations of `pulse_sequence`, to be carried out in order.
pub fn pulse_plan() -> (plan: Vec<Operation>)
    ensures
        plan@ == pulse_sequence(),
{
    let plan = vec![
        Operation::Strobe(Command::Sidle),
        Operation::Delay(SETTLE_MS),
        Operation::Strobe(Command::Stx),
        Operation::Delay(PULSE_MS),
        Operation::Strobe(Command::Sidle),
    ];
    assert(plan@ =~= pulse_sequence());
    plan
}

} // verus!
