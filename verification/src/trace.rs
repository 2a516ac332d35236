//! What a sequence of operations does to the chip: which strobes and settings
//! reach it, which state it is left in, and for how long it is on the air.

use vstd::prelude::*;
use crate::registers::{
    modem_config_bits, packet_control_bits, Command, ConfigRegister, LengthConfig,
    ModulationFormat, SyncCheck, MAX_PACKET_LENGTH,
};
use crate::sequence::{init_sequence, pulse_sequence, Operation, PULSE_MS};
use crate::synth::{synth_word, FrequencyRegisters, RadioConfig};

verus! {

/// The state the chip was last commanded into. The chip is never asked which
/// state it is in.
#[derive(Clone, Copy, Debug, PartialEq, Eq, Structural)]
pub enum RadioState {
    /// After an idle strobe.
    Idle,
    /// After a transmit strobe.
    Transmitting,
}

/// The two registers that only select what the monitoring pins show.
pub open spec fn is_monitor_pin(register: ConfigRegister) -> bool {
    register is Iocfg0 || register is Iocfg2
}

/// The command strobes among `ops`, in order.
pub open spec fn strobes(ops: Seq<Operation>) -> Seq<Command>
    decreases ops.len(),
{
    if ops.len() == 0 {
        Seq::empty()
    } else {
        match ops.last() {
            Operation::Strobe(command) => strobes(ops.drop_last()).push(command),
            _ => strobes(ops.drop_last()),
        }
    }
}

/// The register writes among `ops` that set up the radio itself, in order:
/// every write but those to the monitoring pins.
pub open spec fn settings(ops: Seq<Operation>) -> Seq<(ConfigRegister, u8)>
    decreases ops.len(),
{
    if ops.len() == 0 {
        Seq::empty()
    } else {
        match ops.last() {
            Operation::Write(register, value) if !is_monitor_pin(register) => settings(
                ops.drop_last(),
            ).push((register, value)),
            _ => settings(ops.drop_last()),
        }
    }
}

/// The state the chip is commanded into by `ops`, starting from `start`.
pub open spec fn state_after(start: RadioState, ops: Seq<Operation>) -> RadioState
    decreases ops.len(),
{
    if ops.len() == 0 {
        start
    } else {
        match ops.last() {
            Operation::Strobe(Command::Sidle) => RadioState::Idle,
            Operation::Strobe(Command::Stx) => RadioState::Transmitting,
            _ => state_after(start, ops.drop_last()),
        }
    }
}

/// The milliseconds that `ops` spend waiting while the chip is commanded to
/// transmit, starting from `start`.
pub open spec fn time_on_air(start: RadioState, ops: Seq<Operation>) -> int
    decreases ops.len(),
{
    if ops.len() == 0 {
        0
    } else {
        let before = ops.drop_last();
        match ops.last() {
            Operation::Delay(ms) if state_after(start, before) is Transmitting => time_on_air(
                start,
                before,
            ) + ms,
            _ => time_on_air(start, before),
        }
    }
}

/// The operations of a beacon that configures the chip and then keys
/// `pulses` pulses.
pub open spec fn beacon_sequence(config: RadioConfig, pulses: nat) -> Seq<Operation>
    decreases pulses,
{
    if pulses == 0 {
        init_sequence(config)
    } else {
        beacon_sequence(config, (pulses - 1) as nat) + pulse_sequence()
    }
}

/// The strobes of `pulses` pulses in a row.
pub open spec fn pulse_strobes(pulses: nat) -> Seq<Command>
    decreases pulses,
{
    if pulses == 0 {
        Seq::empty()
    } else {
        pulse_strobes((pulses - 1) as nat) + seq![Command::Sidle, Command::Stx, Command::Sidle]
    }
}

/// How one more operation extends what a sequence does.
pub proof fn lemma_trace_push(start: RadioState, ops: Seq<Operation>, op: Operation)
    ensures
        strobes(ops.push(op)) == (match op {
            Operation::Strobe(command) => strobes(ops).push(command),
            _ => strobes(ops),
        }),
        settings(ops.push(op)) == (match op {
            Operation::Write(register, value) if !is_monitor_pin(register) => settings(ops).push(
                (register, value),
            ),
            _ => settings(ops),
        }),
        state_after(start, ops.push(op)) == (match op {
            Operation::Strobe(Command::Sidle) => RadioState::Idle,
            Operation::Strobe(Command::Stx) => RadioState::Transmitting,
            _ => state_after(start, ops),
        }),
        time_on_air(start, ops.push(op)) == (match op {
            Operation::Delay(ms) if state_after(start, ops) is Transmitting => time_on_air(
                start,
                ops,
            ) + ms,
            _ => time_on_air(start, ops),
        }),
{
    assert(ops.push(op).drop_last() =~= ops);
}

/// What two sequences do one after the other is what the first does, then
/// what the second does from the state the first leaves.
pub proof fn lemma_trace_concat(start: RadioState, first: Seq<Operation>, second: Seq<Operation>)
    ensures
        strobes(first + second) == strobes(first) + strobes(second),
        settings(first + second) == settings(first) + settings(second),
        state_after(start, first + second) == state_after(state_after(start, first), second),
        time_on_air(start, first + second) == time_on_air(start, first) + time_on_air(
            state_after(start, first),
            second,
        ),
    decreases second.len(),
{
    if second.len() == 0 {
        assert(first + second =~= first);
        assert(strobes(first) + strobes(second) =~= strobes(first));
        assert(settings(first) + settings(second) =~= settings(first));
    } else {
        let head = second.drop_last();
        let op = second.last();
        lemma_trace_concat(start, first, head);
        assert(first + second =~= (first + head).push(op));
        assert(second =~= head.push(op));
        lemma_trace_push(start, first + head, op);
        lemma_trace_push(state_after(start, first), head, op);
        assert(strobes(first + second) =~= strobes(first) + strobes(second));
        assert(settings(first + second) =~= settings(first) + settings(second));
    }
}

/// Configuration sends one strobe, the idle strobe, before anything else, and
/// six settings: the three synthesizer registers low byte first, the
/// modulation, the packet control and the packet length. It leaves the chip
/// idle and never puts it on the air.
pub proof fn lemma_init_trace(start: RadioState, config: RadioConfig)
    ensures
        init_sequence(config)[0] == Operation::Strobe(Command::Sidle),
        strobes(init_sequence(config)) == seq![Command::Sidle],
        settings(init_sequence(config)).len() == 6,
        settings(init_sequence(config)) == ({
            let regs = FrequencyRegisters::of_word(synth_word(config.frequency_hz as int));
            seq![
                (ConfigRegister::Freq0, regs.freq0),
                (ConfigRegister::Freq1, regs.freq1),
                (ConfigRegister::Freq2, regs.freq2),
                (
                    ConfigRegister::Mdmcfg2,
                    modem_config_bits(
                        ModulationFormat::BinaryFrequencyShiftKeying,
                        SyncCheck::Disabled,
                    ),
                ),
                (ConfigRegister::Pktctrl0, packet_control_bits(LengthConfig::Variable)),
                (ConfigRegister::Pktlen, MAX_PACKET_LENGTH),
            ]
        }),
        state_after(start, init_sequence(config)) == RadioState::Idle,
        time_on_air(start, init_sequence(config)) == 0,
{
    let s = init_sequence(config);
    let s1 = Seq::<Operation>::empty().push(s[0]);
    let s2 = s1.push(s[1]);
    let s3 = s2.push(s[2]);
    let s4 = s3.push(s[3]);
    let s5 = s4.push(s[4]);
    let s6 = s5.push(s[5]);
    let s7 = s6.push(s[6]);
    let s8 = s7.push(s[7]);
    let s9 = s8.push(s[8]);
    let s10 = s9.push(s[9]);
    assert(s =~= s10);
    lemma_trace_push(start, Seq::empty(), s[0]);
    lemma_trace_push(start, s1, s[1]);
    lemma_trace_push(start, s2, s[2]);
    lemma_trace_push(start, s3, s[3]);
    lemma_trace_push(start, s4, s[4]);
    lemma_trace_push(start, s5, s[5]);
    lemma_trace_push(start, s6, s[6]);
    lemma_trace_push(start, s7, s[7]);
    lemma_trace_push(start, s8, s[8]);
    lemma_trace_push(start, s9, s[9]);
    assert(strobes(s10) =~= seq![Command::Sidle]);
    assert(settings(s10) =~= settings(s8));
    assert(settings(s8).len() == 6);
}

/// One pulse sends three strobes: idle, transmit, idle, in this order. It
/// changes no setting, keeps the chip on the air for exactly `PULSE_MS`
/// milliseconds, whatever state it starts from, and leaves it idle.
pub proof fn lemma_pulse_trace(start: RadioState)
    ensures
        strobes(pulse_sequence()) == seq![Command::Sidle, Command::Stx, Command::Sidle],
        settings(pulse_sequence()) == Seq::<(ConfigRegister, u8)>::empty(),
        state_after(start, pulse_sequence()) == RadioState::Idle,
        time_on_air(start, pulse_sequence()) == PULSE_MS,
{
    let s = pulse_sequence();
    let s1 = Seq::<Operation>::empty().push(s[0]);
    let s2 = s1.push(s[1]);
    let s3 = s2.push(s[2]);
    let s4 = s3.push(s[3]);
    let s5 = s4.push(s[4]);
    assert(s =~= s5);
    lemma_trace_push(start, Seq::empty(), s[0]);
    lemma_trace_push(start, s1, s[1]);
    lemma_trace_push(start, s2, s[2]);
    lemma_trace_push(start, s3, s[3]);
    lemma_trace_push(start, s4, s[4]);
    assert(strobes(s5) =~= seq![Command::Sidle, Command::Stx, Command::Sidle]);
}

/// A whole run: configuration, then any number of pulses. The chip gets the
/// idle strobe of the configuration and then idle, transmit, idle for every
/// pulse; its settings are the six of the configuration and none is changed
/// by a pulse; it is on the air for `PULSE_MS` milliseconds per pulse and is
/// idle at the end.
pub proof fn lemma_beacon_trace(start: RadioState, config: RadioConfig, pulses: nat)
    ensures
        strobes(beacon_sequence(config, pulses)) == seq![Command::Sidle] + pulse_strobes(pulses),
        settings(beacon_sequence(config, pulses)) == settings(init_sequence(config)),
        settings(beacon_sequence(config, pulses)).len() == 6,
        state_after(start, beacon_sequence(config, pulses)) == RadioState::Idle,
        time_on_air(start, beacon_sequence(config, pulses)) == pulses * PULSE_MS,
    decreases pulses,
{
    lemma_init_trace(start, config);
    if pulses == 0 {
        assert(seq![Command::Sidle] + pulse_strobes(0) =~= seq![Command::Sidle]);
    } else {
        let before = beacon_sequence(config, (pulses - 1) as nat);
        lemma_beacon_trace(start, config, (pulses - 1) as nat);
        lemma_pulse_trace(RadioState::Idle);
        lemma_trace_concat(start, before, pulse_sequence());
        assert(strobes(before + pulse_sequence()) =~= seq![Command::Sidle] + pulse_strobes(
            pulses,
        ));
        assert(settings(before + pulse_sequence()) =~= settings(init_sequence(config)));
        assert(pulses * PULSE_MS == (pulses - 1) * PULSE_MS + PULSE_MS) by (nonlinear_arith);
    }
}

} // verus!
