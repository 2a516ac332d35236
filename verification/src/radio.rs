//! The radio as the beacon drives it: identity check, configuration and the
//! transmit pulse.

use vstd::prelude::*;
use crate::registers::StatusRegister;
use crate::sequence::{
    completed, init_plan, init_sequence, lemma_logs_push, pulse_plan, pulse_sequence, stopped_at,
    transfer_of, transfers_of, wait_of, waits_of, Logs, Operation,
};
use crate::synth::RadioConfig;
use crate::transport::{Timer, Transfer, Transport, TransportError};

verus! {

/// What the chip reports about itself.
#[derive(Clone, Copy, Debug, PartialEq, Eq, Structural)]
pub struct ChipIdentity {
    /// Content of the PARTNUM register.
    pub part_number: u8,
    /// Content of the VERSION register.
    pub version: u8,
}

/// The identity that two register reads establish: both must have succeeded.
pub open spec fn identity_of(
    part_number: Result<u8, TransportError>,
    version: Result<u8, TransportError>,
) -> Option<ChipIdentity> {
    match (part_number, version) {
        (Ok(part_number), Ok(version)) => Some(ChipIdentity { part_number, version }),
        _ => None,
    }
}

/// Decides from the outcome of the two identity reads whether a chip is
/// there. A chip is taken as present only if both reads succeeded.
pub fn identity_from_reads(
    part_number: Result<u8, TransportError>,
    version: Result<u8, TransportError>,
) -> (identity: Option<ChipIdentity>)
    ensures
        identity == identity_of(part_number, version),
        identity is Some <==> part_number is Ok && version is Ok,
{
    match (part_number, version) {
        (Ok(part_number), Ok(version)) => Some(ChipIdentity { part_number, version }),
        _ => None,
    }
}

/// The two transfers of an identity check, with the answers of the bus: the
/// part number is read first, the version second.
pub open spec fn identity_transfers(
    part_number: Result<u8, TransportError>,
    version: Result<u8, TransportError>,
) -> Seq<Transfer> {
    seq![
        Transfer::Read(StatusRegister::Partnum, part_number),
        Transfer::Read(StatusRegister::Version, version),
    ]
}

/// A chip that has answered the identity check, together with the bus that
/// leads to it. Only `verify_radio` makes one, so nothing can be written to a
/// chip that has not been checked.
pub struct RadioHandle<T> {
    transport: T,
    identity: ChipIdentity,
    checked: Ghost<int>,
    issued: Ghost<Seq<Operation>>,
}

/// A bus on which the identity check found no chip, with the answers it gave.
pub struct Unverified<T> {
    /// The bus, handed back.
    pub transport: T,
    /// The answer to the read of the part number.
    pub part_number: Result<u8, TransportError>,
    /// The answer to the read of the version.
    pub version: Result<u8, TransportError>,
}

/// The bus refused an operation of a plan, which ended the plan there.
#[derive(Clone, Copy, Debug, PartialEq, Eq, Structural)]
pub struct Refusal {
    /// The place of the refused operation in the plan, counted from 0.
    pub index: usize,
    /// What the bus reported.
    pub error: TransportError,
}

impl<T: Transport> RadioHandle<T> {
    /// Every transfer asked of the bus so far, oldest first, each with its
    /// outcome: the log of the bus that this handle owns.
    pub closed spec fn bus(&self) -> Seq<Transfer> {
        self.transport.transfers()
    }

    /// Every operation asked of the chip and of the clock through this
    /// handle, oldest first: the handle's own account of the order in which
    /// bus and clock were addressed.
    pub closed spec fn issued(&self) -> Seq<Operation> {
        self.issued@
    }

    /// The identity the chip reported when it was checked.
    pub closed spec fn chip(&self) -> ChipIdentity {
        self.identity
    }

    /// The place in the log of the bus at which the identity check stands.
    pub closed spec fn checked_at(&self) -> int {
        self.checked@
    }

    /// The chip has passed the identity check: the log of the bus holds, at
    /// `checked_at`, the read of the part number and then the read of the
    /// version, both answered, with the identity that this handle carries.
    /// `verify_radio` hands out verified handles only, and every function
    /// that takes a handle keeps it verified.
    pub open spec fn verified(&self) -> bool {
        let at = self.checked_at();
        &&& 0 <= at
        &&& at + 2 <= self.bus().len()
        &&& self.bus()[at] == Transfer::Read(
            StatusRegister::Partnum,
            Ok(self.chip().part_number),
        )
        &&& self.bus()[at + 1] == Transfer::Read(StatusRegister::Version, Ok(self.chip().version))
    }

    /// The logs of this handle's bus and of `timer`, with the handle's
    /// account of the order.
    pub open spec fn logs<C: Timer>(&self, timer: C) -> Logs {
        Logs { bus: self.bus(), waits: timer.waits(), issued: self.issued() }
    }

    /// The identity the chip reported when it was checked.
    pub fn identity(&self) -> (identity: ChipIdentity)
        ensures
            identity == self.chip(),
    {
        self.identity
    }

    /// Carries out one operation: hands a transfer to the bus as it stands in
    /// the operation, or waits on the clock.
    fn perform<C: Timer>(&mut self, timer: &mut C, operation: Operation) -> (r: Result<
        (),
        TransportError,
    >)
        ensures
            old(self).verified() ==> final(self).verified(),
            final(self).chip() == old(self).chip(),
            final(self).checked_at() == old(self).checked_at(),
            final(self).bus() == old(self).bus() + transfer_of(operation, r is Ok),
            final(timer).waits() == old(timer).waits() + wait_of(operation),
            final(self).issued() == old(self).issued().push(operation),
            operation is Delay ==> r is Ok,
    {
        let r = match operation {
            Operation::Strobe(command) => self.transport.write_command_strobe(command),
            Operation::Write(register, value) => self.transport.write_register(register, value),
            Operation::Delay(ms) => {
                timer.delay_ms(ms);
                Ok(())
            },
        };
        self.issued = Ghost(self.issued@.push(operation));
        assert(self.bus() =~= old(self).bus() + transfer_of(operation, r is Ok));
        assert(timer.waits() =~= old(timer).waits() + wait_of(operation));
        r
    }

    /// Carries out a plan in order and stops at the first operation that the
    /// bus refuses.
    fn run<C: Timer>(&mut self, timer: &mut C, plan: &Vec<Operation>) -> (r: Result<(), Refusal>)
        ensures
            old(self).verified() ==> final(self).verified(),
            final(self).chip() == old(self).chip(),
            final(self).checked_at() == old(self).checked_at(),
            r is Ok ==> completed(
                old(self).logs(*old(timer)),
                final(self).logs(*final(timer)),
                plan@,
            ),
            r matches Err(refusal) ==> stopped_at(
                old(self).logs(*old(timer)),
                final(self).logs(*final(timer)),
                plan@,
                refusal.index as int,
            ),
    {
        let mut i: usize = 0;
        while i < plan.len()
            invariant
                i <= plan.len(),
                old(self).verified() ==> self.verified(),
                self.chip() == old(self).chip(),
                self.checked_at() == old(self).checked_at(),
                self.bus() == old(self).bus() + transfers_of(plan@.take(i as int)),
                timer.waits() == old(timer).waits() + waits_of(plan@.take(i as int)),
                self.issued() == old(self).issued() + plan@.take(i as int),
            decreases plan.len() - i,
        {
            let operation = plan[i];
            let outcome = self.perform(timer, operation);
            proof {
                let done = plan@.take(i as int);
                assert(plan@.take(i + 1) =~= done.push(operation));
                lemma_logs_push(done, operation);
                assert(self.issued() =~= old(self).issued() + plan@.take(i + 1));
                assert(timer.waits() =~= old(timer).waits() + waits_of(done) + wait_of(operation));
                assert(self.bus() =~= old(self).bus() + transfers_of(done) + transfer_of(
                    operation,
                    outcome is Ok,
                ));
                if outcome is Err {
                    assert(wait_of(operation) =~= Seq::<u32>::empty());
                    assert(timer.waits() =~= old(timer).waits() + waits_of(done));
                } else {
                    assert(timer.waits() =~= old(timer).waits() + waits_of(plan@.take(i + 1)));
                    assert(self.bus() =~= old(self).bus() + transfers_of(plan@.take(i + 1)));
                }
            }
            match outcome {
                Ok(()) => {},
                Err(error) => {
                    return Err(Refusal { index: i, error });
                },
            }
            i = i + 1;
        }
        assert(plan@.take(i as int) =~= plan@);
        Ok(())
    }
}

/// Checks that a chip answers on the bus: reads its part number and its
/// version, in this order and both in any case, and asks nothing else of the
/// bus. If the bus answers both reads, the chip is handed out for use under
/// the identity it reported. If the bus refuses either read, the bus comes
/// back with the two answers.
pub fn verify_radio<T: Transport>(transport: T) -> (r: Result<RadioHandle<T>, Unverified<T>>)
    ensures
        r matches Ok(radio) ==> radio.verified() && radio.checked_at()
            == transport.transfers().len() && radio.bus() == transport.transfers()
            + identity_transfers(Ok(radio.chip().part_number), Ok(radio.chip().version))
            && radio.issued() == Seq::<Operation>::empty(),
        r matches Err(failed) ==> failed.transport.transfers() == transport.transfers()
            + identity_transfers(failed.part_number, failed.version) && identity_of(
            failed.part_number,
            failed.version,
        ) is None,
{
    let ghost before = transport.transfers();
    let mut transport = transport;
    let part_number = transport.read_register(StatusRegister::Partnum);
    let version = transport.read_register(StatusRegister::Version);
    assert(transport.transfers() =~= before + identity_transfers(part_number, version));
    match identity_from_reads(part_number, version) {
        Some(identity) => Ok(
            RadioHandle {
                transport,
                identity,
                checked: Ghost(before.len() as int),
                issued: Ghost(Seq::empty()),
            },
        ),
        None => Err(Unverified { transport, part_number, version }),
    }
}

/// Brings the chip to idle and programs it for `config`, one operation of
/// `init_sequence` after the other. It succeeds if the bus carries out every
/// transfer. The first transfer that the bus refuses ends the attempt:
/// nothing is retried and nothing after it is asked of the bus or the clock.
pub fn init_radio<T: Transport, C: Timer>(
    radio: &mut RadioHandle<T>,
    timer: &mut C,
    config: &RadioConfig,
) -> (r: Result<(), Refusal>)
    ensures
        old(radio).verified() ==> final(radio).verified(),
        final(radio).chip() == old(radio).chip(),
        final(radio).checked_at() == old(radio).checked_at(),
        r is Ok ==> completed(
            old(radio).logs(*old(timer)),
            final(radio).logs(*final(timer)),
            init_sequence(*config),
        ),
        r matches Err(refusal) ==> stopped_at(
            old(radio).logs(*old(timer)),
            final(radio).logs(*final(timer)),
            init_sequence(*config),
            refusal.index as int,
        ),
{
    let plan = init_plan(config);
    radio.run(timer, &plan)
}

/// Keys one carrier pulse, one operation of `pulse_sequence` after the
/// other, and leaves the chip idle. It succeeds if the bus carries out every
/// transfer. The first transfer that the bus refuses ends the attempt:
/// nothing is retried and nothing after it is asked of the bus or the clock.
pub fn transmit_pulse<T: Transport, C: Timer>(radio: &mut RadioHandle<T>, timer: &mut C) -> (r:
    Result<(), Refusal>)
    ensures
        old(radio).verified() ==> final(radio).verified(),
        final(radio).chip() == old(radio).chip(),
        final(radio).checked_at() == old(radio).checked_at(),
        r is Ok ==> completed(
            old(radio).logs(*old(timer)),
            final(radio).logs(*final(timer)),
            pulse_sequence(),
        ),
        r matches Err(refusal) ==> stopped_at(
            old(radio).logs(*old(timer)),
            final(radio).logs(*final(timer)),
            pulse_sequence(),
            refusal.index as int,
        ),
{
    let plan = pulse_plan();
    radio.run(timer, &plan)
}

} // verus!
