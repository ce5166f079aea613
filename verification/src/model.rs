//! What an operation does to a chip.
//!
//! `run` performs the steps of an operation against a model of the chip's
//! registers, on a bus whose transactions fail where a list of faults says
//! so; `settle` is `run` on a bus that never fails. They are the yardstick for
//! the operations: the laws of the driver say what they make of each of them.

use vstd::prelude::*;
use crate::bcd::bcd_value;
use crate::bus::{
    chip_read, chip_write, is_register_file, Payload, ReadRequest, WriteRequest,
};
use crate::datetime::Time;
use crate::operation::{
    byte_of, modifying, querying, updating, writing, Decoder, ReadPending, Reply, Rule, Step, Update,
    Updates, WritePending,
};
use crate::registers::{Error, Register};

verus! {

impl<E> Step<E> {
    /// The largest number of bus transactions that the operation can still
    /// ask for, the one of this step included.
    pub open spec fn transactions(self) -> nat {
        match self {
            Step::Finished(_) => 0,
            Step::Write(_, pending) => 1 + 2 * pending.rest@.len(),
            Step::Read(_, pending) => match pending {
                ReadPending::Query(_) => 1,
                ReadPending::AlarmHours => 3,
                ReadPending::AlarmMinutes { .. } => 2,
                ReadPending::AlarmSeconds { .. } => 1,
                ReadPending::Update(updates) => if updates@.len() == 0 {
                    1
                } else {
                    2 * updates@.len()
                },
            },
        }
    }
}

/// A read brings an operation nearer to its end, however it went.
pub proof fn lemma_read_progress<E>(
    request: ReadRequest,
    pending: ReadPending,
    outcome: Result<[u8; 7], E>,
)
    ensures
        pending.after_read(outcome).transactions() < Step::<E>::Read(
            request,
            pending,
        ).transactions(),
{
    if let ReadPending::Update(updates) = pending {
        lemma_advanced(updates);
    }
}

/// A write brings an operation nearer to its end, however it went.
pub proof fn lemma_write_progress<E>(
    request: WriteRequest,
    pending: WritePending,
    outcome: Result<(), E>,
)
    ensures
        pending.after_write(outcome).transactions() < Step::<E>::Write(
            request,
            pending,
        ).transactions(),
{
    lemma_advanced(pending.rest);
}

/// No operation asks for more than eleven transactions.
pub proof fn lemma_transactions_bound<E>(step: Step<E>)
    ensures
        step.transactions() <= 11,
{
    match step {
        Step::Read(_, ReadPending::Update(updates)) => {
            lemma_advanced(updates);
        },
        Step::Write(_, pending) => {
            lemma_advanced(pending.rest);
        },
        _ => {},
    }
}

/// An operation keeps to the kind of reply that it set out for: what a later
/// step can end with, the step before it could end with too. So a caller
/// knows from the first step which kind of reply to expect.
pub proof fn lemma_answer_kept<E>(
    step: Step<E>,
    data: Result<[u8; 7], E>,
    done: Result<(), E>,
    reply: Reply,
)
    ensures
        step matches Step::Read(_, pending) ==> (pending.after_read(data).answers(reply)
            ==> step.answers(reply)),
        step matches Step::Write(_, pending) ==> (pending.after_write(done).answers(reply)
            ==> step.answers(reply)),
{
}

/// Taking the next update away leaves the ones behind it.
pub proof fn lemma_advanced(updates: Updates)
    ensures
        updates@.len() <= 5,
        updates@.len() > 0 ==> updates.advanced()@ == updates@.skip(1),
        updates@.len() == 0 ==> updates.advanced()@.len() == 0,
{
    if updates@.len() > 0 {
        assert(updates.advanced()@ =~= updates@.skip(1));
    }
}

/// The fault of the next transaction: `Some` error where the transport is to
/// report a failure, `None` where the transaction goes well. Behind the end
/// of the list of faults every transaction goes well.
pub open spec fn next_fault<E>(faults: Seq<Option<E>>) -> Option<E> {
    if faults.len() > 0 {
        faults[0]
    } else {
        None
    }
}

/// The faults of the transactions after the next one.
pub open spec fn later_faults<E>(faults: Seq<Option<E>>) -> Seq<Option<E>> {
    if faults.len() > 0 {
        faults.skip(1)
    } else {
        faults
    }
}

/// The result of an operation and the registers it leaves behind, from the
/// given step on, on a chip with the given registers and a bus whose
/// transactions fail as `faults` says, one entry for each transaction. A
/// transaction that fails changes no register.
pub open spec fn run<E>(step: Step<E>, registers: Seq<u8>, faults: Seq<Option<E>>) -> (
    Result<Reply, Error<E>>,
    Seq<u8>,
)
    decreases step.transactions(),
{
    match step {
        Step::Finished(result) => (result, registers),
        Step::Read(request, pending) => {
            let outcome = match next_fault(faults) {
                Some(error) => Err(error),
                None => Ok(chip_read(registers, request)),
            };
            proof {
                lemma_read_progress(request, pending, outcome);
            }
            run(pending.after_read(outcome), registers, later_faults(faults))
        },
        Step::Write(request, pending) => {
            let outcome = match next_fault(faults) {
                Some(error) => Err(error),
                None => Ok(()),
            };
            let stored = match next_fault(faults) {
                Some(_) => registers,
                None => chip_write(registers, request.payload@),
            };
            proof {
                lemma_write_progress(request, pending, outcome);
            }
            run(pending.after_write(outcome), stored, later_faults(faults))
        },
    }
}

/// The result of an operation and the registers it leaves behind, from the
/// given step on, on a chip with the given registers and a bus that never
/// fails.
pub open spec fn settle<E>(step: Step<E>, registers: Seq<u8>) -> (Result<Reply, Error<E>>, Seq<u8>) {
    run(step, registers, Seq::empty())
}

/// The registers after the given updates, applied one after the other.
pub open spec fn updated(registers: Seq<u8>, updates: Seq<Update>) -> Seq<u8>
    decreases updates.len(),
{
    if updates.len() == 0 {
        registers
    } else {
        let first = updates[0];
        updated(
            registers.update(first.register as int, first.rule.result(registers[first.register as int])),
            updates.skip(1),
        )
    }
}

/// Where an operation succeeds, its reply is of the kind that its first step
/// set out for.
pub proof fn lemma_run_answers<E>(step: Step<E>, registers: Seq<u8>, faults: Seq<Option<E>>)
    ensures
        run(step, registers, faults).0 matches Ok(reply) ==> step.answers(reply),
    decreases step.transactions(),
{
    match step {
        Step::Finished(_) => {},
        Step::Read(request, pending) => {
            let outcome = match next_fault(faults) {
                Some(error) => Err(error),
                None => Ok(chip_read(registers, request)),
            };
            lemma_read_progress(request, pending, outcome);
            lemma_run_answers(pending.after_read(outcome), registers, later_faults(faults));
        },
        Step::Write(request, pending) => {
            let outcome = match next_fault(faults) {
                Some(error) => Err(error),
                None => Ok(()),
            };
            let stored = match next_fault(faults) {
                Some(_) => registers,
                None => chip_write(registers, request.payload@),
            };
            lemma_write_progress(request, pending, outcome);
            lemma_run_answers(pending.after_write(outcome), stored, later_faults(faults));
        },
    }
}

/// A transaction that fails ends the operation with the transport's error,
/// and the registers stay as they were before it.
pub proof fn lemma_fault_ends<E>(step: Step<E>, registers: Seq<u8>, faults: Seq<Option<E>>)
    requires
        step is Read || step is Write,
        next_fault(faults) is Some,
    ensures
        run(step, registers, faults) == (
            Err::<Reply, Error<E>>(Error::I2C(next_fault(faults)->0)),
            registers,
        ),
{
    reveal_with_fuel(run, 2);
}

/// A query reads its bytes, decodes them and leaves the registers alone.
pub proof fn lemma_settle_query<E>(register: u8, decoder: Decoder, registers: Seq<u8>)
    ensures
        settle(querying::<E>(register, decoder), registers) == (
            decoder.decoded::<E>(
                chip_read(registers, ReadRequest::of(register, decoder.width()))@,
            ),
            registers,
        ),
{
    reveal_with_fuel(run, 2);
}

/// A write stores its payload and hands nothing back.
pub proof fn lemma_settle_write<E>(payload: Payload, registers: Seq<u8>)
    ensures
        settle(writing::<E>(payload), registers) == (
            Ok::<Reply, Error<E>>(Reply::Applied),
            chip_write(registers, payload@),
        ),
{
    reveal_with_fuel(run, 2);
    assert(Updates::none()@.len() == 0);
}

/// Updates are applied one after the other, each to the byte that its
/// register holds by then, whether or not the byte needs to be written.
pub proof fn lemma_settle_updates<E>(updates: Updates, registers: Seq<u8>)
    requires
        forall|i: int| 0 <= i < updates@.len() ==> (#[trigger] updates@[i]).register < registers.len(),
    ensures
        settle(updating::<E>(updates), registers) == (
            Ok::<Reply, Error<E>>(Reply::Applied),
            updated(registers, updates@),
        ),
    decreases updates@.len(),
{
    lemma_advanced(updates);
    if updates@.len() > 0 {
        let first = updates@[0];
        let rest = updates.advanced();
        let request = byte_of(first.register);
        let current = registers[first.register as int];
        let data = chip_read(registers, request);
        assert(data@[0] == current);
        let next = ReadPending::Update(updates).after_read(Ok::<[u8; 7], E>(data));
        assert(settle(updating::<E>(updates), registers) == settle(next, registers));
        assert forall|i: int| 0 <= i < rest@.len() implies (#[trigger] rest@[i]).register
            < registers.len() by {
            assert(rest@[i] == updates@[i + 1]);
        }
        if first.rule.writes(current) {
            let payload = Payload::Register([first.register, first.rule.result(current)]);
            let stored = chip_write(registers, payload@);
            assert(stored =~= registers.update(first.register as int, first.rule.result(current)));
            assert(settle(next, registers) == settle(updating::<E>(rest), stored));
            lemma_settle_updates::<E>(rest, stored);
        } else {
            lemma_unwritten(first.rule, current);
            assert(registers.update(first.register as int, first.rule.result(current))
                =~= registers);
            lemma_settle_updates::<E>(rest, registers);
        }
    }
}

/// The first fault in a list of faults, if there is one.
pub open spec fn first_fault<E>(faults: Seq<Option<E>>) -> Option<E>
    decreases faults.len(),
{
    if faults.len() == 0 {
        None
    } else if faults[0] is Some {
        faults[0]
    } else {
        first_fault(faults.skip(1))
    }
}

/// Updates on a bus that may fail. They are applied in their order up to the
/// first transaction that fails: the updates before it stay applied, nothing
/// is undone, and the operation ends with the error of that transaction.
/// Where no transaction fails all of them are applied.
pub proof fn lemma_run_updates<E>(updates: Updates, registers: Seq<u8>, faults: Seq<Option<E>>)
    requires
        forall|i: int| 0 <= i < updates@.len() ==> (#[trigger] updates@[i]).register < registers.len(),
    ensures
        ({
            let (result, after) = run(updating::<E>(updates), registers, faults);
            &&& exists|done: int|
                0 <= done <= updates@.len() && #[trigger] updated(registers, updates@.take(done))
                    == after && (result is Ok ==> done == updates@.len())
            &&& result matches Ok(reply) ==> reply == Reply::Applied
            &&& result matches Err(error) ==> first_fault(faults) matches Some(fault) && error
                == Error::I2C(fault)
            &&& first_fault(faults) is None ==> result is Ok
        }),
    decreases updates@.len(),
{
    lemma_advanced(updates);
    if updates@.len() == 0 {
        assert(updates@.take(0) =~= updates@);
        assert(updated(registers, updates@.take(0)) == registers);
    } else {
        let first = updates@[0];
        let rest = updates.advanced();
        let current = registers[first.register as int];
        let target = registers.update(first.register as int, first.rule.result(current));
        assert(updates@.take(0) =~= Seq::<Update>::empty());
        assert(updated(registers, updates@.take(0)) == registers);
        assert forall|i: int| 0 <= i < rest@.len() implies (#[trigger] rest@[i]).register
            < registers.len() by {
            assert(rest@[i] == updates@[i + 1]);
        }
        assert forall|done: int| 0 <= done <= rest@.len() implies updated(
            registers,
            updates@.take(done + 1),
        ) == updated(target, rest@.take(done)) by {
            assert(updates@.take(done + 1).skip(1) =~= rest@.take(done));
        }
        reveal_with_fuel(run, 2);
        match next_fault(faults) {
            Some(fault) => {
                // the read fails
            },
            None => {
                let data = chip_read(registers, byte_of(first.register));
                assert(data@[0] == current);
                let after_read = later_faults(faults);
                assert(first_fault(faults) == first_fault(after_read));
                if first.rule.writes(current) {
                    let payload = Payload::Register([first.register, first.rule.result(current)]);
                    match next_fault(after_read) {
                        Some(fault) => {
                            // the write fails
                        },
                        None => {
                            let after_write = later_faults(after_read);
                            assert(first_fault(after_read) == first_fault(after_write));
                            assert(chip_write(registers, payload@) =~= target);
                            lemma_run_updates::<E>(rest, target, after_write);
                            let (result, after) = run(updating::<E>(rest), target, after_write);
                            let done = choose|done: int|
                                0 <= done <= rest@.len() && #[trigger] updated(
                                    target,
                                    rest@.take(done),
                                ) == after && (result is Ok ==> done == rest@.len());
                            assert(updated(registers, updates@.take(done + 1)) == after);
                        },
                    }
                } else {
                    lemma_unwritten(first.rule, current);
                    assert(target =~= registers);
                    lemma_run_updates::<E>(rest, registers, after_read);
                    let (result, after) = run(updating::<E>(rest), registers, after_read);
                    let done = choose|done: int|
                        0 <= done <= rest@.len() && #[trigger] updated(
                            target,
                            rest@.take(done),
                        ) == after && (result is Ok ==> done == rest@.len());
                    assert(updated(registers, updates@.take(done + 1)) == after);
                }
            },
        }
    }
}

/// A read-modify-write of one register leaves the byte that its rule makes of
/// the old one, and changes no other register.
pub proof fn lemma_settle_update<E>(register: u8, rule: Rule, registers: Seq<u8>)
    requires
        register < registers.len(),
    ensures
        settle(modifying::<E>(register, rule), registers) == (
            Ok::<Reply, Error<E>>(Reply::Applied),
            registers.update(register as int, rule.result(registers[register as int])),
        ),
{
    let updates = Updates::one(Update { register, rule });
    assert(updates@ =~= seq![Update { register, rule }]);
    lemma_settle_updates::<E>(updates, registers);
    reveal_with_fuel(updated, 2);
}

/// Updates of registers that all differ change each of these registers as
/// its rule says, and no other register.
pub proof fn lemma_updated_apart(registers: Seq<u8>, updates: Seq<Update>)
    requires
        forall|i: int| 0 <= i < updates.len() ==> (#[trigger] updates[i]).register < registers.len(),
        forall|i: int, j: int|
            0 <= i < j < updates.len() ==> (#[trigger] updates[i]).register != (
            #[trigger] updates[j]).register,
    ensures
        updated(registers, updates).len() == registers.len(),
        forall|i: int|
            0 <= i < updates.len() ==> updated(registers, updates)[(
            #[trigger] updates[i]).register as int] == updates[i].rule.result(
                registers[updates[i].register as int],
            ),
        forall|a: int|
            0 <= a < registers.len() && (forall|i: int|
                0 <= i < updates.len() ==> (#[trigger] updates[i]).register != a)
                ==> #[trigger] updated(registers, updates)[a] == registers[a],
    decreases updates.len(),
{
    if updates.len() > 0 {
        let first = updates[0];
        let rest = updates.skip(1);
        let stored = registers.update(
            first.register as int,
            first.rule.result(registers[first.register as int]),
        );
        assert forall|i: int| 0 <= i < rest.len() implies (#[trigger] rest[i]).register
            < stored.len() by {
            assert(rest[i] == updates[i + 1]);
        }
        assert forall|i: int, j: int| 0 <= i < j < rest.len() implies (#[trigger] rest[i]).register
            != (#[trigger] rest[j]).register by {
            assert(rest[i] == updates[i + 1]);
            assert(rest[j] == updates[j + 1]);
        }
        lemma_updated_apart(stored, rest);
        assert forall|i: int| 0 <= i < updates.len() implies updated(registers, updates)[(
        #[trigger] updates[i]).register as int] == updates[i].rule.result(
            registers[updates[i].register as int],
        ) by {
            if i > 0 {
                assert(rest[i - 1] == updates[i]);
                assert(updates[0].register != updates[i].register);
            } else {
                assert forall|k: int| 0 <= k < rest.len() implies (#[trigger] rest[k]).register
                    != first.register as int by {
                    assert(rest[k] == updates[k + 1]);
                    assert(updates[0].register != updates[k + 1].register);
                }
            }
        }
        assert forall|a: int|
            0 <= a < registers.len() && (forall|i: int|
                0 <= i < updates.len() ==> (#[trigger] updates[i]).register != a) implies #[trigger] updated(
            registers,
            updates,
        )[a] == registers[a] by {
            assert(updates[0].register != a);
            assert forall|k: int| 0 <= k < rest.len() implies (#[trigger] rest[k]).register
                != a by {
                assert(rest[k] == updates[k + 1]);
            }
        }
    }
}

/// Where an update needs no write, the register holds the wanted byte
/// already.
pub proof fn lemma_unwritten(rule: Rule, current: u8)
    requires
        !rule.writes(current),
    ensures
        rule.result(current) == current,
{
    match rule {
        Rule::SetBits(mask) => {
            assert(current & mask == mask ==> current | mask == current) by (bit_vector);
        },
        Rule::ClearBits(mask) => {
            assert(current & mask == 0 ==> current & !mask == current) by (bit_vector);
        },
        Rule::ReplaceField { .. } => {},
    }
}

/// Reading the alarm time takes the hours, the minutes and the seconds from
/// their alarm registers, stripped of the enable bits, and reports a time out
/// of range as `ComponentRange`.
pub proof fn lemma_settle_alarm_time<E>(registers: Seq<u8>)
    requires
        is_register_file(registers),
    ensures
        ({
            let time = Time {
                hours: bcd_value(registers[Register::HOUR_ALARM as int]) as u8,
                minutes: bcd_value(registers[Register::MINUTE_ALARM as int]) as u8,
                seconds: bcd_value(registers[Register::SECOND_ALARM as int]) as u8,
            };
            settle(
                Step::<E>::Read(byte_of(Register::HOUR_ALARM), ReadPending::AlarmHours),
                registers,
            ) == (
                if time.valid() {
                    Ok::<Reply, Error<E>>(Reply::Time(time))
                } else {
                    Err::<Reply, Error<E>>(Error::ComponentRange)
                },
                registers,
            )
        }),
{
    reveal_with_fuel(run, 4);
    assert(chip_read(registers, byte_of(Register::HOUR_ALARM))@[0]
        == registers[Register::HOUR_ALARM as int]);
    assert(chip_read(registers, byte_of(Register::MINUTE_ALARM))@[0]
        == registers[Register::MINUTE_ALARM as int]);
    assert(chip_read(registers, byte_of(Register::SECOND_ALARM))@[0]
        == registers[Register::SECOND_ALARM as int]);
}

} // verus!
