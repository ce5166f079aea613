//! An operation of the driver as a state machine over bus transactions.
//!
//! Starting an operation gives a `Step`: a read to perform, a write to
//! perform, or the finished result. A step that asks for a transaction carries
//! what is left of the operation; resuming it with the outcome of the
//! transaction gives the next step. A failed transaction ends the operation at
//! once with the transport's error: nothing is retried and nothing is undone.

use vstd::prelude::*;
use crate::bcd::{bcd_value, decode_bcd};
use crate::bus::{Payload, ReadRequest, WriteRequest};
use crate::datetime::{DateTime, Time};
use crate::registers::{Error, OutputFrequency, Register, DEVICE_ADDRESS};

verus! {

/// How an update changes the byte of its register.
#[derive(Debug, Clone, Copy, PartialEq, Eq, Structural)]
pub enum Rule {
    /// Set the bits under the mask. Nothing is written where all of them are
    /// set already.
    SetBits(u8),
    /// Clear the bits under the mask. Nothing is written where all of them
    /// are clear already.
    ClearBits(u8),
    /// Put `bits` in place of the field under `mask` and keep the other bits.
    /// The byte is always written.
    ReplaceField { mask: u8, bits: u8 },
}

impl Rule {
    /// The byte that the register is to hold after the update.
    pub open spec fn result(self, current: u8) -> u8 {
        match self {
            Rule::SetBits(mask) => current | mask,
            Rule::ClearBits(mask) => current & !mask,
            Rule::ReplaceField { mask, bits } => (current & !mask) | bits,
        }
    }

    /// Whether the update needs a write, given the byte that was read.
    pub open spec fn writes(self, current: u8) -> bool {
        match self {
            Rule::SetBits(mask) => current & mask != mask,
            Rule::ClearBits(mask) => current & mask != 0,
            Rule::ReplaceField { .. } => true,
        }
    }

    /// The byte to write back for the byte that was read, or `None` where the
    /// register holds the wanted bits already.
    pub fn apply(&self, current: u8) -> (value: Option<u8>)
        ensures
            value == if self.writes(current) {
                Some(self.result(current))
            } else {
                None
            },
            !self.writes(current) ==> self.result(current) == current,
    {
        match *self {
            Rule::SetBits(mask) => {
                assert(current & mask == mask ==> current | mask == current) by (bit_vector);
                if (current & mask) != mask {
                    Some(current | mask)
                } else {
                    None
                }
            },
            Rule::ClearBits(mask) => {
                assert(current & mask == 0 ==> current & !mask == current) by (bit_vector);
                if (current & mask) != 0 {
                    Some(current & !mask)
                } else {
                    None
                }
            },
            Rule::ReplaceField { mask, bits } => {
                let cleared: u8 = current ^ (current & mask);
                assert(current ^ (current & mask) == current & !mask) by (bit_vector);
                Some(cleared | bits)
            },
        }
    }
}

/// One read-modify-write of a register.
#[derive(Debug, Clone, Copy, PartialEq, Eq, Structural)]
pub struct Update {
    /// The register to read and, where needed, to write back.
    pub register: u8,
    /// What to make of the byte read.
    pub rule: Rule,
}

/// Up to five updates, to be applied one after the other.
#[derive(Debug, Clone, Copy)]
pub struct Updates {
    /// The updates, in the order in which they are applied.
    pub items: [Update; 5],
    /// The position of the next update to apply.
    pub next: usize,
    /// The position behind the last update.
    pub len: usize,
}

impl View for Updates {
    type V = Seq<Update>;

    /// The updates that are still to be applied, the next one first.
    open spec fn view(&self) -> Seq<Update> {
        if self.next <= self.len <= 5 {
            self.items@.subrange(self.next as int, self.len as int)
        } else {
            Seq::empty()
        }
    }
}

impl Updates {
    /// The same updates without the next one.
    pub open spec fn advanced(self) -> Updates {
        if self.next < self.len {
            Updates { items: self.items, next: (self.next + 1) as usize, len: self.len }
        } else {
            self
        }
    }

    /// No update at all.
    pub open spec fn none() -> Updates {
        let idle = Update { register: 0, rule: Rule::SetBits(0) };
        Updates { items: [idle, idle, idle, idle, idle], next: 0, len: 0 }
    }

    /// A single update.
    pub open spec fn one(update: Update) -> Updates {
        Updates { items: [update, update, update, update, update], next: 0, len: 1 }
    }

    /// Three updates, `a` first.
    pub open spec fn three(a: Update, b: Update, c: Update) -> Updates {
        Updates { items: [a, b, c, c, c], next: 0, len: 3 }
    }

    /// Five updates, `a` first.
    pub open spec fn five(a: Update, b: Update, c: Update, d: Update, e: Update) -> Updates {
        Updates { items: [a, b, c, d, e], next: 0, len: 5 }
    }

    /// No update at all.
    pub fn empty() -> (updates: Updates)
        ensures
            updates == Updates::none(),
            updates@ == Seq::<Update>::empty(),
    {
        let idle = Update { register: 0, rule: Rule::SetBits(0) };
        let updates = Updates { items: [idle, idle, idle, idle, idle], next: 0, len: 0 };
        assert(updates@ =~= Seq::<Update>::empty());
        updates
    }

    /// A single update.
    pub fn single(update: Update) -> (updates: Updates)
        ensures
            updates == Updates::one(update),
            updates@ == seq![update],
    {
        let updates = Updates { items: [update, update, update, update, update], next: 0, len: 1 };
        assert(updates@ =~= seq![update]);
        updates
    }

    /// Three updates, `a` first.
    pub fn triple(a: Update, b: Update, c: Update) -> (updates: Updates)
        ensures
            updates == Updates::three(a, b, c),
            updates@ == seq![a, b, c],
    {
        let updates = Updates { items: [a, b, c, c, c], next: 0, len: 3 };
        assert(updates@ =~= seq![a, b, c]);
        updates
    }

    /// Five updates, `a` first.
    pub fn quintuple(a: Update, b: Update, c: Update, d: Update, e: Update) -> (updates: Updates)
        ensures
            updates == Updates::five(a, b, c, d, e),
            updates@ == seq![a, b, c, d, e],
    {
        let updates = Updates { items: [a, b, c, d, e], next: 0, len: 5 };
        assert(updates@ =~= seq![a, b, c, d, e]);
        updates
    }

    /// The next update to apply, if one is left.
    pub fn first(&self) -> (update: Option<Update>)
        ensures
            update == if self@.len() > 0 {
                Some(self@[0])
            } else {
                None
            },
    {
        if self.next < self.len && self.len <= 5 {
            Some(self.items[self.next])
        } else {
            None
        }
    }

    /// The same updates without the next one.
    pub fn advance(self) -> (rest: Updates)
        ensures
            rest == self.advanced(),
            self@.len() > 0 ==> rest@ == self@.skip(1),
            self@.len() == 0 ==> rest@.len() == 0,
    {
        if self.next < self.len {
            let rest = Updates { items: self.items, next: self.next + 1, len: self.len };
            assert(self@.len() > 0 ==> rest@ =~= self@.skip(1));
            rest
        } else {
            self
        }
    }
}

/// What a finished operation hands back.
#[derive(Debug, Clone, Copy, PartialEq, Eq, Structural)]
pub enum Reply {
    /// The registers are as the operation wanted them; there is no value.
    Applied,
    /// A byte: the content of a register, or a decoded alarm component.
    Byte(u8),
    /// The answer to a question about a flag.
    Flag(bool),
    /// The frequency on the clock output.
    Frequency(OutputFrequency),
    /// A time of day.
    Time(Time),
    /// A date and a time of day.
    DateTime(DateTime),
}

/// What a query makes of the bytes that it read.
#[derive(Debug, Clone, Copy, PartialEq, Eq, Structural)]
pub enum Decoder {
    /// The first byte as it is.
    Byte,
    /// The number that the first byte stands for in BCD.
    Bcd,
    /// Whether any bit under the mask is set in the first byte.
    AnySet(u8),
    /// Whether no bit under the mask is set in the first byte.
    NoneSet(u8),
    /// The clock output frequency in the first byte.
    Frequency,
    /// The time in the first three bytes.
    Time,
    /// The date and time in all seven bytes.
    DateTime,
}

impl Decoder {
    /// The number of bytes that the query reads.
    pub open spec fn width(self) -> usize {
        match self {
            Decoder::Time => 3,
            Decoder::DateTime => 7,
            _ => 1,
        }
    }

    /// The result of the query on the bytes read. A time or a date with a
    /// component out of range is reported as `ComponentRange`.
    pub open spec fn decoded<E>(self, data: Seq<u8>) -> Result<Reply, Error<E>> {
        match self {
            Decoder::Byte => Ok(Reply::Byte(data[0])),
            Decoder::Bcd => Ok(Reply::Byte(bcd_value(data[0]) as u8)),
            Decoder::AnySet(mask) => Ok(Reply::Flag(data[0] & mask != 0)),
            Decoder::NoneSet(mask) => Ok(Reply::Flag(data[0] & mask == 0)),
            Decoder::Frequency => Ok(Reply::Frequency(OutputFrequency::of_code(data[0]))),
            Decoder::Time => if Time::decoded(data).valid() {
                Ok(Reply::Time(Time::decoded(data)))
            } else {
                Err(Error::ComponentRange)
            },
            Decoder::DateTime => if DateTime::decoded(data).valid() {
                Ok(Reply::DateTime(DateTime::decoded(data)))
            } else {
                Err(Error::ComponentRange)
            },
        }
    }

    /// Whether a reply is of the kind that the query ends with.
    pub open spec fn answers(self, reply: Reply) -> bool {
        match self {
            Decoder::Byte => reply is Byte,
            Decoder::Bcd => reply is Byte,
            Decoder::AnySet(_) => reply is Flag,
            Decoder::NoneSet(_) => reply is Flag,
            Decoder::Frequency => reply is Frequency,
            Decoder::Time => reply is Time,
            Decoder::DateTime => reply is DateTime,
        }
    }

    /// The number of bytes that the query reads.
    pub fn len(&self) -> (len: usize)
        ensures
            len == self.width(),
            1 <= len <= 7,
    {
        match self {
            Decoder::Time => 3,
            Decoder::DateTime => 7,
            _ => 1,
        }
    }

    /// The result of the query on the bytes read.
    pub fn decode<E>(&self, data: &[u8; 7]) -> (result: Result<Reply, Error<E>>)
        ensures
            result == self.decoded::<E>(data@),
    {
        match *self {
            Decoder::Byte => Ok(Reply::Byte(data[0])),
            Decoder::Bcd => Ok(Reply::Byte(decode_bcd(data[0]))),
            Decoder::AnySet(mask) => Ok(Reply::Flag((data[0] & mask) != 0)),
            Decoder::NoneSet(mask) => Ok(Reply::Flag((data[0] & mask) == 0)),
            Decoder::Frequency => Ok(Reply::Frequency(OutputFrequency::from_bits(data[0]))),
            Decoder::Time => match Time::from_registers(data) {
                Some(time) => Ok(Reply::Time(time)),
                None => Err(Error::ComponentRange),
            },
            Decoder::DateTime => match DateTime::from_registers(data) {
                Some(datetime) => Ok(Reply::DateTime(datetime)),
                None => Err(Error::ComponentRange),
            },
        }
    }
}

/// What is left of an operation while one of its reads is under way.
#[derive(Debug, Clone, Copy)]
pub enum ReadPending {
    /// A query: the bytes read are decoded and the operation ends.
    Query(Decoder),
    /// The alarm time is being read, and the hours were asked for.
    AlarmHours,
    /// The alarm time is being read, and the minutes were asked for.
    AlarmMinutes { hours: u8 },
    /// The alarm time is being read, and the seconds were asked for.
    AlarmSeconds { hours: u8, minutes: u8 },
    /// The register of the next of these updates was asked for.
    Update(Updates),
}

/// What is left of an operation while one of its writes is under way: the
/// updates that follow the write.
#[derive(Debug, Clone, Copy)]
pub struct WritePending {
    pub rest: Updates,
}

/// The next thing to happen in an operation.
#[derive(Debug)]
pub enum Step<E> {
    /// Perform the read and resume the `ReadPending` with its outcome.
    Read(ReadRequest, ReadPending),
    /// Perform the write and resume the `WritePending` with its outcome.
    Write(WriteRequest, WritePending),
    /// The operation is over, with this result.
    Finished(Result<Reply, Error<E>>),
}

impl<E> Step<E> {
    /// Whether the transaction that the step asks for, if it asks for one, is
    /// in order: it goes to the bus address of the chip, and a read is of one
    /// to seven bytes.
    pub open spec fn in_order(self) -> bool {
        match self {
            Step::Read(request, _) => request.device == DEVICE_ADDRESS && 1 <= request.len <= 7,
            Step::Write(request, _) => request.device == DEVICE_ADDRESS,
            Step::Finished(_) => true,
        }
    }

    /// Whether a reply is one that the operation can end with, as far as its
    /// kind goes: a finished operation has its reply, an update or a write
    /// ends with `Applied`, a query with the kind of its decoder.
    pub open spec fn answers(self, reply: Reply) -> bool {
        match self {
            Step::Read(_, pending) => pending.answers(reply),
            Step::Write(_, _) => reply is Applied,
            Step::Finished(Ok(end)) => reply == end,
            Step::Finished(Err(_)) => false,
        }
    }
}

/// The request for the single byte of a register.
pub open spec fn byte_of(register: u8) -> ReadRequest {
    ReadRequest::of(register, 1)
}

/// The step that starts a query of a register.
pub open spec fn querying<E>(register: u8, decoder: Decoder) -> Step<E> {
    Step::Read(ReadRequest::of(register, decoder.width()), ReadPending::Query(decoder))
}

/// The step that starts a write.
pub open spec fn writing<E>(payload: Payload) -> Step<E> {
    Step::Write(WriteRequest::of(payload), WritePending { rest: Updates::none() })
}

/// The step that goes on with the given updates: the read of the first one,
/// or the end of the operation where none is left.
pub open spec fn updating<E>(updates: Updates) -> Step<E> {
    if updates@.len() > 0 {
        Step::Read(byte_of(updates@[0].register), ReadPending::Update(updates))
    } else {
        Step::Finished(Ok(Reply::Applied))
    }
}

/// The step that starts a read-modify-write of one register.
pub open spec fn modifying<E>(register: u8, rule: Rule) -> Step<E> {
    updating(Updates::one(Update { register, rule }))
}

impl ReadPending {
    /// Whether a reply is of the kind that the operation ends with.
    pub open spec fn answers(self, reply: Reply) -> bool {
        match self {
            ReadPending::Query(decoder) => decoder.answers(reply),
            ReadPending::AlarmHours => reply is Time,
            ReadPending::AlarmMinutes { .. } => reply is Time,
            ReadPending::AlarmSeconds { .. } => reply is Time,
            ReadPending::Update(_) => reply is Applied,
        }
    }

    /// The step that follows the outcome of the read.
    ///
    /// A failed read ends the operation with the transport's error, and no
    /// write follows it. Of the bytes read, a query takes as many as it asked
    /// for; every other read takes the first byte.
    pub open spec fn after_read<E>(self, outcome: Result<[u8; 7], E>) -> Step<E> {
        match outcome {
            Err(e) => Step::Finished(Err(Error::I2C(e))),
            Ok(data) => match self {
                ReadPending::Query(decoder) => Step::Finished(decoder.decoded(data@)),
                ReadPending::AlarmHours => Step::Read(
                    byte_of(Register::MINUTE_ALARM),
                    ReadPending::AlarmMinutes { hours: bcd_value(data@[0]) as u8 },
                ),
                ReadPending::AlarmMinutes { hours } => Step::Read(
                    byte_of(Register::SECOND_ALARM),
                    ReadPending::AlarmSeconds { hours, minutes: bcd_value(data@[0]) as u8 },
                ),
                ReadPending::AlarmSeconds { hours, minutes } => {
                    let time = Time { hours, minutes, seconds: bcd_value(data@[0]) as u8 };
                    if time.valid() {
                        Step::Finished(Ok(Reply::Time(time)))
                    } else {
                        Step::Finished(Err(Error::ComponentRange))
                    }
                },
                ReadPending::Update(updates) => if updates@.len() > 0 {
                    let first = updates@[0];
                    if first.rule.writes(data@[0]) {
                        Step::Write(
                            WriteRequest::of(
                                Payload::Register([first.register, first.rule.result(data@[0])]),
                            ),
                            WritePending { rest: updates.advanced() },
                        )
                    } else {
                        updating(updates.advanced())
                    }
                } else {
                    Step::Finished(Ok(Reply::Applied))
                },
            },
        }
    }

    /// Go on with the operation after its read.
    pub fn resume<E>(self, outcome: Result<[u8; 7], E>) -> (step: Step<E>)
        ensures
            step == self.after_read(outcome),
            outcome matches Err(e) ==> step == Step::Finished(Err(Error::I2C(e))),
            step.in_order(),
    {
        let data = match outcome {
            Ok(data) => data,
            Err(e) => {
                return Step::Finished(Err(Error::I2C(e)));
            },
        };
        match self {
            ReadPending::Query(decoder) => Step::Finished(decoder.decode(&data)),
            ReadPending::AlarmHours => Step::Read(
                ReadRequest::new(Register::MINUTE_ALARM, 1),
                ReadPending::AlarmMinutes { hours: decode_bcd(data[0]) },
            ),
            ReadPending::AlarmMinutes { hours } => Step::Read(
                ReadRequest::new(Register::SECOND_ALARM, 1),
                ReadPending::AlarmSeconds { hours, minutes: decode_bcd(data[0]) },
            ),
            ReadPending::AlarmSeconds { hours, minutes } => {
                let time = Time { hours, minutes, seconds: decode_bcd(data[0]) };
                if time.is_valid() {
                    Step::Finished(Ok(Reply::Time(time)))
                } else {
                    Step::Finished(Err(Error::ComponentRange))
                }
            },
            ReadPending::Update(updates) => match updates.first() {
                Some(first) => match first.rule.apply(data[0]) {
                    Some(value) => Step::Write(
                        WriteRequest::new(Payload::Register([first.register, value])),
                        WritePending { rest: updates.advance() },
                    ),
                    None => start_updates(updates.advance()),
                },
                None => Step::Finished(Ok(Reply::Applied)),
            },
        }
    }
}

impl WritePending {
    /// The step that follows the outcome of the write: the transport's error
    /// where it failed, else the next update, or the end of the operation.
    pub open spec fn after_write<E>(self, outcome: Result<(), E>) -> Step<E> {
        match outcome {
            Err(e) => Step::Finished(Err(Error::I2C(e))),
            Ok(_) => updating(self.rest),
        }
    }

    /// Go on with the operation after its write.
    pub fn resume<E>(self, outcome: Result<(), E>) -> (step: Step<E>)
        ensures
            step == self.after_write(outcome),
            outcome matches Err(e) ==> step == Step::Finished(Err(Error::I2C(e))),
            step.in_order(),
    {
        match outcome {
            Err(e) => Step::Finished(Err(Error::I2C(e))),
            Ok(_) => start_updates(self.rest),
        }
    }
}

/// The step that starts a query of a register.
pub fn start_query<E>(register: u8, decoder: Decoder) -> (step: Step<E>)
    ensures
        step == querying::<E>(register, decoder),
        step.in_order(),
{
    Step::Read(ReadRequest::new(register, decoder.len()), ReadPending::Query(decoder))
}

/// The step that starts a write after which nothing is left to do.
pub fn start_write<E>(payload: Payload) -> (step: Step<E>)
    ensures
        step == writing::<E>(payload),
        step.in_order(),
{
    Step::Write(WriteRequest::new(payload), WritePending { rest: Updates::empty() })
}

/// The step that goes on with the given updates.
pub fn start_updates<E>(updates: Updates) -> (step: Step<E>)
    ensures
        step == updating::<E>(updates),
        step.in_order(),
{
    match updates.first() {
        Some(first) => Step::Read(
            ReadRequest::new(first.register, 1),
            ReadPending::Update(updates),
        ),
        None => Step::Finished(Ok(Reply::Applied)),
    }
}

/// The step that starts a read-modify-write of one register.
pub fn start_update<E>(register: u8, rule: Rule) -> (step: Step<E>)
    ensures
        step == modifying::<E>(register, rule),
        step.in_order(),
{
    start_updates(Updates::single(Update { register, rule }))
}

} // verus!
