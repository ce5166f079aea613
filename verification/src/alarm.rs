//! The alarm: a value and an enable bit for each of five components, the
//! alarm flag and the alarm interrupt.
//!
//! The chip's enable bit is inverted. While bit `AE` of an alarm register is
//! clear the component is compared, while it is set the component is ignored.
//! The operations hide this: `Control::On` clears the bit, `Control::Off` sets
//! it, and the questions about an alarm answer `true` where the bit is clear.

use vstd::prelude::*;
use crate::bcd::{bcd_byte, bcd_value, encode_bcd, lemma_decode_encode, lemma_flag_bit_ignored};
use crate::bus::{chip_read, is_register_file, ReadRequest};
use crate::datetime::Time;
use crate::driver::PCF85063;
use crate::model::{
    lemma_settle_alarm_time, lemma_settle_query, lemma_settle_update, lemma_settle_updates,
    lemma_updated_apart, settle, updated,
};
use crate::operation::{
    byte_of, modifying, querying, start_query, start_updates, updating, Decoder, ReadPending,
    Reply, Rule, Step, Update, Updates,
};
use crate::registers::{BitFlags, Control, Error, Register};

verus! {

/// The components of the alarm.
#[derive(Debug, Clone, Copy, PartialEq, Eq, Structural)]
pub enum AlarmField {
    Second,
    Minute,
    Hour,
    Day,
    Weekday,
}

impl AlarmField {
    /// The alarm register of the component.
    pub open spec fn register_of(self) -> u8 {
        match self {
            AlarmField::Second => Register::SECOND_ALARM,
            AlarmField::Minute => Register::MINUTE_ALARM,
            AlarmField::Hour => Register::HOUR_ALARM,
            AlarmField::Day => Register::DAY_ALARM,
            AlarmField::Weekday => Register::WEEKDAY_ALARM,
        }
    }

    /// The values that the component can take: seconds and minutes 0 to 59,
    /// hours 0 to 23, days 1 to 31, weekdays 0 to 6.
    pub open spec fn admits(self, value: u8) -> bool {
        match self {
            AlarmField::Second => value <= 59,
            AlarmField::Minute => value <= 59,
            AlarmField::Hour => value <= 23,
            AlarmField::Day => 1 <= value <= 31,
            AlarmField::Weekday => value <= 6,
        }
    }

    /// The alarm register of the component.
    pub fn register(self) -> (register: u8)
        ensures
            register == self.register_of(),
    {
        match self {
            AlarmField::Second => Register::SECOND_ALARM,
            AlarmField::Minute => Register::MINUTE_ALARM,
            AlarmField::Hour => Register::HOUR_ALARM,
            AlarmField::Day => Register::DAY_ALARM,
            AlarmField::Weekday => Register::WEEKDAY_ALARM,
        }
    }

    /// Whether the value is in the range of the component.
    pub fn accepts(self, value: u8) -> (ok: bool)
        ensures
            ok == self.admits(value),
    {
        match self {
            AlarmField::Second => value <= 59,
            AlarmField::Minute => value <= 59,
            AlarmField::Hour => value <= 23,
            AlarmField::Day => 1 <= value && value <= 31,
            AlarmField::Weekday => value <= 6,
        }
    }
}

/// The update that puts a value into an alarm register and keeps its enable
/// bit.
pub open spec fn alarm_value_update(field: AlarmField, value: u8) -> Update {
    Update {
        register: field.register_of(),
        rule: Rule::ReplaceField { mask: !BitFlags::AE, bits: bcd_byte(value) },
    }
}

/// The update that enables or disables a component of the alarm.
pub open spec fn alarm_enable_update(field: AlarmField, status: Control) -> Update {
    Update {
        register: field.register_of(),
        rule: match status {
            Control::On => Rule::ClearBits(BitFlags::AE),
            Control::Off => Rule::SetBits(BitFlags::AE),
        },
    }
}

/// The first step of setting a component of the alarm: a value out of range
/// is turned down at once, else the alarm register is read, to be written
/// back with the new value under the old enable bit.
pub open spec fn setting_alarm<E>(field: AlarmField, value: u8) -> Step<E> {
    if field.admits(value) {
        updating(Updates::one(alarm_value_update(field, value)))
    } else {
        Step::Finished(Err(Error::InvalidInputData))
    }
}

/// The first step of enabling or disabling a component of the alarm.
pub open spec fn switching_alarm<E>(field: AlarmField, status: Control) -> Step<E> {
    updating(Updates::one(alarm_enable_update(field, status)))
}

/// The first step of asking whether a component of the alarm is enabled.
pub open spec fn asking_alarm<E>(field: AlarmField) -> Step<E> {
    querying(field.register_of(), Decoder::NoneSet(BitFlags::AE))
}

/// The first step of reading the value of a component of the alarm.
pub open spec fn reading_alarm<E>(field: AlarmField) -> Step<E> {
    querying(field.register_of(), Decoder::Bcd)
}

/// The first step of setting the seconds, minutes and hours of the alarm.
pub open spec fn setting_alarm_time<E>(time: Time) -> Step<E> {
    if time.valid() {
        updating(
            Updates::three(
                alarm_value_update(AlarmField::Second, time.seconds),
                alarm_value_update(AlarmField::Minute, time.minutes),
                alarm_value_update(AlarmField::Hour, time.hours),
            ),
        )
    } else {
        Step::Finished(Err(Error::InvalidInputData))
    }
}

/// The first step of enabling or disabling the seconds, minutes and hours of
/// the alarm.
pub open spec fn switching_alarm_time<E>(status: Control) -> Step<E> {
    updating(
        Updates::three(
            alarm_enable_update(AlarmField::Second, status),
            alarm_enable_update(AlarmField::Minute, status),
            alarm_enable_update(AlarmField::Hour, status),
        ),
    )
}

/// The first step of disabling all five components of the alarm.
pub open spec fn disabling_alarms<E>() -> Step<E> {
    updating(
        Updates::five(
            alarm_enable_update(AlarmField::Second, Control::Off),
            alarm_enable_update(AlarmField::Minute, Control::Off),
            alarm_enable_update(AlarmField::Hour, Control::Off),
            alarm_enable_update(AlarmField::Day, Control::Off),
            alarm_enable_update(AlarmField::Weekday, Control::Off),
        ),
    )
}

/// The first step of reading the alarm time: the hours are asked for first,
/// then the minutes, then the seconds.
pub open spec fn reading_alarm_time<E>() -> Step<E> {
    Step::Read(byte_of(Register::HOUR_ALARM), ReadPending::AlarmHours)
}

/// The update that puts a value into an alarm register.
fn value_update(field: AlarmField, value: u8) -> (update: Update)
    ensures
        update == alarm_value_update(field, value),
{
    Update {
        register: field.register(),
        rule: Rule::ReplaceField { mask: !BitFlags::AE, bits: encode_bcd(value) },
    }
}

/// The update that enables or disables a component of the alarm.
fn enable_update(field: AlarmField, status: Control) -> (update: Update)
    ensures
        update == alarm_enable_update(field, status),
{
    let rule = match status {
        Control::On => Rule::ClearBits(BitFlags::AE),
        Control::Off => Rule::SetBits(BitFlags::AE),
    };
    Update { register: field.register(), rule }
}

/// Start setting a component of the alarm.
fn set_alarm<E>(field: AlarmField, value: u8) -> (step: Step<E>)
    ensures
        step == setting_alarm::<E>(field, value),
        step.in_order(),
{
    if !field.accepts(value) {
        return Step::Finished(Err(Error::InvalidInputData));
    }
    start_updates(Updates::single(value_update(field, value)))
}

/// Start enabling or disabling a component of the alarm.
fn control_alarm<E>(field: AlarmField, status: Control) -> (step: Step<E>)
    ensures
        step == switching_alarm::<E>(field, status),
        step.in_order(),
{
    start_updates(Updates::single(enable_update(field, status)))
}

/// Start asking whether a component of the alarm is enabled.
fn is_alarm_enabled<E>(field: AlarmField) -> (step: Step<E>)
    ensures
        step == asking_alarm::<E>(field),
        step.in_order(),
{
    start_query(field.register(), Decoder::NoneSet(BitFlags::AE))
}

/// Start reading the value of a component of the alarm.
fn get_alarm<E>(field: AlarmField) -> (step: Step<E>)
    ensures
        step == reading_alarm::<E>(field),
        step.in_order(),
{
    start_query(field.register(), Decoder::Bcd)
}

impl<I2C> PCF85063<I2C> {
    /// Set the alarm seconds, minutes and hours, keeping the enable bits
    /// unchanged. A time out of range is turned down before any transaction.
    /// The three registers are updated one after the other: where a
    /// transaction fails, the ones before it stay applied.
    pub fn set_alarm_time<E>(&self, time: Time) -> (step: Step<E>)
        ensures
            step == setting_alarm_time::<E>(time),
            !time.valid() ==> step == Step::<E>::Finished(Err(Error::InvalidInputData)),
            step.in_order(),
    {
        if !time.is_valid() {
            return Step::Finished(Err(Error::InvalidInputData));
        }
        start_updates(
            Updates::triple(
                value_update(AlarmField::Second, time.seconds),
                value_update(AlarmField::Minute, time.minutes),
                value_update(AlarmField::Hour, time.hours),
            ),
        )
    }

    /// Set the alarm seconds [0-59], keeping the enable bit unchanged.
    pub fn set_alarm_seconds<E>(&self, seconds: u8) -> (step: Step<E>)
        ensures
            step == setting_alarm::<E>(AlarmField::Second, seconds),
            seconds > 59 ==> step == Step::<E>::Finished(Err(Error::InvalidInputData)),
            step.in_order(),
    {
        set_alarm(AlarmField::Second, seconds)
    }

    /// Set the alarm minutes [0-59], keeping the enable bit unchanged.
    pub fn set_alarm_minutes<E>(&self, minutes: u8) -> (step: Step<E>)
        ensures
            step == setting_alarm::<E>(AlarmField::Minute, minutes),
            minutes > 59 ==> step == Step::<E>::Finished(Err(Error::InvalidInputData)),
            step.in_order(),
    {
        set_alarm(AlarmField::Minute, minutes)
    }

    /// Set the alarm hours [0-23], keeping the enable bit unchanged.
    pub fn set_alarm_hours<E>(&self, hours: u8) -> (step: Step<E>)
        ensures
            step == setting_alarm::<E>(AlarmField::Hour, hours),
            hours > 23 ==> step == Step::<E>::Finished(Err(Error::InvalidInputData)),
            step.in_order(),
    {
        set_alarm(AlarmField::Hour, hours)
    }

    /// Set the alarm day [1-31], keeping the enable bit unchanged.
    pub fn set_alarm_day<E>(&self, day: u8) -> (step: Step<E>)
        ensures
            step == setting_alarm::<E>(AlarmField::Day, day),
            !(1 <= day <= 31) ==> step == Step::<E>::Finished(Err(Error::InvalidInputData)),
            step.in_order(),
    {
        set_alarm(AlarmField::Day, day)
    }

    /// Set the alarm weekday [0-6], keeping the enable bit unchanged.
    pub fn set_alarm_weekday<E>(&self, weekday: u8) -> (step: Step<E>)
        ensures
            step == setting_alarm::<E>(AlarmField::Weekday, weekday),
            weekday > 6 ==> step == Step::<E>::Finished(Err(Error::InvalidInputData)),
            step.in_order(),
    {
        set_alarm(AlarmField::Weekday, weekday)
    }

    /// Control alarm seconds (On: alarm enabled, Off: alarm disabled).
    pub fn control_alarm_seconds<E>(&self, status: Control) -> (step: Step<E>)
        ensures
            step == switching_alarm::<E>(AlarmField::Second, status),
            step.in_order(),
    {
        control_alarm(AlarmField::Second, status)
    }

    /// Is alarm seconds enabled? The result is a `Reply::Flag`.
    pub fn is_alarm_seconds_enabled<E>(&self) -> (step: Step<E>)
        ensures
            step == asking_alarm::<E>(AlarmField::Second),
            step.in_order(),
    {
        is_alarm_enabled(AlarmField::Second)
    }

    /// Control alarm minutes (On: alarm enabled, Off: alarm disabled).
    pub fn control_alarm_minutes<E>(&self, status: Control) -> (step: Step<E>)
        ensures
            step == switching_alarm::<E>(AlarmField::Minute, status),
            step.in_order(),
    {
        control_alarm(AlarmField::Minute, status)
    }

    /// Is alarm minutes enabled? The result is a `Reply::Flag`.
    pub fn is_alarm_minutes_enabled<E>(&self) -> (step: Step<E>)
        ensures
            step == asking_alarm::<E>(AlarmField::Minute),
            step.in_order(),
    {
        is_alarm_enabled(AlarmField::Minute)
    }

    /// Control alarm hours (On: alarm enabled, Off: alarm disabled).
    pub fn control_alarm_hours<E>(&self, status: Control) -> (step: Step<E>)
        ensures
            step == switching_alarm::<E>(AlarmField::Hour, status),
            step.in_order(),
    {
        control_alarm(AlarmField::Hour, status)
    }

    /// Is alarm hours enabled? The result is a `Reply::Flag`.
    pub fn is_alarm_hours_enabled<E>(&self) -> (step: Step<E>)
        ensures
            step == asking_alarm::<E>(AlarmField::Hour),
            step.in_order(),
    {
        is_alarm_enabled(AlarmField::Hour)
    }

    /// Control alarm day (On: alarm enabled, Off: alarm disabled).
    pub fn control_alarm_day<E>(&self, status: Control) -> (step: Step<E>)
        ensures
            step == switching_alarm::<E>(AlarmField::Day, status),
            step.in_order(),
    {
        control_alarm(AlarmField::Day, status)
    }

    /// Is alarm day enabled? The result is a `Reply::Flag`.
    pub fn is_alarm_day_enabled<E>(&self) -> (step: Step<E>)
        ensures
            step == asking_alarm::<E>(AlarmField::Day),
            step.in_order(),
    {
        is_alarm_enabled(AlarmField::Day)
    }

    /// Control alarm weekday (On: alarm enabled, Off: alarm disabled).
    pub fn control_alarm_weekday<E>(&self, status: Control) -> (step: Step<E>)
        ensures
            step == switching_alarm::<E>(AlarmField::Weekday, status),
            step.in_order(),
    {
        control_alarm(AlarmField::Weekday, status)
    }

    /// Is alarm weekday enabled? The result is a `Reply::Flag`.
    pub fn is_alarm_weekday_enabled<E>(&self) -> (step: Step<E>)
        ensures
            step == asking_alarm::<E>(AlarmField::Weekday),
            step.in_order(),
    {
        is_alarm_enabled(AlarmField::Weekday)
    }

    /// Enable or disable the seconds, minutes and hours of the alarm, one
    /// after the other.
    pub fn control_alarm_time<E>(&self, status: Control) -> (step: Step<E>)
        ensures
            step == switching_alarm_time::<E>(status),
            step.in_order(),
    {
        start_updates(
            Updates::triple(
                enable_update(AlarmField::Second, status),
                enable_update(AlarmField::Minute, status),
                enable_update(AlarmField::Hour, status),
            ),
        )
    }

    /// Enable or disable the alarm interrupt: bit `AIE` of `CONTROL_2`, which
    /// is set while the interrupt is enabled.
    pub fn control_alarm_interrupt<E>(&self, status: Control) -> (step: Step<E>)
        ensures
            step == modifying::<E>(
                Register::CONTROL_2,
                match status {
                    Control::On => Rule::SetBits(BitFlags::AIE),
                    Control::Off => Rule::ClearBits(BitFlags::AIE),
                },
            ),
            step.in_order(),
    {
        match status {
            Control::On => self.set_register_bit_flag(Register::CONTROL_2, BitFlags::AIE),
            Control::Off => self.clear_register_bit_flag(Register::CONTROL_2, BitFlags::AIE),
        }
    }

    /// Read the alarm time: the hours, the minutes and the seconds of the
    /// alarm, each with its own read. The result is a `Reply::Time`, or
    /// `ComponentRange` where the three make no time of day.
    pub fn get_alarm_time<E>(&self) -> (step: Step<E>)
        ensures
            step == reading_alarm_time::<E>(),
            step.in_order(),
    {
        Step::Read(
            ReadRequest::new(Register::HOUR_ALARM, 1),
            ReadPending::AlarmHours,
        )
    }

    /// Read the alarm seconds setting. The result is a `Reply::Byte`.
    pub fn get_alarm_seconds<E>(&self) -> (step: Step<E>)
        ensures
            step == reading_alarm::<E>(AlarmField::Second),
            step.in_order(),
    {
        get_alarm(AlarmField::Second)
    }

    /// Read the alarm minutes setting. The result is a `Reply::Byte`.
    pub fn get_alarm_minutes<E>(&self) -> (step: Step<E>)
        ensures
            step == reading_alarm::<E>(AlarmField::Minute),
            step.in_order(),
    {
        get_alarm(AlarmField::Minute)
    }

    /// Read the alarm hours setting. The result is a `Reply::Byte`.
    pub fn get_alarm_hours<E>(&self) -> (step: Step<E>)
        ensures
            step == reading_alarm::<E>(AlarmField::Hour),
            step.in_order(),
    {
        get_alarm(AlarmField::Hour)
    }

    /// Read the alarm day setting. The result is a `Reply::Byte`.
    pub fn get_alarm_day<E>(&self) -> (step: Step<E>)
        ensures
            step == reading_alarm::<E>(AlarmField::Day),
            step.in_order(),
    {
        get_alarm(AlarmField::Day)
    }

    /// Read the alarm weekday setting. The result is a `Reply::Byte`.
    pub fn get_alarm_weekday<E>(&self) -> (step: Step<E>)
        ensures
            step == reading_alarm::<E>(AlarmField::Weekday),
            step.in_order(),
    {
        get_alarm(AlarmField::Weekday)
    }

    /// Get the alarm flag (if true, alarm event happened): bit `AF` of
    /// `CONTROL_2`.
    pub fn get_alarm_flag<E>(&self) -> (step: Step<E>)
        ensures
            step == querying::<E>(Register::CONTROL_2, Decoder::AnySet(BitFlags::AF)),
            step.in_order(),
    {
        self.is_register_bit_flag_high(Register::CONTROL_2, BitFlags::AF)
    }

    /// Clear the alarm flag.
    pub fn clear_alarm_flag<E>(&self) -> (step: Step<E>)
        ensures
            step == modifying::<E>(Register::CONTROL_2, Rule::ClearBits(BitFlags::AF)),
            step.in_order(),
    {
        self.clear_register_bit_flag(Register::CONTROL_2, BitFlags::AF)
    }

    /// Check if alarm interrupt is enabled.
    pub fn is_alarm_interrupt_enabled<E>(&self) -> (step: Step<E>)
        ensures
            step == querying::<E>(Register::CONTROL_2, Decoder::AnySet(BitFlags::AIE)),
            step.in_order(),
    {
        self.is_register_bit_flag_high(Register::CONTROL_2, BitFlags::AIE)
    }

    /// Shut off the alarms at once: disable all five components, one after
    /// the other.
    pub fn disable_all_alarms<E>(&self) -> (step: Step<E>)
        ensures
            step == disabling_alarms::<E>(),
            step.in_order(),
    {
        start_updates(
            Updates::quintuple(
                enable_update(AlarmField::Second, Control::Off),
                enable_update(AlarmField::Minute, Control::Off),
                enable_update(AlarmField::Hour, Control::Off),
                enable_update(AlarmField::Day, Control::Off),
                enable_update(AlarmField::Weekday, Control::Off),
            ),
        )
    }
}

/// Setting a component of the alarm to a value in its range changes its
/// alarm register and no other: the enable bit stays as it was, the seven
/// bits below it hold the BCD byte of the value, and the value is what
/// reading the component then gives.
pub proof fn lemma_alarm_set<E>(field: AlarmField, value: u8, registers: Seq<u8>)
    requires
        is_register_file(registers),
        field.admits(value),
    ensures
        ({
            let register = field.register_of() as int;
            let (result, after) = settle(setting_alarm::<E>(field, value), registers);
            &&& result == Ok::<Reply, Error<E>>(Reply::Applied)
            &&& after == registers.update(register, after[register])
            &&& after[register] & BitFlags::AE == registers[register] & BitFlags::AE
            &&& after[register] & !BitFlags::AE == bcd_byte(value)
            &&& bcd_value(after[register]) == value
            &&& settle(reading_alarm::<E>(field), after) == (
                Ok::<Reply, Error<E>>(Reply::Byte(value)),
                after,
            )
            &&& settle(asking_alarm::<E>(field), after) == (
                settle(asking_alarm::<E>(field), registers).0,
                after,
            )
        }),
{
    let register = field.register_of();
    let current = registers[register as int];
    let byte = bcd_byte(value);
    let rule = Rule::ReplaceField { mask: !BitFlags::AE, bits: byte };
    let stored = rule.result(current);
    let after = registers.update(register as int, stored);
    lemma_settle_update::<E>(register, rule, registers);
    lemma_decode_encode(value);
    assert(byte < 0x80 ==> ((current & !(!0x80u8)) | byte) & 0x80 == current & 0x80
        && ((current & !(!0x80u8)) | byte) & !0x80u8 == byte
        && ((current & !(!0x80u8)) | byte) & 0x7f == byte) by (bit_vector);
    lemma_flag_bit_ignored(stored);
    assert(after =~= after.update(register as int, after[register as int]));
    lemma_settle_query::<E>(register, Decoder::Bcd, after);
    lemma_settle_query::<E>(register, Decoder::NoneSet(BitFlags::AE), after);
    lemma_settle_query::<E>(register, Decoder::NoneSet(BitFlags::AE), registers);
    assert(chip_read(after, byte_of(register))@[0] == stored);
    assert(chip_read(registers, byte_of(register))@[0] == current);
}

/// After a component of the alarm was enabled, asking says that it is
/// enabled; after it was disabled, asking says that it is not. Its value and
/// the other registers stay as they were.
pub proof fn lemma_alarm_switch<E>(field: AlarmField, status: Control, registers: Seq<u8>)
    requires
        is_register_file(registers),
    ensures
        ({
            let register = field.register_of() as int;
            let (result, after) = settle(switching_alarm::<E>(field, status), registers);
            &&& result == Ok::<Reply, Error<E>>(Reply::Applied)
            &&& settle(asking_alarm::<E>(field), after) == (
                Ok::<Reply, Error<E>>(Reply::Flag(status == Control::On)),
                after,
            )
            &&& after == registers.update(register, after[register])
            &&& after[register] & !BitFlags::AE == registers[register] & !BitFlags::AE
            &&& settle(reading_alarm::<E>(field), after) == (
                settle(reading_alarm::<E>(field), registers).0,
                after,
            )
        }),
{
    let register = field.register_of();
    let current = registers[register as int];
    let rule = alarm_enable_update(field, status).rule;
    let stored = rule.result(current);
    let after = registers.update(register as int, stored);
    lemma_settle_update::<E>(register, rule, registers);
    lemma_enable_bit(current);
    lemma_flag_bit_ignored(current);
    assert(after =~= after.update(register as int, after[register as int]));
    lemma_settle_query::<E>(register, Decoder::NoneSet(BitFlags::AE), after);
    lemma_settle_query::<E>(register, Decoder::Bcd, after);
    lemma_settle_query::<E>(register, Decoder::Bcd, registers);
    assert(chip_read(after, byte_of(register))@[0] == stored);
    assert(chip_read(registers, byte_of(register))@[0] == current);
}

/// Setting or clearing the enable bit of a byte touches no other bit of it.
proof fn lemma_enable_bit(byte: u8)
    ensures
        (byte | BitFlags::AE) & BitFlags::AE != 0,
        (byte & !BitFlags::AE) & BitFlags::AE == 0,
        (byte | BitFlags::AE) & !BitFlags::AE == byte & !BitFlags::AE,
        (byte & !BitFlags::AE) & !BitFlags::AE == byte & !BitFlags::AE,
        byte | BitFlags::AE == byte | 0x80,
        byte & !BitFlags::AE == byte & 0x7f,
{
    assert((byte | 0x80) & 0x80 != 0 && (byte & !0x80u8) & 0x80 == 0 && (byte | 0x80) & !0x80u8
        == byte & !0x80u8 && (byte & !0x80u8) & !0x80u8 == byte & !0x80u8 && byte & !0x80u8 == byte
        & 0x7f) by (bit_vector);
}

/// After all alarms were disabled, asking about any of the five components
/// says that it is not enabled, whatever the registers held before. The
/// values of the components stay as they were.
pub proof fn lemma_alarms_disabled<E>(registers: Seq<u8>)
    requires
        is_register_file(registers),
    ensures
        ({
            let (result, after) = settle(disabling_alarms::<E>(), registers);
            &&& result == Ok::<Reply, Error<E>>(Reply::Applied)
            &&& forall|field: AlarmField|
                #![trigger asking_alarm::<E>(field)]
                settle(asking_alarm::<E>(field), after) == (
                    Ok::<Reply, Error<E>>(Reply::Flag(false)),
                    after,
                )
            &&& forall|field: AlarmField|
                #![trigger reading_alarm::<E>(field)]
                settle(reading_alarm::<E>(field), after) == (
                    settle(reading_alarm::<E>(field), registers).0,
                    after,
                )
            &&& forall|a: int|
                0 <= a < Register::SECOND_ALARM ==> #[trigger] after[a] == registers[a]
        }),
{
    let updates = Updates::five(
        alarm_enable_update(AlarmField::Second, Control::Off),
        alarm_enable_update(AlarmField::Minute, Control::Off),
        alarm_enable_update(AlarmField::Hour, Control::Off),
        alarm_enable_update(AlarmField::Day, Control::Off),
        alarm_enable_update(AlarmField::Weekday, Control::Off),
    );
    assert(updates@ =~= seq![
        alarm_enable_update(AlarmField::Second, Control::Off),
        alarm_enable_update(AlarmField::Minute, Control::Off),
        alarm_enable_update(AlarmField::Hour, Control::Off),
        alarm_enable_update(AlarmField::Day, Control::Off),
        alarm_enable_update(AlarmField::Weekday, Control::Off),
    ]);
    lemma_settle_updates::<E>(updates, registers);
    lemma_updated_apart(registers, updates@);
    let after = updated(registers, updates@);
    assert forall|field: AlarmField|
        #![trigger asking_alarm::<E>(field)]
        settle(asking_alarm::<E>(field), after) == (
            Ok::<Reply, Error<E>>(Reply::Flag(false)),
            after,
        ) by {
        let register = field.register_of();
        assert(updates@[register - Register::SECOND_ALARM].register == register);
        lemma_enable_bit(registers[register as int]);
        lemma_settle_query::<E>(register, Decoder::NoneSet(BitFlags::AE), after);
        assert(chip_read(after, byte_of(register))@[0] == after[register as int]);
    }
    assert forall|field: AlarmField|
        #![trigger reading_alarm::<E>(field)]
        settle(reading_alarm::<E>(field), after) == (
            settle(reading_alarm::<E>(field), registers).0,
            after,
        ) by {
        let register = field.register_of();
        assert(updates@[register - Register::SECOND_ALARM].register == register);
        lemma_enable_bit(registers[register as int]);
        lemma_flag_bit_ignored(registers[register as int]);
        lemma_settle_query::<E>(register, Decoder::Bcd, after);
        lemma_settle_query::<E>(register, Decoder::Bcd, registers);
        assert(chip_read(after, byte_of(register))@[0] == after[register as int]);
        assert(chip_read(registers, byte_of(register))@[0] == registers[register as int]);
    }
    assert forall|a: int| 0 <= a < Register::SECOND_ALARM implies #[trigger] after[a]
        == registers[a] by {
        assert forall|i: int| 0 <= i < updates@.len() implies (#[trigger] updates@[i]).register
            != a by {}
    }
}

/// Setting the alarm time to a time in range does what setting the seconds,
/// then the minutes, then the hours of the alarm does, and reading the alarm
/// time then gives the time back.
pub proof fn lemma_alarm_time_set<E>(time: Time, registers: Seq<u8>)
    requires
        is_register_file(registers),
        time.valid(),
    ensures
        ({
            let (result, after) = settle(setting_alarm_time::<E>(time), registers);
            let first = settle(setting_alarm::<E>(AlarmField::Second, time.seconds), registers).1;
            let second = settle(setting_alarm::<E>(AlarmField::Minute, time.minutes), first).1;
            let third = settle(setting_alarm::<E>(AlarmField::Hour, time.hours), second).1;
            &&& result == Ok::<Reply, Error<E>>(Reply::Applied)
            &&& after == third
            &&& settle(reading_alarm_time::<E>(), after) == (
                Ok::<Reply, Error<E>>(Reply::Time(time)),
                after,
            )
        }),
{
    let a = alarm_value_update(AlarmField::Second, time.seconds);
    let b = alarm_value_update(AlarmField::Minute, time.minutes);
    let c = alarm_value_update(AlarmField::Hour, time.hours);
    let updates = Updates::three(a, b, c);
    assert(updates@ =~= seq![a, b, c]);
    lemma_settle_updates::<E>(updates, registers);
    lemma_in_turn(registers, a, b, c);
    let first = after_update(registers, a);
    let second = after_update(first, b);
    let third = after_update(second, c);
    lemma_settle_update::<E>(a.register, a.rule, registers);
    lemma_settle_update::<E>(b.register, b.rule, first);
    lemma_settle_update::<E>(c.register, c.rule, second);
    assert(settle(setting_alarm::<E>(AlarmField::Second, time.seconds), registers).1 == first);
    assert(settle(setting_alarm::<E>(AlarmField::Minute, time.minutes), first).1 == second);
    assert(settle(setting_alarm::<E>(AlarmField::Hour, time.hours), second).1 == third);
    lemma_alarm_set::<E>(AlarmField::Second, time.seconds, registers);
    lemma_alarm_set::<E>(AlarmField::Minute, time.minutes, first);
    lemma_alarm_set::<E>(AlarmField::Hour, time.hours, second);
    lemma_settle_alarm_time::<E>(third);
}

/// Enabling or disabling the alarm time does what enabling or disabling the
/// seconds, then the minutes, then the hours of the alarm does.
pub proof fn lemma_alarm_time_switch<E>(status: Control, registers: Seq<u8>)
    requires
        is_register_file(registers),
    ensures
        ({
            let (result, after) = settle(switching_alarm_time::<E>(status), registers);
            let first = settle(switching_alarm::<E>(AlarmField::Second, status), registers).1;
            let second = settle(switching_alarm::<E>(AlarmField::Minute, status), first).1;
            let third = settle(switching_alarm::<E>(AlarmField::Hour, status), second).1;
            &&& result == Ok::<Reply, Error<E>>(Reply::Applied)
            &&& after == third
        }),
{
    let a = alarm_enable_update(AlarmField::Second, status);
    let b = alarm_enable_update(AlarmField::Minute, status);
    let c = alarm_enable_update(AlarmField::Hour, status);
    let updates = Updates::three(a, b, c);
    assert(updates@ =~= seq![a, b, c]);
    lemma_settle_updates::<E>(updates, registers);
    lemma_in_turn(registers, a, b, c);
    let first = after_update(registers, a);
    let second = after_update(first, b);
    lemma_settle_update::<E>(a.register, a.rule, registers);
    lemma_settle_update::<E>(b.register, b.rule, first);
    lemma_settle_update::<E>(c.register, c.rule, second);
}

/// The registers after a single update.
spec fn after_update(registers: Seq<u8>, update: Update) -> Seq<u8> {
    registers.update(update.register as int, update.rule.result(registers[update.register as int]))
}

/// Three updates together are the first, then the second, then the third.
proof fn lemma_in_turn(registers: Seq<u8>, a: Update, b: Update, c: Update)
    ensures
        updated(registers, seq![a, b, c]) == after_update(
            after_update(after_update(registers, a), b),
            c,
        ),
{
    reveal_with_fuel(updated, 4);
    assert(seq![a, b, c].skip(1) =~= seq![b, c]);
    assert(seq![b, c].skip(1) =~= seq![c]);
    assert(seq![c].skip(1) =~= Seq::<Update>::empty());
}

} // verus!
