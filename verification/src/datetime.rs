//! The time and the date as the chip keeps them, and their layout in the
//! seven registers that start at `SECONDS`.
//!
//! The chip is always read and written in one burst: reading or setting single
//! components is not offered, so that no caller sees a time that was torn by
//! a roll-over.

use vstd::prelude::*;
use crate::bcd::{
    bcd_byte, bcd_value, decode_bcd, encode_bcd, lemma_bcd_byte_digits, lemma_decode_encode,
};
use crate::bus::{chip_read, chip_write, is_register_file, Payload, ReadRequest};
use crate::model::{lemma_settle_query, lemma_settle_write, settle};
use crate::driver::PCF85063;
use crate::operation::{
    querying, start_query, start_write, writing, Decoder, Reply, Step,
};
use crate::registers::{Error, Register};

verus! {

/// The calendar year that the chip calls year 0.
pub const FIRST_YEAR: i32 = 2000;

/// The calendar year that the chip calls year 99.
pub const LAST_YEAR: i32 = 2099;

/// A time of day.
#[derive(Debug, Clone, Copy, PartialEq, Eq, Structural)]
pub struct Time {
    /// 0 to 23.
    pub hours: u8,
    /// 0 to 59.
    pub minutes: u8,
    /// 0 to 59.
    pub seconds: u8,
}

/// A date and a time of day. No calendar is applied: the weekday is a number
/// of its own, which the caller keeps in step with the date, and a day that
/// its month does not have is not noticed.
#[derive(Debug, Clone, Copy, PartialEq, Eq, Structural)]
pub struct DateTime {
    /// 0 to 99, counted from the start of the century.
    pub year: u8,
    /// 1 to 12.
    pub month: u8,
    /// 0 to 6, with Sunday as 6.
    pub weekday: u8,
    /// 1 to 31.
    pub day: u8,
    /// 0 to 23.
    pub hours: u8,
    /// 0 to 59.
    pub minutes: u8,
    /// 0 to 59.
    pub seconds: u8,
}

impl Time {
    /// All three components are in range.
    pub open spec fn valid(self) -> bool {
        self.hours <= 23 && self.minutes <= 59 && self.seconds <= 59
    }

    /// The three register bytes of a time, in the order of the registers:
    /// seconds, minutes, hours.
    pub open spec fn registers(self) -> Seq<u8> {
        seq![bcd_byte(self.seconds), bcd_byte(self.minutes), bcd_byte(self.hours)]
    }

    /// The time that three register bytes hold, whether it is in range or not.
    /// The oscillator-stop flag above the seconds and the unused bits above
    /// the minutes and the hours are masked off.
    pub open spec fn decoded(data: Seq<u8>) -> Time {
        Time {
            hours: bcd_value(data[2] & 0x3f) as u8,
            minutes: bcd_value(data[1] & 0x7f) as u8,
            seconds: bcd_value(data[0] & 0x7f) as u8,
        }
    }

    /// The payload of the burst that sets the time: the address of `SECONDS`,
    /// then the three register bytes.
    pub open spec fn burst(self) -> [u8; 4] {
        [
            Register::SECONDS,
            bcd_byte(self.seconds),
            bcd_byte(self.minutes),
            bcd_byte(self.hours),
        ]
    }

    /// Whether all three components are in range.
    pub fn is_valid(&self) -> (ok: bool)
        ensures
            ok == self.valid(),
    {
        self.hours <= 23 && self.minutes <= 59 && self.seconds <= 59
    }

    /// The payload of the burst that sets the time.
    pub fn to_burst(&self) -> (payload: [u8; 4])
        ensures
            payload == self.burst(),
            payload@ == seq![Register::SECONDS] + self.registers(),
    {
        let payload = [
            Register::SECONDS,
            encode_bcd(self.seconds),
            encode_bcd(self.minutes),
            encode_bcd(self.hours),
        ];
        assert(payload =~= self.burst());
        assert(payload@ =~= seq![Register::SECONDS] + self.registers());
        payload
    }

    /// The time in the first three bytes of a burst read from `SECONDS`, or
    /// `None` where they hold no time of day. The other bytes are not read.
    pub fn from_registers(data: &[u8; 7]) -> (time: Option<Time>)
        ensures
            time == if Time::decoded(data@).valid() {
                Some(Time::decoded(data@))
            } else {
                None
            },
    {
        let time = Time {
            hours: decode_bcd(data[2] & 0x3f),
            minutes: decode_bcd(data[1] & 0b0111_1111),
            seconds: decode_bcd(data[0] & 0b0111_1111),
        };
        if time.is_valid() {
            Some(time)
        } else {
            None
        }
    }
}

impl DateTime {
    /// All seven components are in range.
    pub open spec fn valid(self) -> bool {
        &&& self.year <= 99
        &&& 1 <= self.month <= 12
        &&& self.weekday <= 6
        &&& 1 <= self.day <= 31
        &&& self.hours <= 23
        &&& self.minutes <= 59
        &&& self.seconds <= 59
    }

    /// The time of day of this date and time.
    pub open spec fn time_of_day(self) -> Time {
        Time { hours: self.hours, minutes: self.minutes, seconds: self.seconds }
    }

    /// The seven register bytes of a date and time, in the order of the
    /// registers: seconds, minutes, hours, day, weekday, month, year.
    pub open spec fn registers(self) -> Seq<u8> {
        seq![
            bcd_byte(self.seconds),
            bcd_byte(self.minutes),
            bcd_byte(self.hours),
            bcd_byte(self.day),
            bcd_byte(self.weekday),
            bcd_byte(self.month),
            bcd_byte(self.year),
        ]
    }

    /// The date and time that seven register bytes hold, whether it is in
    /// range or not. The flags and unused bits above each component are masked
    /// off: the oscillator-stop flag above the seconds, the century flag above
    /// the month.
    pub open spec fn decoded(data: Seq<u8>) -> DateTime {
        DateTime {
            year: bcd_value(data[6]) as u8,
            month: bcd_value(data[5] & 0x1f) as u8,
            weekday: bcd_value(data[4] & 0x07) as u8,
            day: bcd_value(data[3] & 0x3f) as u8,
            hours: bcd_value(data[2] & 0x3f) as u8,
            minutes: bcd_value(data[1] & 0x7f) as u8,
            seconds: bcd_value(data[0] & 0x7f) as u8,
        }
    }

    /// The payload of the burst that sets date and time: the address of
    /// `SECONDS`, then the seven register bytes.
    pub open spec fn burst(self) -> [u8; 8] {
        [
            Register::SECONDS,
            bcd_byte(self.seconds),
            bcd_byte(self.minutes),
            bcd_byte(self.hours),
            bcd_byte(self.day),
            bcd_byte(self.weekday),
            bcd_byte(self.month),
            bcd_byte(self.year),
        ]
    }

    /// The calendar year of a date whose year is in range.
    pub open spec fn calendar_year(self) -> int {
        FIRST_YEAR + self.year
    }

    /// The calendar year of this date, counted from `FIRST_YEAR`.
    pub fn full_year(&self) -> (year: i32)
        ensures
            year == self.calendar_year(),
    {
        FIRST_YEAR + self.year as i32
    }

    /// The year that the chip keeps for a calendar year, or `None` for a
    /// calendar year outside `FIRST_YEAR` to `LAST_YEAR`.
    pub fn year_on_chip(full_year: i32) -> (year: Option<u8>)
        ensures
            year == if FIRST_YEAR <= full_year <= LAST_YEAR {
                Some((full_year - FIRST_YEAR) as u8)
            } else {
                None
            },
            year matches Some(y) ==> y <= 99 && FIRST_YEAR + y == full_year,
    {
        if FIRST_YEAR <= full_year && full_year <= LAST_YEAR {
            Some((full_year - FIRST_YEAR) as u8)
        } else {
            None
        }
    }

    /// Whether all seven components are in range.
    pub fn is_valid(&self) -> (ok: bool)
        ensures
            ok == self.valid(),
    {
        self.year <= 99 && 1 <= self.month && self.month <= 12 && self.weekday <= 6 && 1
            <= self.day && self.day <= 31 && self.hours <= 23 && self.minutes <= 59
            && self.seconds <= 59
    }

    /// The time of day of this date and time.
    pub fn time(&self) -> (time: Time)
        ensures
            time == self.time_of_day(),
    {
        Time { hours: self.hours, minutes: self.minutes, seconds: self.seconds }
    }

    /// The payload of the burst that sets date and time.
    pub fn to_burst(&self) -> (payload: [u8; 8])
        ensures
            payload == self.burst(),
            payload@ == seq![Register::SECONDS] + self.registers(),
    {
        let payload = [
            Register::SECONDS,
            encode_bcd(self.seconds),
            encode_bcd(self.minutes),
            encode_bcd(self.hours),
            encode_bcd(self.day),
            encode_bcd(self.weekday),
            encode_bcd(self.month),
            encode_bcd(self.year),
        ];
        assert(payload =~= self.burst());
        assert(payload@ =~= seq![Register::SECONDS] + self.registers());
        payload
    }

    /// The date and time in a burst of seven bytes read from `SECONDS`, or
    /// `None` where a component is out of its range.
    pub fn from_registers(data: &[u8; 7]) -> (datetime: Option<DateTime>)
        ensures
            datetime == if DateTime::decoded(data@).valid() {
                Some(DateTime::decoded(data@))
            } else {
                None
            },
    {
        let datetime = DateTime {
            year: decode_bcd(data[6]),
            month: decode_bcd(data[5] & 0x1f),
            weekday: decode_bcd(data[4] & 0x07),
            day: decode_bcd(data[3] & 0x3f),
            hours: decode_bcd(data[2] & 0x3f),
            minutes: decode_bcd(data[1] & 0b0111_1111),
            seconds: decode_bcd(data[0] & 0b0111_1111),
        };
        if datetime.is_valid() {
            Some(datetime)
        } else {
            None
        }
    }
}

impl Default for DateTime {
    /// The first day of the century at midnight, with Sunday, 6, as its
    /// weekday.
    fn default() -> (datetime: Self)
        ensures
            datetime == (DateTime {
                year: 0,
                month: 1,
                weekday: 6,
                day: 1,
                hours: 0,
                minutes: 0,
                seconds: 0,
            }),
            datetime.valid(),
    {
        DateTime { year: 0, month: 1, weekday: 6, day: 1, hours: 0, minutes: 0, seconds: 0 }
    }
}

/// A component below the limit of its register is found again when its BCD
/// byte is masked as the register is and decoded.
pub proof fn lemma_masked_component(value: u8, mask: u8)
    requires
        mask == 0x07 || mask == 0x1f || mask == 0x3f || mask == 0x7f,
        mask == 0x07 ==> value <= 7,
        mask == 0x1f ==> value <= 19,
        mask == 0x3f ==> value <= 39,
        mask == 0x7f ==> value <= 79,
    ensures
        bcd_value(bcd_byte(value) & mask) == value,
{
    lemma_bcd_byte_digits(value);
    let byte = bcd_byte(value);
    assert(byte < 0x08 ==> byte & 0x07 == byte) by (bit_vector);
    assert(byte < 0x20 ==> byte & 0x1f == byte) by (bit_vector);
    assert(byte < 0x40 ==> byte & 0x3f == byte) by (bit_vector);
    assert(byte < 0x80 ==> byte & 0x7f == byte) by (bit_vector);
}

/// A time in range is found again in its register bytes, whatever follows
/// them in the burst.
pub proof fn lemma_time_registers(time: Time, data: Seq<u8>)
    requires
        time.valid(),
        data.len() >= 3,
        data.subrange(0, 3) == time.registers(),
    ensures
        Time::decoded(data) == time,
{
    assert(data[0] == data.subrange(0, 3)[0]);
    assert(data[1] == data.subrange(0, 3)[1]);
    assert(data[2] == data.subrange(0, 3)[2]);
    lemma_masked_component(time.seconds, 0x7f);
    lemma_masked_component(time.minutes, 0x7f);
    lemma_masked_component(time.hours, 0x3f);
}

/// A date and time in range, of a year up to 79, is found again in its
/// register bytes. A year from 80 on has bit 7 of its byte set, which the
/// decoder does not read.
pub proof fn lemma_datetime_registers(datetime: DateTime)
    requires
        datetime.valid(),
        datetime.year <= 79,
    ensures
        DateTime::decoded(datetime.registers()) == datetime,
{
    lemma_masked_component(datetime.seconds, 0x7f);
    lemma_masked_component(datetime.minutes, 0x7f);
    lemma_masked_component(datetime.hours, 0x3f);
    lemma_masked_component(datetime.day, 0x3f);
    lemma_masked_component(datetime.weekday, 0x07);
    lemma_masked_component(datetime.month, 0x1f);
    lemma_decode_encode(datetime.year);
}

/// The first step of setting date and time: a value with a component out of
/// range is turned down at once, else all seven registers are written in one
/// burst.
pub open spec fn setting_datetime<E>(datetime: DateTime) -> Step<E> {
    if datetime.valid() {
        writing(Payload::DateTime(datetime.burst()))
    } else {
        Step::Finished(Err(Error::InvalidInputData))
    }
}

/// The first step of setting the time: a value with a component out of range
/// is turned down at once, else the three registers are written in one burst.
pub open spec fn setting_time<E>(time: Time) -> Step<E> {
    if time.valid() {
        writing(Payload::Time(time.burst()))
    } else {
        Step::Finished(Err(Error::InvalidInputData))
    }
}

impl<I2C> PCF85063<I2C> {
    /// Read date and time all at once: one burst of seven bytes from
    /// `SECONDS`. The result is a `Reply::DateTime`, or `ComponentRange` where
    /// the chip holds a component out of its range. The year is the one the
    /// chip keeps, 0 to 99.
    pub fn get_datetime<E>(&self) -> (step: Step<E>)
        ensures
            step == querying::<E>(Register::SECONDS, Decoder::DateTime),
            step.in_order(),
    {
        start_query(Register::SECONDS, Decoder::DateTime)
    }

    /// Set date and time all at once: one burst of the address of `SECONDS`
    /// and the seven register bytes. Where any component is out of range the
    /// operation ends with `InvalidInputData` and asks for no transaction.
    pub fn set_datetime<E>(&self, datetime: &DateTime) -> (step: Step<E>)
        ensures
            step == setting_datetime::<E>(*datetime),
            !datetime.valid() ==> step == Step::<E>::Finished(Err(Error::InvalidInputData)),
            step.in_order(),
    {
        if !datetime.is_valid() {
            return Step::Finished(Err(Error::InvalidInputData));
        }
        start_write(Payload::DateTime(datetime.to_burst()))
    }

    /// Read only the time: one burst of three bytes from `SECONDS`. The
    /// result is a `Reply::Time`, or `ComponentRange` where the chip holds a
    /// component out of its range.
    pub fn get_time<E>(&self) -> (step: Step<E>)
        ensures
            step == querying::<E>(Register::SECONDS, Decoder::Time),
            step.in_order(),
    {
        start_query(Register::SECONDS, Decoder::Time)
    }

    /// Set only the time, date remains unchanged: one burst of the address of
    /// `SECONDS` and the three register bytes. Where any component is out of
    /// range the operation ends with `InvalidInputData` and asks for no
    /// transaction.
    pub fn set_time<E>(&self, time: &Time) -> (step: Step<E>)
        ensures
            step == setting_time::<E>(*time),
            !time.valid() ==> step == Step::<E>::Finished(Err(Error::InvalidInputData)),
            step.in_order(),
    {
        if !time.is_valid() {
            return Step::Finished(Err(Error::InvalidInputData));
        }
        start_write(Payload::Time(time.to_burst()))
    }
}

/// Setting a date and time in range, of a year up to 79, and reading date and
/// time back gives the same value. The write changes the seven registers from
/// `SECONDS` to `YEARS` and no other.
pub proof fn lemma_datetime_read_back<E>(datetime: DateTime, registers: Seq<u8>)
    requires
        is_register_file(registers),
        datetime.valid(),
        datetime.year <= 79,
    ensures
        ({
            let (result, after) = settle(setting_datetime::<E>(datetime), registers);
            &&& result == Ok::<Reply, Error<E>>(Reply::Applied)
            &&& after.subrange(Register::SECONDS as int, Register::YEARS + 1)
                == datetime.registers()
            &&& forall|a: int|
                0 <= a < registers.len() && !(Register::SECONDS <= a <= Register::YEARS)
                    ==> #[trigger] after[a] == registers[a]
            &&& settle(querying::<E>(Register::SECONDS, Decoder::DateTime), after) == (
                Ok::<Reply, Error<E>>(Reply::DateTime(datetime)),
                after,
            )
        }),
{
    let payload = Payload::DateTime(datetime.burst());
    assert(payload@ =~= seq![Register::SECONDS] + datetime.registers());
    let after = chip_write(registers, payload@);
    lemma_settle_write::<E>(payload, registers);
    assert(after.subrange(Register::SECONDS as int, Register::YEARS + 1)
        =~= datetime.registers());
    lemma_settle_query::<E>(Register::SECONDS, Decoder::DateTime, after);
    let data = chip_read(after, ReadRequest::of(Register::SECONDS, 7));
    assert(data@ =~= datetime.registers());
    lemma_datetime_registers(datetime);
}

/// Setting a time in range and reading the time back gives the same value.
/// The write changes the three registers from `SECONDS` to `HOURS` and no
/// other: the date stays as it was.
pub proof fn lemma_time_read_back<E>(time: Time, registers: Seq<u8>)
    requires
        is_register_file(registers),
        time.valid(),
    ensures
        ({
            let (result, after) = settle(setting_time::<E>(time), registers);
            &&& result == Ok::<Reply, Error<E>>(Reply::Applied)
            &&& after.subrange(Register::SECONDS as int, Register::HOURS + 1) == time.registers()
            &&& forall|a: int|
                0 <= a < registers.len() && !(Register::SECONDS <= a <= Register::HOURS)
                    ==> #[trigger] after[a] == registers[a]
            &&& settle(querying::<E>(Register::SECONDS, Decoder::Time), after) == (
                Ok::<Reply, Error<E>>(Reply::Time(time)),
                after,
            )
        }),
{
    let payload = Payload::Time(time.burst());
    assert(payload@ =~= seq![Register::SECONDS] + time.registers());
    let after = chip_write(registers, payload@);
    lemma_settle_write::<E>(payload, registers);
    assert(after.subrange(Register::SECONDS as int, Register::HOURS + 1) =~= time.registers());
    lemma_settle_query::<E>(Register::SECONDS, Decoder::Time, after);
    let data = chip_read(after, ReadRequest::of(Register::SECONDS, 3));
    assert(data@.subrange(0, 3) =~= time.registers());
    lemma_time_registers(time, data@);
}

} // verus!
