//! The chip's register map, the flags inside its registers, and the small
//! value types that the operations take and return.

use vstd::prelude::*;

verus! {

/// The seven-bit bus address at which the chip answers.
pub const DEVICE_ADDRESS: u8 = 0b1010001;

/// Byte offsets of the chip's registers.
pub struct Register;

impl Register {
    // control and status registers
    pub const CONTROL_1: u8 = 0x00;
    pub const CONTROL_2: u8 = 0x01;
    pub const OFFSET: u8 = 0x02;
    pub const RAM_BYTE: u8 = 0x03;

    // time and date registers
    pub const SECONDS: u8 = 0x04;
    pub const MINUTES: u8 = 0x05;
    pub const HOURS: u8 = 0x06;
    pub const DAYS: u8 = 0x07;
    pub const WEEKDAYS: u8 = 0x08;
    pub const MONTHS: u8 = 0x09;
    pub const YEARS: u8 = 0x0A;

    // alarm registers
    pub const SECOND_ALARM: u8 = 0x0B;
    pub const MINUTE_ALARM: u8 = 0x0C;
    pub const HOUR_ALARM: u8 = 0x0D;
    pub const DAY_ALARM: u8 = 0x0E;
    pub const WEEKDAY_ALARM: u8 = 0x0F;

    // timer registers
    pub const TIMER_VALUE: u8 = 0x10;
    pub const TIMER_MODE: u8 = 0x11;
}

/// Masks of the flags inside the registers. A mask means something only
/// together with its register: `AF` and `AIE` belong to `CONTROL_2`, `AE` to
/// each of the five alarm registers, though `AIE` and `AE` are the same bit.
pub struct BitFlags;

impl BitFlags {
    // control 1
    /// Internal oscillator capacitor selection.
    pub const CAP_SEL: u8 = 0b0000_0001;
    /// 12 or 24-hour mode.
    pub const MODE_12_24: u8 = 0b0000_0010;
    /// Correction interrupt enable.
    pub const CIE: u8 = 0b0000_0100;
    /// Software reset.
    pub const SR: u8 = 0b0001_0000;
    /// Clock stop.
    pub const STOP: u8 = 0b0010_0000;
    /// External clock test mode.
    pub const EXT_TEST: u8 = 0b1000_0000;

    // control 2
    /// Clock output frequency, a field of three bits.
    pub const COF: u8 = 0b0000_0111;
    /// Timer flag.
    pub const TF: u8 = 0b0000_1000;
    /// Half-minute interrupt.
    pub const HMI: u8 = 0b0001_0000;
    /// Minute interrupt.
    pub const MI: u8 = 0b0010_0000;
    /// Alarm flag.
    pub const AF: u8 = 0b0100_0000;
    /// Alarm interrupt enable.
    pub const AIE: u8 = 0b1000_0000;

    // alarm registers
    /// Alarm field ignored: while the bit is set the field takes no part in
    /// the alarm, while it is clear the field is compared.
    pub const AE: u8 = 0b1000_0000;
}

/// Two possible choices, used for the enable and disable operations.
#[derive(Copy, Clone, Debug, PartialEq, Eq, Structural)]
pub enum Control {
    /// Enable some feature.
    On,
    /// Disable some feature.
    Off,
}

/// All possible errors of the driver.
#[derive(Debug)]
pub enum Error<E> {
    /// The transport reported a failure; its own error is inside.
    I2C(E),
    /// A value handed in by the caller is out of its range.
    InvalidInputData,
    /// The chip holds a time or date component that is out of its range.
    ComponentRange,
}

/// The frequencies that the chip can put on its clock output pin.
#[derive(Debug, Clone, Copy, PartialEq, Eq, Structural)]
pub enum OutputFrequency {
    Hz32768,
    Hz16384,
    Hz8192,
    Hz4096,
    Hz2048,
    Hz1024,
    Hz1,
    Hz0,
}

impl OutputFrequency {
    /// The three-bit code of the frequency in `CONTROL_2`.
    pub open spec fn code(self) -> u8 {
        match self {
            OutputFrequency::Hz32768 => 0b000,
            OutputFrequency::Hz16384 => 0b001,
            OutputFrequency::Hz8192 => 0b010,
            OutputFrequency::Hz4096 => 0b011,
            OutputFrequency::Hz2048 => 0b100,
            OutputFrequency::Hz1024 => 0b101,
            OutputFrequency::Hz1 => 0b110,
            OutputFrequency::Hz0 => 0b111,
        }
    }

    /// The frequency whose code is the lowest three bits of `value`.
    pub open spec fn of_code(value: u8) -> OutputFrequency {
        let low = value as int % 8;
        if low == 0 {
            OutputFrequency::Hz32768
        } else if low == 1 {
            OutputFrequency::Hz16384
        } else if low == 2 {
            OutputFrequency::Hz8192
        } else if low == 3 {
            OutputFrequency::Hz4096
        } else if low == 4 {
            OutputFrequency::Hz2048
        } else if low == 5 {
            OutputFrequency::Hz1024
        } else if low == 6 {
            OutputFrequency::Hz1
        } else {
            OutputFrequency::Hz0
        }
    }

    /// The three-bit code of the frequency.
    pub fn bits(self) -> (code: u8)
        ensures
            code == self.code(),
            code <= 7,
    {
        match self {
            OutputFrequency::Hz32768 => 0b000,
            OutputFrequency::Hz16384 => 0b001,
            OutputFrequency::Hz8192 => 0b010,
            OutputFrequency::Hz4096 => 0b011,
            OutputFrequency::Hz2048 => 0b100,
            OutputFrequency::Hz1024 => 0b101,
            OutputFrequency::Hz1 => 0b110,
            OutputFrequency::Hz0 => 0b111,
        }
    }

    /// The frequency that the lowest three bits of a `CONTROL_2` value select.
    /// The other bits are not read.
    pub fn from_bits(value: u8) -> (frequency: OutputFrequency)
        ensures
            frequency == Self::of_code(value),
            frequency.code() as int == value as int % 8,
    {
        let low: u8 = value & BitFlags::COF;
        assert(value & 0b0000_0111 == value % 8) by (bit_vector);
        if low == 0 {
            OutputFrequency::Hz32768
        } else if low == 1 {
            OutputFrequency::Hz16384
        } else if low == 2 {
            OutputFrequency::Hz8192
        } else if low == 3 {
            OutputFrequency::Hz4096
        } else if low == 4 {
            OutputFrequency::Hz2048
        } else if low == 5 {
            OutputFrequency::Hz1024
        } else if low == 6 {
            OutputFrequency::Hz1
        } else {
            OutputFrequency::Hz0
        }
    }
}

impl Default for OutputFrequency {
    fn default() -> (frequency: Self)
        ensures
            frequency == OutputFrequency::Hz32768,
    {
        OutputFrequency::Hz32768
    }
}

/// Every frequency is found again from its code.
pub proof fn lemma_frequency_code(frequency: OutputFrequency)
    ensures
        OutputFrequency::of_code(frequency.code()) == frequency,
{
}

} // verus!
