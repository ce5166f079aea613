//! Register-level core of a driver for the PCF85063 real-time clock.
//!
//! The crate holds everything the driver decides: the register map, the BCD
//! codec, the layout of the time and date registers, the alarm protocol and
//! the order of the bus transactions that each operation needs. It performs
//! no bus transaction itself. Every operation is a small state machine that
//! names the next transaction; the caller performs it on the two-wire bus,
//! blocking or suspending as it likes, and hands the outcome back:
//!
//! 1. call an operation of [`PCF85063`], which gives a [`Step`];
//! 2. for `Step::Read`, write the register address to the device of the
//!    request, read the bytes asked for into a cleared buffer of seven, and
//!    resume the `ReadPending` with the buffer or the error;
//! 3. for `Step::Write`, write the payload to the device of the request and
//!    resume the `WritePending` with the outcome;
//! 4. for `Step::Finished`, take the result.

pub mod alarm;
pub mod bcd;
pub mod bus;
pub mod datetime;
pub mod driver;
pub mod model;
pub mod operation;
pub mod registers;

pub use crate::alarm::AlarmField;
pub use crate::bcd::{decode_bcd, encode_bcd};
pub use crate::bus::{Payload, ReadRequest, WriteRequest};
pub use crate::datetime::{DateTime, Time};
pub use crate::driver::PCF85063;
pub use crate::operation::{ReadPending, Reply, Step, WritePending};
pub use crate::registers::{BitFlags, Control, Error, OutputFrequency, Register, DEVICE_ADDRESS};
