//! The transactions that the driver asks of the two-wire bus, and a model of
//! what the chip makes of them.
//!
//! The library never touches the bus. It names a transaction, the caller
//! performs it against the device address and reports how it went. Each
//! transaction is one whole transport operation; a read followed by a write
//! is two of them, and another bus master may get in between.

use vstd::prelude::*;
use crate::registers::DEVICE_ADDRESS;

verus! {

/// The number of registers of the chip.
pub const REGISTER_COUNT: usize = 18;

/// A combined transaction with the device at bus address `device`: write the
/// address of `register`, then read `len` bytes, which the chip takes from
/// that register and the ones after it.
#[derive(Debug, Clone, Copy, PartialEq, Eq, Structural)]
pub struct ReadRequest {
    /// The bus address of the device.
    pub device: u8,
    /// The register that the read starts at.
    pub register: u8,
    /// The number of bytes to read, 7 at most.
    pub len: usize,
}

/// A write transaction with the device at bus address `device`.
#[derive(Debug, Clone, Copy)]
pub struct WriteRequest {
    /// The bus address of the device.
    pub device: u8,
    /// The bytes to write.
    pub payload: Payload,
}

/// The bytes of a write transaction. The first byte is the address of a
/// register; the chip stores the bytes after it in that register and the ones
/// that follow.
#[derive(Debug, Clone, Copy)]
pub enum Payload {
    /// A register address and the value for that register.
    Register([u8; 2]),
    /// The address of `SECONDS` and the three bytes of a time.
    Time([u8; 4]),
    /// The address of `SECONDS` and the seven bytes of a date and time.
    DateTime([u8; 8]),
}

impl View for Payload {
    type V = Seq<u8>;

    open spec fn view(&self) -> Seq<u8> {
        match *self {
            Payload::Register(bytes) => bytes@,
            Payload::Time(bytes) => bytes@,
            Payload::DateTime(bytes) => bytes@,
        }
    }
}

impl Payload {
    /// The bytes to hand to the transport.
    pub fn as_slice(&self) -> (bytes: &[u8])
        ensures
            bytes@ == self@,
    {
        match self {
            Payload::Register(bytes) => bytes.as_slice(),
            Payload::Time(bytes) => bytes.as_slice(),
            Payload::DateTime(bytes) => bytes.as_slice(),
        }
    }
}

impl ReadRequest {
    /// The read of `len` bytes from `register` on, asked of the chip.
    pub open spec fn of(register: u8, len: usize) -> ReadRequest {
        ReadRequest { device: DEVICE_ADDRESS, register, len }
    }

    /// The read of `len` bytes from `register` on, asked of the chip.
    pub fn new(register: u8, len: usize) -> (request: ReadRequest)
        ensures
            request == ReadRequest::of(register, len),
    {
        ReadRequest { device: DEVICE_ADDRESS, register, len }
    }
}

impl WriteRequest {
    /// The write of a payload, asked of the chip.
    pub open spec fn of(payload: Payload) -> WriteRequest {
        WriteRequest { device: DEVICE_ADDRESS, payload }
    }

    /// The write of a payload, asked of the chip.
    pub fn new(payload: Payload) -> (request: WriteRequest)
        ensures
            request == WriteRequest::of(payload),
    {
        WriteRequest { device: DEVICE_ADDRESS, payload }
    }
}

/// The registers of a chip are modelled as a sequence of `REGISTER_COUNT`
/// bytes, indexed by register address.
pub open spec fn is_register_file(registers: Seq<u8>) -> bool {
    registers.len() == REGISTER_COUNT
}

/// What a read hands back from a chip with the given registers, where the
/// request went to the chip's address: the bytes
/// asked for, then zeros up to seven bytes, as in a buffer that was cleared
/// before the read. A read that runs past the last register is not modelled,
/// and gives zeros there.
pub open spec fn chip_read(registers: Seq<u8>, request: ReadRequest) -> [u8; 7] {
    [
        chip_read_byte(registers, request, 0),
        chip_read_byte(registers, request, 1),
        chip_read_byte(registers, request, 2),
        chip_read_byte(registers, request, 3),
        chip_read_byte(registers, request, 4),
        chip_read_byte(registers, request, 5),
        chip_read_byte(registers, request, 6),
    ]
}

/// The byte at position `i` of what a read hands back.
pub open spec fn chip_read_byte(registers: Seq<u8>, request: ReadRequest, i: int) -> u8 {
    if i < request.len && request.register + i < registers.len() {
        registers[request.register + i]
    } else {
        0
    }
}

/// The registers of a chip after a write: the bytes after the address are
/// stored from the addressed register on. A write that runs past the last
/// register is not modelled; such bytes are dropped.
pub open spec fn chip_write(registers: Seq<u8>, payload: Seq<u8>) -> Seq<u8> {
    Seq::new(
        registers.len(),
        |a: int|
            if payload.len() >= 1 && payload[0] <= a < payload[0] + payload.len() - 1 {
                payload[a - payload[0] + 1]
            } else {
                registers[a]
            },
    )
}

} // verus!
