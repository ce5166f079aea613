//! The driver: the owner of the transport handle, and the place where the
//! operations start.
//!
//! Every operation is a method without side effect. It checks what the caller
//! handed in and gives the first `Step` of the operation; an input out of
//! range ends the operation before any transaction is asked for. The caller
//! performs the transactions on the handle that `bus` lends it.

use vstd::prelude::*;
use crate::bus::{chip_read, chip_write, is_register_file, Payload, ReadRequest};
use crate::model::{
    lemma_advanced, lemma_settle_query, lemma_settle_update, lemma_settle_write, settle,
};
use crate::operation::{
    byte_of, modifying, querying, start_query, start_update, start_write, writing, Decoder,
    Reply, Rule, Step, Update, Updates,
};
use crate::registers::{
    lemma_frequency_code, BitFlags, Error, OutputFrequency, Register, DEVICE_ADDRESS,
};

verus! {

/// PCF85063 driver.
#[derive(Debug, Default)]
pub struct PCF85063<I2C> {
    /// The concrete I2C device implementation.
    i2c: I2C,
}

impl<I2C> PCF85063<I2C> {
    /// The transport handle that the driver owns.
    pub closed spec fn transport(self) -> I2C {
        self.i2c
    }

    /// Create a new instance of the driver, which owns the transport handle
    /// from now on.
    pub fn new(i2c: I2C) -> (driver: Self)
        ensures
            driver.transport() == i2c,
    {
        PCF85063 { i2c }
    }

    /// Destroy the driver instance and return the transport handle.
    pub fn destroy(self) -> (i2c: I2C)
        ensures
            i2c == self.transport(),
    {
        self.i2c
    }

    /// Lend the transport handle, to perform the transaction of a step.
    pub fn bus(&mut self) -> (i2c: &mut I2C)
        ensures
            *i2c == old(self).transport(),
            final(self).transport() == *final(i2c),
    {
        &mut self.i2c
    }

    /// Reset the chip: set the software-reset bit of `CONTROL_1`.
    pub fn reset<E>(&self) -> (step: Step<E>)
        ensures
            step == modifying::<E>(Register::CONTROL_1, Rule::SetBits(BitFlags::SR)),
            step.in_order(),
    {
        self.set_register_bit_flag(Register::CONTROL_1, BitFlags::SR)
    }

    /// Write to a register: one write of the address and the value.
    pub fn write_register<E>(&self, register: u8, data: u8) -> (step: Step<E>)
        ensures
            step == writing::<E>(Payload::Register([register, data])),
            step.in_order(),
    {
        start_write(Payload::Register([register, data]))
    }

    /// Read from a register. The result is `Reply::Byte` with its content.
    pub fn read_register<E>(&self, register: u8) -> (step: Step<E>)
        ensures
            step == querying::<E>(register, Decoder::Byte),
            step.in_order(),
    {
        start_query(register, Decoder::Byte)
    }

    /// Check whether any bit under the mask is set in a register. The result
    /// is a `Reply::Flag`.
    pub fn is_register_bit_flag_high<E>(&self, address: u8, bitmask: u8) -> (step: Step<E>)
        ensures
            step == querying::<E>(address, Decoder::AnySet(bitmask)),
            step.in_order(),
    {
        start_query(address, Decoder::AnySet(bitmask))
    }

    /// Set the bits under the mask in a register: read it, and write it back
    /// with the bits set unless all of them are set already.
    pub fn set_register_bit_flag<E>(&self, address: u8, bitmask: u8) -> (step: Step<E>)
        ensures
            step == modifying::<E>(address, Rule::SetBits(bitmask)),
            step.in_order(),
    {
        start_update(address, Rule::SetBits(bitmask))
    }

    /// Clear the bits under the mask in a register: read it, and write it
    /// back with the bits cleared unless all of them are clear already.
    pub fn clear_register_bit_flag<E>(&self, address: u8, bitmask: u8) -> (step: Step<E>)
        ensures
            step == modifying::<E>(address, Rule::ClearBits(bitmask)),
            step.in_order(),
    {
        start_update(address, Rule::ClearBits(bitmask))
    }

    /// Read the scratch byte that the chip keeps for its user.
    pub fn read_ram_byte<E>(&self) -> (step: Step<E>)
        ensures
            step == querying::<E>(Register::RAM_BYTE, Decoder::Byte),
            step.in_order(),
    {
        self.read_register(Register::RAM_BYTE)
    }

    /// Write the scratch byte.
    pub fn write_ram_byte<E>(&self, byte: u8) -> (step: Step<E>)
        ensures
            step == writing::<E>(Payload::Register([Register::RAM_BYTE, byte])),
            step.in_order(),
    {
        self.write_register(Register::RAM_BYTE, byte)
    }

    /// Stop the clock: set the stop bit of `CONTROL_1`.
    pub fn stop_clock<E>(&self) -> (step: Step<E>)
        ensures
            step == modifying::<E>(Register::CONTROL_1, Rule::SetBits(BitFlags::STOP)),
            step.in_order(),
    {
        self.set_register_bit_flag(Register::CONTROL_1, BitFlags::STOP)
    }

    /// Start the clock: clear the stop bit of `CONTROL_1`.
    pub fn start_clock<E>(&self) -> (step: Step<E>)
        ensures
            step == modifying::<E>(Register::CONTROL_1, Rule::ClearBits(BitFlags::STOP)),
            step.in_order(),
    {
        self.clear_register_bit_flag(Register::CONTROL_1, BitFlags::STOP)
    }

    /// Read the frequency of the clock output from `CONTROL_2`. The result is
    /// a `Reply::Frequency`.
    pub fn read_clock_output_frequency<E>(&self) -> (step: Step<E>)
        ensures
            step == querying::<E>(Register::CONTROL_2, Decoder::Frequency),
            step.in_order(),
    {
        start_query(Register::CONTROL_2, Decoder::Frequency)
    }

    /// Select the frequency of the clock output: read `CONTROL_2` and write
    /// it back with the three bits of the frequency field replaced and the
    /// other bits as they were.
    pub fn write_clock_output_frequency<E>(&self, freq: OutputFrequency) -> (step: Step<E>)
        ensures
            step == modifying::<E>(
                Register::CONTROL_2,
                Rule::ReplaceField { mask: BitFlags::COF, bits: freq.code() },
            ),
            step.in_order(),
    {
        start_update(
            Register::CONTROL_2,
            Rule::ReplaceField { mask: BitFlags::COF, bits: freq.bits() },
        )
    }
}

/// The transactions of setting the bits under a mask. The register is read.
/// A failed read ends the operation with the transport's error, and no write
/// is asked for. Where all bits under the mask are set already the operation
/// is over without a write. Else the byte is written back with the bits set,
/// and the outcome of that write is the outcome of the operation.
pub proof fn lemma_set_flag_steps<E>(address: u8, bitmask: u8, data: [u8; 7], error: E)
    ensures
        ({
            let step = modifying::<E>(address, Rule::SetBits(bitmask));
            &&& step matches Step::Read(request, pending)
            &&& request == ReadRequest::of(address, 1)
            &&& pending.after_read(Err::<[u8; 7], E>(error)) == Step::Finished(
                Err(Error::I2C(error)),
            )
            &&& data@[0] & bitmask == bitmask ==> pending.after_read(Ok::<[u8; 7], E>(data))
                == Step::<E>::Finished(Ok(Reply::Applied))
            &&& data@[0] & bitmask != bitmask ==> {
                &&& pending.after_read(Ok::<[u8; 7], E>(data)) matches Step::Write(request, rest)
                &&& request.device == DEVICE_ADDRESS
                &&& request.payload@ == seq![address, data@[0] | bitmask]
                &&& rest.after_write(Ok::<(), E>(())) == Step::<E>::Finished(Ok(Reply::Applied))
                &&& rest.after_write(Err::<(), E>(error)) == Step::Finished(
                    Err(Error::I2C(error)),
                )
            }
        }),
{
    let updates = Updates::one(Update { register: address, rule: Rule::SetBits(bitmask) });
    assert(updates@ =~= seq![Update { register: address, rule: Rule::SetBits(bitmask) }]);
    lemma_advanced(updates);
    let payload = Payload::Register([address, data@[0] | bitmask]);
    assert(payload@ =~= seq![address, data@[0] | bitmask]);
}

/// The transactions of clearing the bits under a mask. The register is read.
/// A failed read ends the operation with the transport's error, and no write
/// is asked for. Where all bits under the mask are clear already the
/// operation is over without a write. Else the byte is written back with the
/// bits cleared, and the outcome of that write is the outcome of the
/// operation.
pub proof fn lemma_clear_flag_steps<E>(address: u8, bitmask: u8, data: [u8; 7], error: E)
    ensures
        ({
            let step = modifying::<E>(address, Rule::ClearBits(bitmask));
            &&& step matches Step::Read(request, pending)
            &&& request == ReadRequest::of(address, 1)
            &&& pending.after_read(Err::<[u8; 7], E>(error)) == Step::Finished(
                Err(Error::I2C(error)),
            )
            &&& data@[0] & bitmask == 0 ==> pending.after_read(Ok::<[u8; 7], E>(data))
                == Step::<E>::Finished(Ok(Reply::Applied))
            &&& data@[0] & bitmask != 0 ==> {
                &&& pending.after_read(Ok::<[u8; 7], E>(data)) matches Step::Write(request, rest)
                &&& request.device == DEVICE_ADDRESS
                &&& request.payload@ == seq![address, data@[0] & !bitmask]
                &&& rest.after_write(Ok::<(), E>(())) == Step::<E>::Finished(Ok(Reply::Applied))
                &&& rest.after_write(Err::<(), E>(error)) == Step::Finished(
                    Err(Error::I2C(error)),
                )
            }
        }),
{
    let updates = Updates::one(Update { register: address, rule: Rule::ClearBits(bitmask) });
    assert(updates@ =~= seq![Update { register: address, rule: Rule::ClearBits(bitmask) }]);
    lemma_advanced(updates);
    let payload = Payload::Register([address, data@[0] & !bitmask]);
    assert(payload@ =~= seq![address, data@[0] & !bitmask]);
}

/// After the bits under a mask were set in a register, the register holds its
/// old byte with these bits set, and the test for the mask says `true` unless
/// the mask is empty. After they were cleared, it holds its old byte without
/// them, and the test says `false`. No other register changes.
pub proof fn lemma_flag_then_test<E>(address: u8, bitmask: u8, registers: Seq<u8>)
    requires
        address < registers.len(),
    ensures
        ({
            let (result, after) = settle(
                modifying::<E>(address, Rule::SetBits(bitmask)),
                registers,
            );
            &&& result == Ok::<Reply, Error<E>>(Reply::Applied)
            &&& after == registers.update(address as int, registers[address as int] | bitmask)
            &&& settle(querying::<E>(address, Decoder::AnySet(bitmask)), after) == (
                Ok::<Reply, Error<E>>(Reply::Flag(bitmask != 0)),
                after,
            )
        }),
        ({
            let (result, after) = settle(
                modifying::<E>(address, Rule::ClearBits(bitmask)),
                registers,
            );
            &&& result == Ok::<Reply, Error<E>>(Reply::Applied)
            &&& after == registers.update(address as int, registers[address as int] & !bitmask)
            &&& settle(querying::<E>(address, Decoder::AnySet(bitmask)), after) == (
                Ok::<Reply, Error<E>>(Reply::Flag(false)),
                after,
            )
        }),
{
    let current = registers[address as int];
    lemma_settle_update::<E>(address, Rule::SetBits(bitmask), registers);
    lemma_settle_update::<E>(address, Rule::ClearBits(bitmask), registers);
    let set = registers.update(address as int, current | bitmask);
    let cleared = registers.update(address as int, current & !bitmask);
    lemma_settle_query::<E>(address, Decoder::AnySet(bitmask), set);
    lemma_settle_query::<E>(address, Decoder::AnySet(bitmask), cleared);
    assert(chip_read(set, byte_of(address))@[0] == current | bitmask);
    assert(chip_read(cleared, byte_of(address))@[0] == current & !bitmask);
    assert(((current | bitmask) & bitmask != 0) == (bitmask != 0) && (current & !bitmask)
        & bitmask == 0) by (bit_vector);
}

/// After a frequency was selected for the clock output, reading the frequency
/// gives it back. The bits of `CONTROL_2` outside the frequency field and all
/// other registers stay as they were.
pub proof fn lemma_frequency_read_back<E>(frequency: OutputFrequency, registers: Seq<u8>)
    requires
        is_register_file(registers),
    ensures
        ({
            let control = Register::CONTROL_2 as int;
            let (result, after) = settle(
                modifying::<E>(
                    Register::CONTROL_2,
                    Rule::ReplaceField { mask: BitFlags::COF, bits: frequency.code() },
                ),
                registers,
            );
            &&& result == Ok::<Reply, Error<E>>(Reply::Applied)
            &&& after == registers.update(control, after[control])
            &&& after[control] & BitFlags::COF == frequency.code()
            &&& after[control] & !BitFlags::COF == registers[control] & !BitFlags::COF
            &&& settle(querying::<E>(Register::CONTROL_2, Decoder::Frequency), after) == (
                Ok::<Reply, Error<E>>(Reply::Frequency(frequency)),
                after,
            )
        }),
{
    let current = registers[Register::CONTROL_2 as int];
    let code = frequency.code();
    let rule = Rule::ReplaceField { mask: BitFlags::COF, bits: code };
    let stored = rule.result(current);
    let after = registers.update(Register::CONTROL_2 as int, stored);
    lemma_settle_update::<E>(Register::CONTROL_2, rule, registers);
    assert(after =~= registers.update(Register::CONTROL_2 as int, after[Register::CONTROL_2 as int]));
    assert(code <= 7 ==> ((current & !0b111u8) | code) & 0b111 == code && ((current & !0b111u8)
        | code) & !0b111u8 == current & !0b111u8 && ((current & !0b111u8) | code) % 8 == code)
        by (bit_vector);
    lemma_settle_query::<E>(Register::CONTROL_2, Decoder::Frequency, after);
    assert(chip_read(after, byte_of(Register::CONTROL_2))@[0] == stored);
    lemma_frequency_code(frequency);
}

/// After the scratch byte was written, reading it gives it back, and no other
/// register has changed.
pub proof fn lemma_ram_byte_read_back<E>(byte: u8, registers: Seq<u8>)
    requires
        is_register_file(registers),
    ensures
        ({
            let (result, after) = settle(
                writing::<E>(Payload::Register([Register::RAM_BYTE, byte])),
                registers,
            );
            &&& result == Ok::<Reply, Error<E>>(Reply::Applied)
            &&& after == registers.update(Register::RAM_BYTE as int, byte)
            &&& settle(querying::<E>(Register::RAM_BYTE, Decoder::Byte), after) == (
                Ok::<Reply, Error<E>>(Reply::Byte(byte)),
                after,
            )
        }),
{
    let payload = Payload::Register([Register::RAM_BYTE, byte]);
    let after = chip_write(registers, payload@);
    lemma_settle_write::<E>(payload, registers);
    assert(after =~= registers.update(Register::RAM_BYTE as int, byte));
    lemma_settle_query::<E>(Register::RAM_BYTE, Decoder::Byte, after);
    assert(chip_read(after, byte_of(Register::RAM_BYTE))@[0] == byte);
}

} // verus!
