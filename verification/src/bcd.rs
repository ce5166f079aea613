//! The packed binary-coded-decimal format of the chip's time, date and alarm
//! registers.

use vstd::prelude::*;

verus! {

/// The number that a BCD byte stands for: ten times the digit held in bits
/// 4 to 6, plus the low nibble. Bit 7 takes no part, so a register that keeps
/// a flag there decodes as if the flag were clear.
pub open spec fn bcd_value(byte: u8) -> int {
    10 * ((byte as int / 16) % 8) + byte as int % 16
}

/// The BCD byte of a number: the tens in the high nibble, the units in the low
/// one. Numbers above 99 have no BCD byte; for them this is only the value of
/// the formula on eight bits.
pub open spec fn bcd_byte(value: u8) -> u8 {
    ((value / 10) << 4) | (value % 10)
}

/// A byte whose two nibbles are decimal digits and whose bit 7 is clear.
pub open spec fn is_bcd(byte: u8) -> bool {
    byte as int / 16 <= 7 && byte as int % 16 <= 9
}

/// Convert a BCD byte to the number it stands for. Only the lowest seven bits
/// are read.
pub fn decode_bcd(input: u8) -> (value: u8)
    ensures
        value as int == bcd_value(input),
        input < 0x80 ==> value as int == 10 * (input as int / 16) + input as int % 16,
        value <= 85,
{
    let digits: u8 = input & 0xf;
    let tens: u8 = (input >> 4) & 0x7;
    assert(input & 0xf == input % 16) by (bit_vector);
    assert((input >> 4) & 0x7 == (input / 16) % 8) by (bit_vector);
    10 * tens + digits
}

/// Convert a number to its BCD byte. The result is a BCD encoding only for
/// numbers up to 99; no range check is made here.
pub fn encode_bcd(input: u8) -> (byte: u8)
    ensures
        byte == bcd_byte(input),
        input <= 99 ==> byte as int == 16 * (input as int / 10) + input as int % 10,
{
    let digits: u8 = input % 10;
    let tens: u8 = input / 10;
    proof {
        lemma_bcd_byte_digits(input);
    }
    (tens << 4) | digits
}

/// Up to 99 the BCD byte is sixteen times the tens plus the units.
pub proof fn lemma_bcd_byte_digits(value: u8)
    ensures
        value <= 99 ==> bcd_byte(value) as int == 16 * (value as int / 10) + value as int % 10,
{
    assert(value <= 99 ==> ((value / 10) << 4) | (value % 10) == 16 * (value / 10) + value % 10)
        by (bit_vector);
}

/// Decoding undoes encoding for every number whose tens digit fits below
/// bit 7, that is up to 79.
pub proof fn lemma_decode_encode(value: u8)
    requires
        value <= 79,
    ensures
        bcd_value(bcd_byte(value)) == value,
        bcd_byte(value) < 0x80,
{
    lemma_bcd_byte_digits(value);
}

/// Encoding undoes decoding on every byte that is a BCD encoding.
pub proof fn lemma_encode_decode(byte: u8)
    requires
        is_bcd(byte),
    ensures
        0 <= bcd_value(byte) <= 79,
        bcd_byte(bcd_value(byte) as u8) == byte,
{
    let v = bcd_value(byte) as u8;
    lemma_bcd_byte_digits(v);
}

/// Bit 7 of a byte has no part in the number it stands for.
pub proof fn lemma_flag_bit_ignored(byte: u8)
    ensures
        bcd_value(byte & 0x7f) == bcd_value(byte),
        bcd_value(byte | 0x80) == bcd_value(byte),
{
    assert((byte & 0x7f) / 16 % 8 == byte / 16 % 8 && (byte & 0x7f) % 16 == byte % 16)
        by (bit_vector);
    assert((byte | 0x80) / 16 % 8 == byte / 16 % 8 && (byte | 0x80) % 16 == byte % 16)
        by (bit_vector);
}

} // verus!
