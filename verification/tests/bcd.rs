use pcf85063::{decode_bcd, encode_bcd};

#[test]
fn can_convert_decode_bcd() {
    assert_eq!(0, decode_bcd(0b0000_0000));
    assert_eq!(1, decode_bcd(0b0000_0001));
    assert_eq!(9, decode_bcd(0b0000_1001));
    assert_eq!(10, decode_bcd(0b0001_0000));
    assert_eq!(11, decode_bcd(0b0001_0001));
    assert_eq!(19, decode_bcd(0b0001_1001));
    assert_eq!(20, decode_bcd(0b0010_0000));
    assert_eq!(21, decode_bcd(0b0010_0001));
    assert_eq!(59, decode_bcd(0b0101_1001));
}

#[test]
fn can_convert_encode_bcd() {
    assert_eq!(0b0000_0000, encode_bcd(0));
    assert_eq!(0b0000_0001, encode_bcd(1));
    assert_eq!(0b0000_1001, encode_bcd(9));
    assert_eq!(0b0001_0000, encode_bcd(10));
    assert_eq!(0b0001_0001, encode_bcd(11));
    assert_eq!(0b0001_1001, encode_bcd(19));
    assert_eq!(0b0010_0000, encode_bcd(20));
    assert_eq!(0b0010_0001, encode_bcd(21));
    assert_eq!(0b0101_1001, encode_bcd(59));
}

#[test]
fn decode_undoes_encode_up_to_79() {
    for value in 0u8..=79 {
        assert_eq!(value, decode_bcd(encode_bcd(value)));
    }
}

#[test]
fn encode_undoes_decode_on_bcd_bytes() {
    for tens in 0u8..=7 {
        for units in 0u8..=9 {
            let byte = (tens << 4) | units;
            assert_eq!(byte, encode_bcd(decode_bcd(byte)));
        }
    }
}

#[test]
fn decode_matches_tens_and_units() {
    for byte in 0u8..0x80 {
        assert_eq!(10 * (byte >> 4) + (byte & 0x0f), decode_bcd(byte));
    }
}

#[test]
fn decode_ignores_bit_7() {
    for byte in 0u8..0x80 {
        assert_eq!(decode_bcd(byte), decode_bcd(byte | 0x80));
    }
    assert_eq!(23, decode_bcd(0xA3));
    assert_eq!(0, decode_bcd(0x80));
}

#[test]
fn decode_takes_nibbles_above_nine_as_they_are() {
    assert_eq!(15, decode_bcd(0x0F));
    assert_eq!(85, decode_bcd(0x7F));
    assert_eq!(85, decode_bcd(0xFF));
}

#[test]
fn encode_of_the_largest_values() {
    assert_eq!(0x79, encode_bcd(79));
    assert_eq!(0x80, encode_bcd(80));
    assert_eq!(0x99, encode_bcd(99));
}

#[test]
fn a_tens_digit_from_eight_on_is_lost_in_decoding() {
    assert_eq!(0, decode_bcd(encode_bcd(80)));
    assert_eq!(19, decode_bcd(encode_bcd(99)));
}

#[test]
fn encode_above_99_is_the_formula_on_eight_bits() {
    assert_eq!(0xA0, encode_bcd(100));
    assert_eq!(0x95, encode_bcd(255));
}
