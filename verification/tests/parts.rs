use pcf85063::operation::{
    start_query, start_update, start_updates, start_write, Decoder, Rule, Update, Updates,
};
use pcf85063::{
    AlarmField, DateTime, Error, Payload, ReadPending, ReadRequest, Reply, Step, Time,
    WritePending,
};

#[test]
fn rule_set_bits() {
    assert_eq!(Some(0b0111), Rule::SetBits(0b0110).apply(0b0011));
    assert_eq!(Some(0b0111), Rule::SetBits(0b0110).apply(0b0001));
    assert_eq!(None, Rule::SetBits(0b0110).apply(0b0111));
    assert_eq!(None, Rule::SetBits(0).apply(0b0111));
}

#[test]
fn rule_clear_bits() {
    assert_eq!(Some(0b0001), Rule::ClearBits(0b0110).apply(0b0011));
    assert_eq!(Some(0b1001), Rule::ClearBits(0b0110).apply(0b1111));
    assert_eq!(None, Rule::ClearBits(0b0110).apply(0b1001));
    assert_eq!(None, Rule::ClearBits(0).apply(0xFF));
}

#[test]
fn rule_replace_field_always_writes() {
    let rule = Rule::ReplaceField { mask: 0b0000_0111, bits: 0b010 };
    assert_eq!(Some(0b1111_1010), rule.apply(0b1111_1111));
    assert_eq!(Some(0b0000_0010), rule.apply(0b0000_0000));
    assert_eq!(Some(0b1010_1010), rule.apply(0b1010_1010));
    let rule = Rule::ReplaceField { mask: 0x7F, bits: 0x23 };
    assert_eq!(Some(0xA3), rule.apply(0xC5));
    assert_eq!(Some(0x23), rule.apply(0x45));
}

#[test]
fn updates_are_taken_in_their_order() {
    let a = Update { register: 1, rule: Rule::SetBits(1) };
    let b = Update { register: 2, rule: Rule::ClearBits(2) };
    let c = Update { register: 3, rule: Rule::SetBits(4) };
    let d = Update { register: 4, rule: Rule::SetBits(8) };
    let e = Update { register: 5, rule: Rule::SetBits(16) };

    assert_eq!(None, Updates::empty().first());
    assert_eq!(None, Updates::empty().advance().first());

    let one = Updates::single(a);
    assert_eq!(Some(a), one.first());
    assert_eq!(None, one.advance().first());

    let three = Updates::triple(a, b, c);
    assert_eq!(Some(a), three.first());
    assert_eq!(Some(b), three.advance().first());
    assert_eq!(Some(c), three.advance().advance().first());
    assert_eq!(None, three.advance().advance().advance().first());

    let five = Updates::quintuple(a, b, c, d, e);
    let mut rest = five;
    for expected in [a, b, c, d, e] {
        assert_eq!(Some(expected), rest.first());
        rest = rest.advance();
    }
    assert_eq!(None, rest.first());
}

#[test]
fn updates_out_of_shape_hold_nothing() {
    let a = Update { register: 1, rule: Rule::SetBits(1) };
    let odd = Updates { items: [a; 5], next: 0, len: 6 };
    assert_eq!(None, odd.first());
    let odd = Updates { items: [a; 5], next: 3, len: 2 };
    assert_eq!(None, odd.first());
    assert_eq!(None, odd.advance().first());
}

#[test]
fn decoder_lengths() {
    assert_eq!(1, Decoder::Byte.len());
    assert_eq!(1, Decoder::Bcd.len());
    assert_eq!(1, Decoder::AnySet(0x80).len());
    assert_eq!(1, Decoder::NoneSet(0x80).len());
    assert_eq!(1, Decoder::Frequency.len());
    assert_eq!(3, Decoder::Time.len());
    assert_eq!(7, Decoder::DateTime.len());
}

#[test]
fn decoders_read_the_first_byte() {
    let data = [0xA3, 0xFF, 0xFF, 0xFF, 0xFF, 0xFF, 0xFF];
    assert!(matches!(Decoder::Byte.decode::<()>(&data), Ok(Reply::Byte(0xA3))));
    assert!(matches!(Decoder::Bcd.decode::<()>(&data), Ok(Reply::Byte(23))));
    assert!(matches!(Decoder::AnySet(0x80).decode::<()>(&data), Ok(Reply::Flag(true))));
    assert!(matches!(Decoder::AnySet(0x40).decode::<()>(&data), Ok(Reply::Flag(false))));
    assert!(matches!(Decoder::NoneSet(0x80).decode::<()>(&data), Ok(Reply::Flag(false))));
    assert!(matches!(Decoder::NoneSet(0x5C).decode::<()>(&data), Ok(Reply::Flag(true))));
}

#[test]
fn time_decoder_reads_three_bytes() {
    let data = [0xC5, 0x30, 0x12, 0xFF, 0xFF, 0xFF, 0xFF];
    let expected = Time { hours: 12, minutes: 30, seconds: 45 };
    assert!(matches!(Decoder::Time.decode::<()>(&data), Ok(Reply::Time(t)) if t == expected));
    assert_eq!(Some(expected), Time::from_registers(&data));
    let data = [0x45, 0x60, 0x12, 0, 0, 0, 0];
    assert!(matches!(Decoder::Time.decode::<()>(&data), Err(Error::ComponentRange)));
    assert_eq!(None, Time::from_registers(&data));
}

#[test]
fn datetime_registers_and_bursts() {
    let datetime =
        DateTime { year: 79, month: 12, weekday: 6, day: 31, hours: 23, minutes: 59, seconds: 58 };
    assert_eq!([0x04, 0x58, 0x59, 0x23, 0x31, 0x06, 0x12, 0x79], datetime.to_burst());
    assert_eq!(
        Some(datetime),
        DateTime::from_registers(&[0x58, 0x59, 0x23, 0x31, 0x06, 0x12, 0x79])
    );
    assert_eq!(None, DateTime::from_registers(&[0x58, 0x59, 0x23, 0x32, 0x06, 0x12, 0x79]));
    assert_eq!(None, DateTime::from_registers(&[0x58, 0x59, 0x23, 0x31, 0x06, 0x13, 0x79]));
    let time = Time { hours: 1, minutes: 2, seconds: 3 };
    assert_eq!([0x04, 0x03, 0x02, 0x01], time.to_burst());
}

#[test]
fn calendar_years() {
    let mut datetime = DateTime::default();
    assert_eq!(2000, datetime.full_year());
    datetime.year = 23;
    assert_eq!(2023, datetime.full_year());
    datetime.year = 99;
    assert_eq!(2099, datetime.full_year());
    assert_eq!(Some(0), DateTime::year_on_chip(2000));
    assert_eq!(Some(23), DateTime::year_on_chip(2023));
    assert_eq!(Some(99), DateTime::year_on_chip(2099));
    assert_eq!(None, DateTime::year_on_chip(1999));
    assert_eq!(None, DateTime::year_on_chip(2100));
    assert_eq!(None, DateTime::year_on_chip(2256));
    assert_eq!(None, DateTime::year_on_chip(i32::MIN));
    assert_eq!(None, DateTime::year_on_chip(i32::MAX));
}

#[test]
fn alarm_fields() {
    assert_eq!(0x0B, AlarmField::Second.register());
    assert_eq!(0x0C, AlarmField::Minute.register());
    assert_eq!(0x0D, AlarmField::Hour.register());
    assert_eq!(0x0E, AlarmField::Day.register());
    assert_eq!(0x0F, AlarmField::Weekday.register());
    assert!(AlarmField::Second.accepts(59) && !AlarmField::Second.accepts(60));
    assert!(AlarmField::Minute.accepts(59) && !AlarmField::Minute.accepts(60));
    assert!(AlarmField::Hour.accepts(23) && !AlarmField::Hour.accepts(24));
    assert!(AlarmField::Day.accepts(1) && AlarmField::Day.accepts(31));
    assert!(!AlarmField::Day.accepts(0) && !AlarmField::Day.accepts(32));
    assert!(AlarmField::Weekday.accepts(6) && !AlarmField::Weekday.accepts(7));
}

#[test]
fn a_query_is_one_read_and_ends_with_its_reply() {
    let first: Step<u8> = start_query(0x10, Decoder::Byte);
    let Step::Read(request, pending) = first else { panic!("no read") };
    assert_eq!(ReadRequest::new(0x10, 1), request);
    let next: Step<u8> = pending.resume(Ok([0x5A, 0, 0, 0, 0, 0, 0]));
    assert!(matches!(next, Step::Finished(Ok(Reply::Byte(0x5A)))));
    let next: Step<u8> = pending.resume(Err(9));
    assert!(matches!(next, Step::Finished(Err(Error::I2C(9)))));
}

#[test]
fn a_write_is_one_write_and_ends_applied() {
    let first: Step<u8> = start_write(Payload::Register([0x02, 0x11]));
    let Step::Write(request, pending) = first else { panic!("no write") };
    assert_eq!(&[0x02, 0x11], request.payload.as_slice());
    let next: Step<u8> = pending.resume(Ok(()));
    assert!(matches!(next, Step::Finished(Ok(Reply::Applied))));
    let next: Step<u8> = pending.resume(Err(9));
    assert!(matches!(next, Step::Finished(Err(Error::I2C(9)))));
}

#[test]
fn an_update_is_a_read_and_a_write_where_needed() {
    let first: Step<u8> = start_update(0x00, Rule::SetBits(0x20));
    let Step::Read(request, pending) = first else { panic!("no read") };
    assert_eq!(ReadRequest::new(0x00, 1), request);

    let next: Step<u8> = pending.resume(Ok([0x21, 0, 0, 0, 0, 0, 0]));
    assert!(matches!(next, Step::Finished(Ok(Reply::Applied))));

    let next: Step<u8> = pending.resume(Ok([0x01, 0, 0, 0, 0, 0, 0]));
    let Step::Write(request, rest) = next else { panic!("no write") };
    assert_eq!(&[0x00, 0x21], request.payload.as_slice());
    let last: Step<u8> = rest.resume(Ok(()));
    assert!(matches!(last, Step::Finished(Ok(Reply::Applied))));
}

#[test]
fn no_updates_are_no_transaction() {
    let first: Step<u8> = start_updates(Updates::empty());
    assert!(matches!(first, Step::Finished(Ok(Reply::Applied))));
    let pending = ReadPending::Update(Updates::empty());
    let next: Step<u8> = pending.resume(Ok([0; 7]));
    assert!(matches!(next, Step::Finished(Ok(Reply::Applied))));
    let pending = WritePending { rest: Updates::empty() };
    let next: Step<u8> = pending.resume(Ok(()));
    assert!(matches!(next, Step::Finished(Ok(Reply::Applied))));
}
