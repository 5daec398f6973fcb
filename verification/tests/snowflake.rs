use multibooru::snowflake::order::is_later;
use multibooru::snowflake::{i64_to_u64, u64_to_i64, ClockError, Snowflake};
use std::time::Duration;

/// Wait for a millisecond to begin: an identifier keeps whole milliseconds,
/// so one minted late in a millisecond looks older than it is.
fn wait_for_a_fresh_millisecond() {
    loop {
        let now = std::time::SystemTime::now()
            .duration_since(std::time::UNIX_EPOCH)
            .unwrap();
        if now.subsec_nanos() % 1_000_000 < 100_000 {
            return;
        }
    }
}

#[test]
fn date_is_now() {
    wait_for_a_fresh_millisecond();
    let sn = Snowflake::new(0).expect("the clock is past the epoch");
    assert!(sn.as_time().elapsed().unwrap() < Duration::from_millis(1))
}

#[test]
fn date_preserved_over_low_bits() {
    let sn = Snowflake::new(0).expect("the clock is past the epoch");
    let new_sn = sn.clone().with_low_bits(u16::MAX);
    assert_eq!(sn.as_time(), new_sn.as_time());
}

#[test]
fn parts_are_packed_high_and_low() {
    let sn = Snowflake::from_parts(1, 2).unwrap();
    assert_eq!(sn.value(), 65538);
    assert_eq!(sn.timestamp_millis(), 1);
    assert_eq!(sn.low_bits(), 2);
    let sn = Snowflake::from_parts(1_700_000_000_000, 0xbeef).unwrap();
    assert_eq!(sn.value(), 1_700_000_000_000i64 * 65536 + 0xbeef);
    assert_eq!(sn.timestamp_millis(), 1_700_000_000_000);
    assert_eq!(sn.low_bits(), 0xbeef);
}

#[test]
fn timestamp_past_48_bits_is_refused() {
    assert_eq!(
        Snowflake::from_parts(1u128 << 48, 0),
        Err(ClockError::TooFarInFuture)
    );
    assert!(Snowflake::from_parts((1u128 << 48) - 1, 0).is_ok());
    assert_eq!(
        Snowflake::from_parts(u128::MAX, 7),
        Err(ClockError::TooFarInFuture)
    );
}

#[test]
fn later_identifier_is_greater_whatever_the_discriminators() {
    let earlier = Snowflake::from_parts(1000, u16::MAX).unwrap();
    let later = Snowflake::from_parts(1001, 0).unwrap();
    assert!(later > earlier);
    assert!(later.value() > earlier.value());
}

#[test]
fn order_breaks_only_across_the_sign() {
    let below = Snowflake::from_parts((1u128 << 47) - 1, 0).unwrap();
    let above = Snowflake::from_parts(1u128 << 47, 0).unwrap();
    assert!(below.value() >= 0);
    assert!(above.value() < 0);
    assert!(above < below);
    let further = Snowflake::from_parts((1u128 << 47) + 1, 0).unwrap();
    assert!(further > above);
}

#[test]
fn low_bits_are_replaced_whole() {
    let sn = Snowflake::from_parts(123_456, 0xffff).unwrap();
    let replaced = sn.with_low_bits(0);
    assert_eq!(replaced.low_bits(), 0);
    assert_eq!(replaced.timestamp_millis(), 123_456);
    assert_eq!(replaced.value(), 123_456 * 65536);
    let again = replaced.with_low_bits(0x1234);
    assert_eq!(again.low_bits(), 0x1234);
    assert_eq!(again.timestamp_millis(), 123_456);
    assert_eq!(again.as_time(), sn.as_time());
}

#[test]
fn low_bits_of_a_negative_identifier() {
    let sn = Snowflake::from_value(-1);
    assert_eq!(sn.low_bits(), 0xffff);
    assert_eq!(sn.timestamp_millis(), (1u64 << 48) - 1);
    let replaced = sn.with_low_bits(1);
    assert_eq!(replaced.timestamp_millis(), (1u64 << 48) - 1);
    assert_eq!(replaced.value(), -65535);
}

#[test]
fn bits_are_copied_both_ways() {
    assert_eq!(u64_to_i64(0), 0);
    assert_eq!(u64_to_i64(u64::MAX), -1);
    assert_eq!(u64_to_i64(1u64 << 63), i64::MIN);
    assert_eq!(i64_to_u64(-1), u64::MAX);
    assert_eq!(i64_to_u64(i64::MIN), 1u64 << 63);
    assert_eq!(i64_to_u64(u64_to_i64(0xdead_beef_dead_beef)), 0xdead_beef_dead_beef);
}

#[test]
fn time_is_the_timestamp_after_the_epoch() {
    let sn = Snowflake::from_parts(86_400_000, 5).unwrap();
    assert_eq!(
        sn.as_time(),
        std::time::UNIX_EPOCH + Duration::from_millis(86_400_000)
    );
}

#[test]
fn stored_value_comes_back() {
    assert_eq!(Snowflake::from_value(42).value(), 42);
    assert_eq!(Snowflake::default().value(), 0);
}

#[test]
fn identifier_is_written_in_decimal() {
    assert_eq!(Snowflake::from_value(0).to_string(), "0");
    assert_eq!(Snowflake::from_value(65538).to_string(), "65538");
    assert_eq!(Snowflake::from_value(-17).to_string(), "-17");
    assert_eq!(
        Snowflake::from_value(i64::MIN).to_string(),
        "-9223372036854775808"
    );
    assert_eq!(
        Snowflake::from_value(i64::MAX).to_string(),
        "9223372036854775807"
    );
}

#[test]
fn identifier_is_read_from_decimal() {
    assert_eq!(Snowflake::parse("65538"), Ok(Snowflake::from_value(65538)));
    assert_eq!("-5".parse::<Snowflake>(), Ok(Snowflake::from_value(-5)));
    assert!(Snowflake::parse("12x").is_err());
    assert!(Snowflake::parse("").is_err());
    assert!(Snowflake::parse("9223372036854775808").is_err());
}

#[test]
fn identifier_converts_to_and_from_its_number() {
    let sn: Snowflake = 77i64.into();
    assert_eq!(sn, Snowflake::from_value(77));
    let back: i64 = sn.into();
    assert_eq!(back, 77);
}

#[test]
fn identifiers_compare_as_their_numbers() {
    let early = Snowflake::from_parts(5, 9).unwrap();
    let late = Snowflake::from_parts(6, 0).unwrap();
    assert!(is_later(late, early));
    assert!(!is_later(early, late));
    assert!(!is_later(early, early));
    assert_eq!(early.partial_cmp(&late), Some(std::cmp::Ordering::Less));
    assert_eq!(late.cmp(&early), std::cmp::Ordering::Greater);
    assert_eq!(early.cmp(&early), std::cmp::Ordering::Equal);
    assert!(early <= early);
    let mut many = vec![late, early, Snowflake::from_value(-1)];
    many.sort();
    assert_eq!(many, vec![Snowflake::from_value(-1), early, late]);
}

#[test]
fn clock_readings_become_identifiers_or_reasons() {
    assert_eq!(Snowflake::from_clock(None, 3), Err(ClockError::BeforeEpoch));
    assert_eq!(
        Snowflake::from_clock(Some(1u128 << 48), 3),
        Err(ClockError::TooFarInFuture)
    );
    let made = Snowflake::from_clock(Some(1_000), 3).unwrap();
    assert_eq!(made.value(), 1_000 * 65536 + 3);
    assert_eq!(made, Snowflake::from_parts(1_000, 3).unwrap());
    let last = Snowflake::from_clock(Some((1u128 << 48) - 1), u16::MAX).unwrap();
    assert_eq!(last.value(), -1);
}

#[test]
fn from_str_reads_what_parse_reads() {
    use_from_str("0", Some(0));
    use_from_str("-9223372036854775808", Some(i64::MIN));
    use_from_str("+7", Some(7));
    use_from_str("7.0", None);
    use_from_str(" 7", None);
}

fn use_from_str(text: &str, expected: Option<i64>) {
    let read = <Snowflake as std::str::FromStr>::from_str(text);
    assert_eq!(read.ok().map(Snowflake::value), expected);
    assert_eq!(Snowflake::parse(text).ok().map(Snowflake::value), expected);
}

#[test]
fn decimal_texts_are_read_as_the_standard_library_reads_them() {
    let mut texts: Vec<String> = vec![
        "", "+", "-", "0", "-0", "+0", "00", "-007", "+42", "--1", "+-1", "-+1", "1-", "1 ",
        " 1", "1_000", "0x10", "1e3", "1.0", "\u{663}", "٣٤", "9223372036854775807",
        "9223372036854775808", "-9223372036854775808", "-9223372036854775809",
        "+9223372036854775807", "+9223372036854775808", "00000000000000000000000000001",
        "-00000000000000000000000009223372036854775808", "99999999999999999999999999999999999",
        "-99999999999999999999999999999999999999999999", "12a", "a12", "1\u{0}",
    ]
    .into_iter()
    .map(String::from)
    .collect();
    for number in [0i64, 1, -1, 9, 10, 99, 100, i64::MAX, i64::MIN, i64::MAX - 1, i64::MIN + 1] {
        texts.push(number.to_string());
        texts.push(format!("+{number}"));
        texts.push(format!("{number}0"));
        texts.push(format!("0{number}"));
    }
    let mut state: u64 = 0x9e37_79b9_7f4a_7c15;
    for _ in 0..2_000 {
        state ^= state << 13;
        state ^= state >> 7;
        state ^= state << 17;
        texts.push((state as i64).to_string());
        texts.push(format!("{}", state as i128 * 3 - (1i128 << 64)));
    }
    for text in texts {
        assert_eq!(
            Snowflake::parse(&text).ok().map(Snowflake::value),
            text.parse::<i64>().ok(),
            "{text:?}"
        );
    }
}
