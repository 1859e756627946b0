use line_latency::text::count_digits;
use line_latency::text::decimal_string;
use line_latency::text::right_align;
use line_latency::time::Latency;
use line_latency::unit::duration_as_unit;
use line_latency::unit::latency_display_width;
use line_latency::unit::LatencyUnit;
use line_latency::unit::UnitError;

#[test]
fn conversion_to_seconds_cuts_off_the_fraction() {
    let duration = Latency::from_millis(1500);
    assert_eq!(duration_as_unit(duration, "s"), Ok(1));
    assert_eq!(duration_as_unit(Latency::from_millis(1999), "s"), Ok(1));
    assert_eq!(duration_as_unit(Latency::from_millis(2000), "s"), Ok(2));
    assert_eq!(duration_as_unit(Latency::from_millis(999), "s"), Ok(0));
}

#[test]
fn conversion_in_every_unit() {
    // 2 days, 3 hours, 4 minutes, 5 seconds and 6007008 nanoseconds
    let secs: u64 = 2 * 86_400 + 3 * 3_600 + 4 * 60 + 5;
    let duration = Latency::from_secs_nanos(secs, 6_007_008);
    assert_eq!(duration_as_unit(duration, "ns"), Ok(183_845_006_007_008));
    assert_eq!(duration_as_unit(duration, "us"), Ok(183_845_006_007));
    assert_eq!(duration_as_unit(duration, "ms"), Ok(183_845_006));
    assert_eq!(duration_as_unit(duration, "s"), Ok(183_845));
    assert_eq!(duration_as_unit(duration, "m"), Ok(3_064));
    assert_eq!(duration_as_unit(duration, "h"), Ok(51));
    assert_eq!(duration_as_unit(duration, "d"), Ok(2));
}

#[test]
fn conversion_of_nothing_is_zero() {
    let nothing = Latency::from_nanos(0);
    for unit in ["ns", "us", "ms", "s", "m", "h", "d"] {
        assert_eq!(duration_as_unit(nothing, unit), Ok(0));
    }
}

#[test]
fn conversion_just_below_a_unit() {
    assert_eq!(duration_as_unit(Latency::from_nanos(999), "us"), Ok(0));
    assert_eq!(duration_as_unit(Latency::from_nanos(1_000), "us"), Ok(1));
    assert_eq!(duration_as_unit(Latency::from_nanos(59_999_999_999), "m"), Ok(0));
    assert_eq!(duration_as_unit(Latency::from_nanos(60_000_000_000), "m"), Ok(1));
    assert_eq!(duration_as_unit(Latency::from_secs_nanos(3_599, 999_999_999), "h"), Ok(0));
    assert_eq!(duration_as_unit(Latency::from_secs_nanos(86_399, 999_999_999), "d"), Ok(0));
    assert_eq!(duration_as_unit(Latency::from_secs_nanos(86_400, 0), "d"), Ok(1));
}

#[test]
fn unknown_unit_is_refused() {
    let duration = Latency::from_millis(1500);
    assert_eq!(duration_as_unit(duration, "xyz"), Err(UnitError::UnknownUnit));
    assert_eq!(duration_as_unit(duration, ""), Err(UnitError::UnknownUnit));
    assert_eq!(duration_as_unit(duration, "S"), Err(UnitError::UnknownUnit));
    assert_eq!(duration_as_unit(duration, "sec"), Err(UnitError::UnknownUnit));
    assert_eq!(duration_as_unit(duration, "ss"), Err(UnitError::UnknownUnit));
    assert_eq!(duration_as_unit(duration, " s"), Err(UnitError::UnknownUnit));
    assert_eq!(duration_as_unit(duration, "µs"), Err(UnitError::UnknownUnit));
    assert_eq!(duration_as_unit(duration, "w"), Err(UnitError::UnknownUnit));
}

#[test]
fn two_hundred_thousand_days_in_nanoseconds_overflow() {
    let long = Latency::from_secs_nanos(200_000 * 86_400, 0);
    assert_eq!(duration_as_unit(long, "ns"), Err(UnitError::Overflow));
    assert_eq!(duration_as_unit(long, "us"), Ok(17_280_000_000_000_000));
    assert_eq!(duration_as_unit(long, "d"), Ok(200_000));
}

#[test]
fn count_beyond_the_limit_is_an_overflow() {
    let huge = Latency::from_secs_nanos(u64::MAX, 0);
    assert_eq!(duration_as_unit(huge, "ns"), Err(UnitError::Overflow));
    assert_eq!(duration_as_unit(huge, "us"), Err(UnitError::Overflow));
    assert_eq!(duration_as_unit(huge, "ms"), Err(UnitError::Overflow));
    assert_eq!(duration_as_unit(huge, "s"), Err(UnitError::Overflow));
    assert_eq!(duration_as_unit(huge, "m"), Ok(u64::MAX / 60));
}

#[test]
fn largest_count_that_is_given_out() {
    let limit = i64::MAX as u64;
    let secs = limit / 1_000_000_000;
    let nanos = (limit % 1_000_000_000) as u32;
    let fits = Latency::from_secs_nanos(secs, nanos);
    assert_eq!(duration_as_unit(fits, "ns"), Ok(limit));
    let too_long = Latency::from_secs_nanos(secs, nanos + 1);
    assert_eq!(duration_as_unit(too_long, "ns"), Err(UnitError::Overflow));
    assert_eq!(duration_as_unit(too_long, "us"), Ok(limit / 1_000));
}

#[test]
fn largest_count_of_seconds_that_is_given_out() {
    let limit = i64::MAX as u64;
    assert_eq!(duration_as_unit(Latency::from_secs_nanos(limit, 999_999_999), "s"), Ok(limit));
    assert_eq!(
        duration_as_unit(Latency::from_secs_nanos(limit + 1, 0), "s"),
        Err(UnitError::Overflow)
    );
}

#[test]
fn unknown_unit_comes_before_overflow() {
    let huge = Latency::from_secs_nanos(u64::MAX, 0);
    assert_eq!(duration_as_unit(huge, "nanos"), Err(UnitError::UnknownUnit));
    assert_eq!(latency_display_width(huge, "nanos"), Err(UnitError::UnknownUnit));
}

#[test]
fn the_seven_symbols_parse() {
    assert_eq!(LatencyUnit::parse("ns"), Some(LatencyUnit::Nanoseconds));
    assert_eq!(LatencyUnit::parse("us"), Some(LatencyUnit::Microseconds));
    assert_eq!(LatencyUnit::parse("ms"), Some(LatencyUnit::Milliseconds));
    assert_eq!(LatencyUnit::parse("s"), Some(LatencyUnit::Seconds));
    assert_eq!(LatencyUnit::parse("m"), Some(LatencyUnit::Minutes));
    assert_eq!(LatencyUnit::parse("h"), Some(LatencyUnit::Hours));
    assert_eq!(LatencyUnit::parse("d"), Some(LatencyUnit::Days));
    assert_eq!(LatencyUnit::parse("xyz"), None);
    assert_eq!(LatencyUnit::parse("n"), None);
    assert_eq!(LatencyUnit::parse("hs"), None);
}

#[test]
fn symbol_and_parse_are_inverse() {
    let units = [
        LatencyUnit::Nanoseconds,
        LatencyUnit::Microseconds,
        LatencyUnit::Milliseconds,
        LatencyUnit::Seconds,
        LatencyUnit::Minutes,
        LatencyUnit::Hours,
        LatencyUnit::Days,
    ];
    let symbols = ["ns", "us", "ms", "s", "m", "h", "d"];
    for (unit, symbol) in units.iter().zip(symbols.iter()) {
        assert_eq!(unit.symbol(), *symbol);
        assert_eq!(LatencyUnit::parse(unit.symbol()), Some(*unit));
    }
}

#[test]
fn count_by_unit_value() {
    let duration = Latency::from_millis(1500);
    assert_eq!(LatencyUnit::Seconds.count(duration), Ok(1));
    assert_eq!(LatencyUnit::Milliseconds.count(duration), Ok(1500));
    assert_eq!(LatencyUnit::Nanoseconds.count(duration), Ok(1_500_000_000));
    assert_eq!(LatencyUnit::Minutes.count(duration), Ok(0));
}

#[test]
fn width_is_the_number_of_digits() {
    assert_eq!(latency_display_width(Latency::from_millis(2000), "ms"), Ok(4));
    assert_eq!(latency_display_width(Latency::from_millis(999), "ms"), Ok(3));
    assert_eq!(latency_display_width(Latency::from_millis(1000), "ms"), Ok(4));
    assert_eq!(latency_display_width(Latency::from_millis(9), "ms"), Ok(1));
    assert_eq!(latency_display_width(Latency::from_millis(10), "ms"), Ok(2));
    assert_eq!(latency_display_width(Latency::from_millis(1), "ns"), Ok(7));
    assert_eq!(latency_display_width(Latency::from_millis(2000), "s"), Ok(1));
}

#[test]
fn width_of_a_zero_count_is_one() {
    assert_eq!(latency_display_width(Latency::from_millis(1), "s"), Ok(1));
    assert_eq!(latency_display_width(Latency::from_millis(1), "d"), Ok(1));
    assert_eq!(latency_display_width(Latency::from_nanos(0), "ms"), Ok(1));
    assert_eq!(LatencyUnit::Hours.display_width(Latency::from_millis(1)), Ok(1));
}

#[test]
fn width_of_an_overflowing_count() {
    let huge = Latency::from_secs_nanos(u64::MAX, 0);
    assert_eq!(latency_display_width(huge, "ns"), Err(UnitError::Overflow));
    assert_eq!(latency_display_width(huge, "s"), Err(UnitError::Overflow));
    assert_eq!(latency_display_width(huge, "m"), Ok(18));
    assert_eq!(latency_display_width(huge, "xyz"), Err(UnitError::UnknownUnit));
    let limit = Latency::from_secs_nanos(i64::MAX as u64, 0);
    assert_eq!(latency_display_width(limit, "s"), Ok(19));
    let days = Latency::from_secs_nanos(200_000 * 86_400, 0);
    assert_eq!(latency_display_width(days, "ns"), Err(UnitError::Overflow));
    assert_eq!(latency_display_width(days, "us"), Ok(17));
}

#[test]
fn digits_of_numbers() {
    assert_eq!(count_digits(0), 1);
    assert_eq!(count_digits(9), 1);
    assert_eq!(count_digits(10), 2);
    assert_eq!(count_digits(99), 2);
    assert_eq!(count_digits(100), 3);
    assert_eq!(count_digits(u64::MAX), 20);
}

#[test]
fn numerals_of_numbers() {
    assert_eq!(decimal_string(0), "0");
    assert_eq!(decimal_string(7), "7");
    assert_eq!(decimal_string(10), "10");
    assert_eq!(decimal_string(255), "255");
    assert_eq!(decimal_string(1_234_567_890), "1234567890");
    assert_eq!(decimal_string(u64::MAX), "18446744073709551615");
    for n in [0u64, 1, 9, 10, 11, 99, 100, 101, 65_535, 1_000_000] {
        assert_eq!(decimal_string(n), n.to_string());
        assert_eq!(count_digits(n), n.to_string().len());
    }
}

#[test]
fn right_alignment_pads_on_the_left() {
    assert_eq!(right_align("2", 4), "   2");
    assert_eq!(right_align("2000", 4), "2000");
    assert_eq!(right_align("", 2), "  ");
    assert_eq!(right_align("7", 1), "7");
    assert_eq!(right_align("7", 0), "7");
}

#[test]
fn right_alignment_keeps_a_text_that_is_too_long() {
    assert_eq!(right_align("12345", 3), "12345");
}

#[test]
fn right_alignment_counts_characters() {
    assert_eq!(right_align("é", 3), "  é");
    assert_eq!(right_align("日本", 3), " 日本");
}
