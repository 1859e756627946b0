use line_latency::config::Config;
use line_latency::highlight::highlight;
use line_latency::lines::Arrival;
use line_latency::lines::LineSequence;
use line_latency::render::compose_line;
use line_latency::time::Latency;
use line_latency::time::Timestamp;
use line_latency::unit::UnitError;

const BASE: i64 = 1_431_648_000;

fn instant(secs: i64, nanos: u32) -> Timestamp {
    Timestamp::new(secs, nanos).unwrap()
}

fn line(text: &str, secs: i64, nanos: u32) -> Arrival {
    Arrival { decoded: Some(text.to_string()), at: instant(secs, nanos) }
}

fn garbage(secs: i64, nanos: u32) -> Arrival {
    Arrival { decoded: None, at: instant(secs, nanos) }
}

fn strings(texts: &[&str]) -> Vec<String> {
    texts.iter().map(|text| text.to_string()).collect()
}

#[test]
fn run_with_echo_writes_every_line_twice() {
    colored::control::set_override(false);
    let config = Config::new(false, false, Latency::from_millis(1), "s").unwrap();
    let stream = vec![line("a", BASE, 0), line("b", BASE + 2, 0)];
    let written = highlight(&config, instant(BASE, 0), &stream);
    assert_eq!(written.echoed, strings(&["a", "b"]));
    assert_eq!(written.rows, Ok(strings(&["   0s  a", "   2s  b"])));
}

#[test]
fn run_without_echo_writes_the_rows_only() {
    colored::control::set_override(false);
    let config = Config::new(false, true, Latency::from_millis(1), "s").unwrap();
    let stream = vec![line("a", BASE, 0), line("b", BASE + 2, 0)];
    let written = highlight(&config, instant(BASE, 0), &stream);
    assert!(written.echoed.is_empty());
    assert_eq!(written.rows, Ok(strings(&["   0s  a", "   2s  b"])));
}

#[test]
fn run_over_an_empty_stream_writes_nothing() {
    colored::control::set_override(false);
    let written = highlight(&Config::default(), instant(BASE, 0), &Vec::new());
    assert!(written.echoed.is_empty());
    assert_eq!(written.rows, Ok(Vec::new()));
}

#[test]
fn run_over_garbage_writes_nothing() {
    colored::control::set_override(false);
    let stream = vec![garbage(BASE, 1), garbage(BASE + 3, 0)];
    let written = highlight(&Config::default(), instant(BASE, 0), &stream);
    assert!(written.echoed.is_empty());
    assert_eq!(written.rows, Ok(Vec::new()));
}

#[test]
fn run_has_a_row_for_every_decoded_line() {
    colored::control::set_override(false);
    let stream = vec![
        garbage(BASE, 1),
        line("a", BASE, 2),
        line("b", BASE, 3),
        garbage(BASE + 5, 0),
        line("c", BASE + 5, 1_000_000),
        line("d", BASE + 5, 1_000_001),
    ];
    let written = highlight(&Config::default(), instant(BASE, 0), &stream);
    assert_eq!(written.echoed, strings(&["a", "b", "c", "d"]));
    assert_eq!(
        written.rows,
        Ok(strings(&["      0ms  a", "      0ms  b", "   5000ms  c", "      0ms  d"]))
    );
}

#[test]
fn run_that_cannot_be_counted_still_echoes() {
    colored::control::set_override(false);
    let config = Config::new(false, false, Latency::from_millis(1), "ns").unwrap();
    let stream = vec![line("a", BASE, 0)];
    let written = highlight(&config, instant(-8_000_000_000_000, 0), &stream);
    assert_eq!(written.echoed, strings(&["a"]));
    assert_eq!(written.rows, Err(UnitError::Overflow));
}

#[test]
fn line_composed_with_the_largest_count() {
    let config = Config::new(false, false, Latency::from_millis(1), "s").unwrap();
    let mut lines = LineSequence::new(instant(BASE, 0));
    lines.accept(Some("payload".to_string()), instant(BASE, 0), false);
    let limit = i64::MAX as u64;
    let row = compose_line(
        "",
        &config,
        Latency::from_secs_nanos(limit, 0),
        Latency::from_millis(1),
        1,
        lines.line(0).unwrap(),
    );
    assert_eq!(row.unwrap(), " 9223372036854775807s  payload");
    let row = compose_line(
        "",
        &config,
        Latency::from_secs_nanos(limit + 1, 0),
        Latency::from_millis(1),
        1,
        lines.line(0).unwrap(),
    );
    assert_eq!(row.err(), Some(UnitError::Overflow));
}

#[test]
fn line_composed_around_a_given_swatch() {
    let config = Config::new(true, false, Latency::from_millis(1), "ms").unwrap();
    let mut lines = LineSequence::new(instant(BASE, 0));
    lines.accept(Some("payload".to_string()), instant(BASE + 1, 500_000_000), false);
    let row = compose_line(
        "[]",
        &config,
        Latency::from_millis(1_500),
        Latency::from_millis(3_000),
        6,
        lines.line(0).unwrap(),
    );
    assert_eq!(row.unwrap(), "[]   1500ms  | R127 | 2015-05-15 00:00:01.500 UTC |  payload");
}

#[test]
fn line_composed_without_annotation() {
    let config = Config::new(false, false, Latency::from_millis(1), "h").unwrap();
    let mut lines = LineSequence::new(instant(BASE, 0));
    lines.accept(Some("payload".to_string()), instant(BASE, 0), false);
    let row = compose_line(
        "",
        &config,
        Latency::from_secs_nanos(7_199, 999_999_999),
        Latency::from_secs_nanos(7_200, 0),
        1,
        lines.line(0).unwrap(),
    );
    assert_eq!(row.unwrap(), " 1h  payload");
}

#[test]
fn line_composed_with_a_count_beyond_the_limit() {
    let config = Config::new(true, false, Latency::from_millis(1), "us").unwrap();
    let mut lines = LineSequence::new(instant(BASE, 0));
    lines.accept(Some("payload".to_string()), instant(BASE, 0), false);
    let row = compose_line(
        "  ",
        &config,
        Latency::from_secs_nanos(u64::MAX, 0),
        Latency::from_millis(1),
        1,
        lines.line(0).unwrap(),
    );
    assert_eq!(row.err(), Some(UnitError::Overflow));
}
