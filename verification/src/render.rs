//! The rows that are written out for the lines of a run.

use crate::analysis::intensity_of;
use crate::analysis::lemma_intensity_bounds;
use crate::analysis::max_inter_line_latency;
use crate::analysis::red_intensity;
use crate::config::Config;
use crate::lines::AnnotatedLine;
use crate::lines::LineSequence;
use crate::lines::LineView;
use crate::lines::SequenceView;
use crate::text::decimal_digits;
use crate::text::decimal_string;
use crate::text::decimal_text;
use crate::text::lemma_decimal_digits_monotonic;
use crate::text::lemma_decimal_text_len;
use crate::text::right_align;
use crate::text::right_aligned;
use crate::time::Latency;
use crate::time::Timestamp;
use crate::unit::LatencyUnit;
use crate::unit::UnitError;
use colored::Colorize;
use vstd::prelude::*;
use vstd::string::*;

verus! {

/// The separator between the parts of an annotation: a bar between two
/// spaces.
pub open spec fn bar() -> Seq<char> {
    seq![' ', '|', ' ']
}

/// The diagnostic annotation of a row: the marker `MAX` where the line's
/// latency is the largest of the run and nothing where it is not, the
/// letter `R` with the red intensity, and the arrival instant, each
/// followed by a bar.
pub open spec fn annotation_text(is_max: bool, red: u8, stamp: Seq<char>) -> Seq<char> {
    (if is_max {
        seq!['M', 'A', 'X']
    } else {
        Seq::<char>::empty()
    }) + bar() + seq!['R'] + decimal_text(red as nat) + bar() + stamp + bar()
}

/// A row: the swatch, a space, the latency count right-aligned in a column
/// of `width` characters, the unit symbol directly behind it, a space, the
/// annotation, a space, and the line as it was read.
pub open spec fn row_text(
    swatch: Seq<char>,
    count: nat,
    width: nat,
    unit: LatencyUnit,
    annotation: Seq<char>,
    line: Seq<char>,
) -> Seq<char> {
    swatch + seq![' '] + right_aligned(decimal_text(count), width) + unit.spec_symbol() + seq![' ']
        + annotation + seq![' '] + line
}

/// The character that opens a terminal control sequence.
pub open spec fn escape() -> char {
    '\u{1b}'
}

/// The terminal's code for a background of the colour `(red, green,
/// blue)`: `48;2;` and the three channels as decimal numerals between
/// semicolons.
pub open spec fn truecolor_background(red: u8, green: u8, blue: u8) -> Seq<char> {
    seq!['4', '8', ';', '2', ';'] + decimal_text(red as nat) + seq![';'] + decimal_text(
        green as nat,
    ) + seq![';'] + decimal_text(blue as nat)
}

/// Whether `code` is the terminal's code for one of its sixteen basic
/// background colours.
pub open spec fn is_basic_background(code: nat) -> bool {
    40 <= code <= 47 || 100 <= code <= 107
}

/// `text` between the control sequence that switches the background with
/// the code `background` on and the one that resets the terminal.
pub open spec fn painted(text: Seq<char>, background: Seq<char>) -> Seq<char> {
    seq![escape(), '['] + background + seq!['m'] + text + seq![escape(), '[', '0', 'm']
}

/// Whether `out` is `text` on a background of the colour `(red, green,
/// blue)` as some terminal takes it: the bare text where colours are off,
/// the text painted in the colour itself, or the text painted in one of the
/// sixteen basic colours where the terminal has no others.
pub open spec fn is_painting(out: Seq<char>, text: Seq<char>, red: u8, green: u8, blue: u8) -> bool {
    ||| out == text
    ||| out == painted(text, truecolor_background(red, green, blue))
    ||| exists|code: nat|
        is_basic_background(code) && out == painted(text, #[trigger] decimal_text(code))
}

/// Whether `out` is the swatch of a line with the red intensity `red`: two
/// spaces on a background of the colour `(red, 0, 0)`.
pub open spec fn is_swatch(out: Seq<char>, red: u8) -> bool {
    is_painting(out, seq![' ', ' '], red, 0, 0)
}

/// Puts `text` on a background of the colour `(red, green, blue)`, with
/// `colored::Colorize::on_truecolor` and the `Display` impl of
/// `colored::ColoredString`.
///
/// Trusted: the result is one of three texts, and which one is up to the
/// environment and the terminal. It is `text` unchanged where colours are
/// off. Else it is `text` between an opening sequence and the reset
/// sequence, and the opening sequence names either the colour itself or
/// one of the sixteen basic backgrounds; which of the sixteen is not
/// claimed. A `text` with a control sequence of its own is left out.
#[verifier::external_body]
fn paint_background(text: &str, red: u8, green: u8, blue: u8) -> (out: String)
    requires
        !text@.contains(escape()),
    ensures
        is_painting(out@, text@, red, green, blue),
{
    text.on_truecolor(red, green, blue).to_string()
}

/// The swatch of a line with the red intensity `red`: two spaces on a
/// background that is red to that degree, and neither green nor blue.
pub fn paint_swatch(red: u8) -> (swatch: String)
    ensures
        is_swatch(swatch@, red),
{
    proof {
        reveal_strlit("  ");
    }
    assert("  "@ =~= seq![' ', ' ']);
    paint_background("  ", red, 0, 0)
}

/// The diagnostic annotation made of its three parts: whether the line's
/// latency is the largest, its red intensity, and the text of its arrival
/// instant.
pub fn debug_annotation(is_max: bool, red_intensity: u8, stamp: &str) -> (annotation: String)
    ensures
        annotation@ == annotation_text(is_max, red_intensity, stamp@),
{
    proof {
        reveal_strlit("MAX");
        reveal_strlit(" | ");
        reveal_strlit("R");
    }
    let mut annotation = String::new();
    if is_max {
        annotation.append("MAX");
    }
    annotation.append(" | ");
    annotation.append("R");
    let intensity = decimal_string(red_intensity as u64);
    annotation.append(intensity.as_str());
    annotation.append(" | ");
    annotation.append(stamp);
    annotation.append(" | ");
    annotation
}

/// The diagnostic annotation of a line with the latency `since_last` in a
/// run whose largest latency is `max_inter_line_latency`: the marker `MAX`
/// exactly where the two are equal, the red intensity, and the calendar's
/// text for the arrival instant.
pub fn debug_preamble(
    since_last: Latency,
    max_inter_line_latency: Latency,
    red_intensity: u8,
    timestamp: Timestamp,
) -> (annotation: String)
    ensures
        annotation@ == annotation_text(
            since_last@ == max_inter_line_latency@,
            red_intensity,
            timestamp.spec_text(),
        ),
{
    let is_max = since_last.as_nanos() == max_inter_line_latency.as_nanos();
    let stamp = timestamp.text();
    debug_annotation(is_max, red_intensity, stamp.as_str())
}

/// One row, put together from its parts.
pub fn render_row(
    swatch: &str,
    count: u64,
    width: usize,
    unit: LatencyUnit,
    annotation: &str,
    line: &str,
) -> (row: String)
    ensures
        row@ == row_text(swatch@, count as nat, width as nat, unit, annotation@, line@),
{
    proof {
        reveal_strlit(" ");
    }
    let mut row = String::from_str(swatch);
    row.append(" ");
    let number = decimal_string(count);
    let column = right_align(number.as_str(), width);
    row.append(column.as_str());
    row.append(unit.symbol());
    row.append(" ");
    row.append(annotation);
    row.append(" ");
    row.append(line);
    row
}

/// The row of a line that arrived `since_last` nanoseconds after the one
/// before it, in a run whose largest latency is `max_latency` and whose
/// latency column is `width` wide, given the text of its swatch. The
/// annotation is empty unless `config` asks for one.
pub open spec fn line_text(
    config: Config,
    since_last: nat,
    max_latency: nat,
    width: nat,
    line: LineView,
    swatch: Seq<char>,
) -> Seq<char> {
    row_text(
        swatch,
        config.latency_unit.whole_units(since_last),
        width,
        config.latency_unit,
        if config.debug {
            annotation_text(
                since_last == max_latency,
                intensity_of(since_last, max_latency, config.min_latency@) as u8,
                line.arrival.spec_text(),
            )
        } else {
            Seq::<char>::empty()
        },
        line.text,
    )
}

/// Whether `text` is the row of such a line, with a swatch in the red
/// intensity of the line's latency.
pub open spec fn is_line_text(
    text: Seq<char>,
    config: Config,
    since_last: nat,
    max_latency: nat,
    width: nat,
    line: LineView,
) -> bool {
    exists|swatch: Seq<char>|
        is_swatch(swatch, intensity_of(since_last, max_latency, config.min_latency@) as u8)
            && text == #[trigger] line_text(
            config,
            since_last,
            max_latency,
            width,
            line,
            swatch,
        )
}

impl SequenceView {
    /// The width of the latency column: the number of digits of the largest
    /// latency between two lines, counted in `unit`.
    pub open spec fn display_width(self, unit: LatencyUnit) -> nat {
        decimal_digits(unit.whole_units(self.max_inter_line_latency() as nat))
    }

    /// Whether `text` is the row of line `i`, for some swatch: the line's
    /// latency is measured against the largest of the run and shown in the
    /// run's column width.
    pub open spec fn has_row(self, config: Config, i: int, text: Seq<char>) -> bool {
        is_line_text(
            text,
            config,
            self.since_last(i) as nat,
            self.max_inter_line_latency() as nat,
            self.display_width(config.latency_unit),
            self.lines[i],
        )
    }

    /// Whether the latency of every line, counted in `unit`, is a count
    /// up to `i64::MAX`.
    pub open spec fn countable_in(self, unit: LatencyUnit) -> bool {
        forall|i: int|
            0 <= i < self.lines.len() ==> unit.whole_units(#[trigger] self.since_last(i) as nat)
                <= i64::MAX
    }
}

/// The row of one line around a swatch that is already painted: the
/// latency counted in the unit of `config` and right-aligned to `width`,
/// the unit symbol, the annotation where `config` asks for one, and the
/// line itself. A latency whose count is above `i64::MAX` is an
/// overflow.
pub fn compose_line(
    swatch: &str,
    config: &Config,
    since_last: Latency,
    max_inter_line_latency: Latency,
    width: usize,
    line: &AnnotatedLine,
) -> (row: Result<String, UnitError>)
    ensures
        match row {
            Ok(text) => config.latency_unit.whole_units(since_last@) <= i64::MAX && text@
                == line_text(
                *config,
                since_last@,
                max_inter_line_latency@,
                width as nat,
                line@,
                swatch@,
            ),
            Err(error) => error == UnitError::Overflow && config.latency_unit.whole_units(
                since_last@,
            ) > i64::MAX,
        },
{
    let count = match config.latency_unit.count(since_last) {
        Ok(count) => count,
        Err(error) => {
            return Err(error);
        },
    };
    let annotation = if config.debug {
        let red = red_intensity(since_last, max_inter_line_latency, config.min_latency);
        proof {
            lemma_intensity_bounds(since_last@, max_inter_line_latency@, config.min_latency@);
        }
        debug_preamble(since_last, max_inter_line_latency, red, line.arrival())
    } else {
        String::new()
    };
    Ok(render_row(swatch, count, width, config.latency_unit, annotation.as_str(), line.text()))
}

/// The row of one line: a swatch painted in the red intensity of the
/// line's latency, and around it what `compose_line` puts there. The
/// colour handed to the painter is `(red, 0, 0)`, where `red` is the
/// intensity that `red_intensity` gives for the latency, the largest
/// latency and the threshold of `config`.
pub fn render_line(
    config: &Config,
    since_last: Latency,
    max_inter_line_latency: Latency,
    width: usize,
    line: &AnnotatedLine,
) -> (row: Result<String, UnitError>)
    ensures
        match row {
            Ok(text) => config.latency_unit.whole_units(since_last@) <= i64::MAX && is_line_text(
                text@,
                *config,
                since_last@,
                max_inter_line_latency@,
                width as nat,
                line@,
            ),
            Err(error) => error == UnitError::Overflow && config.latency_unit.whole_units(
                since_last@,
            ) > i64::MAX,
        },
{
    let red = red_intensity(since_last, max_inter_line_latency, config.min_latency);
    let swatch = paint_swatch(red);
    compose_line(swatch.as_str(), config, since_last, max_inter_line_latency, width, line)
}

/// The rows of a run, one for each line and in the order of the lines. The
/// largest latency between two lines sets the scale of the red
/// intensities and the width of the latency column. A run without lines
/// has no rows. A latency whose count is above `i64::MAX` is an overflow,
/// and then there are no rows at all.
pub fn render(config: &Config, lines: &LineSequence) -> (rows: Result<Vec<String>, UnitError>)
    requires
        lines.wf(),
    ensures
        match rows {
            Ok(rows) => {
                &&& lines@.countable_in(config.latency_unit)
                &&& rows@.len() == lines@.lines.len()
                &&& forall|i: int|
                    0 <= i < rows@.len() ==> lines@.has_row(*config, i, (#[trigger] rows@[i])@)
            },
            Err(error) => error == UnitError::Overflow && !lines@.countable_in(
                config.latency_unit,
            ),
        },
{
    let mut rows: Vec<String> = Vec::new();
    let count = lines.len();
    if count == 0 {
        return Ok(rows);
    }
    let max = max_inter_line_latency(lines);
    let width = match config.latency_unit.display_width(max) {
        Ok(width) => width,
        Err(error) => {
            proof {
                lemma_largest_is_some_latency(lines@, config.latency_unit);
            }
            return Err(error);
        },
    };
    let mut i: usize = 0;
    while i < count
        invariant
            lines.wf(),
            count == lines@.lines.len(),
            i <= count,
            max@ == lines@.max_inter_line_latency(),
            width == lines@.display_width(config.latency_unit),
            rows@.len() == i,
            forall|k: int|
                0 <= k < i ==> config.latency_unit.whole_units(
                    #[trigger] lines@.since_last(k) as nat,
                ) <= i64::MAX,
            forall|k: int| 0 <= k < i ==> lines@.has_row(*config, k, (#[trigger] rows@[k])@),
        decreases count - i,
    {
        let since_last = lines.since_last(i);
        let line = lines.line(i).unwrap();
        match render_line(config, since_last, max, width, line) {
            Ok(text) => {
                rows.push(text);
            },
            Err(error) => {
                return Err(error);
            },
        }
        i += 1;
    }
    Ok(rows)
}

/// Where the largest latency of a run has a count above `i64::MAX`, it is
/// the latency of one of the lines.
proof fn lemma_largest_is_some_latency(run: SequenceView, unit: LatencyUnit)
    requires
        unit.whole_units(run.max_inter_line_latency() as nat) > i64::MAX,
    ensures
        !run.countable_in(unit),
{
    run.lemma_max_latency_among(run.lines.len() as int);
}

/// The latency column has the same width in every row whose latency is
/// not above the largest between two lines, and so in every row but
/// perhaps the first: the count is padded to the width that the largest
/// latency takes. A first line that took longer to arrive than any gap
/// between two lines may need more digits, and its column is then as wide
/// as its count.
pub proof fn lemma_latency_column_is_stable(run: SequenceView, unit: LatencyUnit, i: int)
    requires
        run.ordered(),
        0 <= i < run.lines.len(),
    ensures
        ({
            let column = right_aligned(
                decimal_text(unit.whole_units(run.since_last(i) as nat)),
                run.display_width(unit),
            );
            &&& column.len() >= run.display_width(unit)
            &&& (i >= 1 || run.since_last(i) <= run.max_inter_line_latency()) ==> column.len()
                == run.display_width(unit)
        }),
{
    let count = unit.whole_units(run.since_last(i) as nat);
    let largest = unit.whole_units(run.max_inter_line_latency() as nat);
    run.lemma_max_latency_among(run.lines.len() as int);
    lemma_decimal_text_len(count);
    if i >= 1 || run.since_last(i) <= run.max_inter_line_latency() {
        unit.lemma_whole_units_monotonic(
            run.since_last(i) as nat,
            run.max_inter_line_latency() as nat,
        );
        lemma_decimal_digits_monotonic(count, largest);
    }
}

} // verus!
