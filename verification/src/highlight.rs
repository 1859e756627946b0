//! A whole run, from the reads of the input to what is written out.

use crate::config::Config;
use crate::lines::arrival_views;
use crate::lines::decoded_count;
use crate::lines::echoed;
use crate::lines::lemma_one_line_per_decoded_read;
use crate::lines::lines_from_stream;
use crate::lines::recorded;
use crate::lines::texts;
use crate::lines::Arrival;
use crate::render::render;
use crate::time::Timestamp;
use crate::unit::UnitError;
use vstd::prelude::*;

verus! {

/// What a run writes out: first the lines that are echoed while the input
/// is read, then, when the input has ended, the rows.
pub struct Transcript {
    /// The lines written back as they arrived.
    pub echoed: Vec<String>,
    /// One row for each line, or the reason why there are none.
    pub rows: Result<Vec<String>, UnitError>,
}

/// Runs both passes over a finished stream. The first keeps every decoded
/// line with its instant and, unless `config` switches the echo off,
/// writes it back at once. The second renders one row for each kept line,
/// against the largest latency of the whole run. With the echo on, the
/// text of every line is so written twice: once alone and once in its row.
pub fn highlight(config: &Config, start: Timestamp, stream: &Vec<Arrival>) -> (written:
    Transcript)
    ensures
        texts(written.echoed@) == echoed(arrival_views(stream@), !config.no_echo),
        match written.rows {
            Ok(rows) => {
                let run = recorded(start, arrival_views(stream@));
                &&& run.countable_in(config.latency_unit)
                &&& rows@.len() == decoded_count(arrival_views(stream@))
                &&& rows@.len() == run.lines.len()
                &&& forall|i: int|
                    0 <= i < rows@.len() ==> run.has_row(*config, i, (#[trigger] rows@[i])@)
            },
            Err(error) => error == UnitError::Overflow && !recorded(
                start,
                arrival_views(stream@),
            ).countable_in(config.latency_unit),
        },
{
    let (lines, echoed) = lines_from_stream(start, stream, config.echo());
    proof {
        lemma_one_line_per_decoded_read(start, arrival_views(stream@));
    }
    let rows = render(config, &lines);
    Transcript { echoed, rows }
}

} // verus!
