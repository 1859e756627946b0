//! The lines of one run, each with the instant at which it arrived.

use crate::time::Latency;
use crate::time::Timestamp;
use vstd::prelude::*;

verus! {

/// One line of input and the instant at which it arrived.
#[derive(Debug)]
pub struct AnnotatedLine {
    text: String,
    arrival: Timestamp,
}

/// What an `AnnotatedLine` stands for.
pub struct LineView {
    pub text: Seq<char>,
    pub arrival: Timestamp,
}

impl View for AnnotatedLine {
    type V = LineView;

    closed spec fn view(&self) -> LineView {
        LineView { text: self.text@, arrival: self.arrival }
    }
}

impl AnnotatedLine {
    /// The line as it was read.
    pub fn text(&self) -> (text: &str)
        ensures
            text@ == self@.text,
    {
        self.text.as_str()
    }

    /// The instant at which the line arrived.
    pub fn arrival(&self) -> (arrival: Timestamp)
        ensures
            arrival == self@.arrival,
    {
        self.arrival
    }
}

/// One read of the input: the decoded line, or `None` where the bytes were
/// not valid text, and what the clock showed when the read returned.
pub struct Arrival {
    pub decoded: Option<String>,
    pub at: Timestamp,
}

/// What an `Arrival` stands for.
pub struct ArrivalView {
    pub decoded: Option<Seq<char>>,
    pub at: Timestamp,
}

impl View for Arrival {
    type V = ArrivalView;

    open spec fn view(&self) -> ArrivalView {
        ArrivalView {
            decoded: match self.decoded {
                Some(text) => Some(text@),
                None => None,
            },
            at: self.at,
        }
    }
}

/// What a `LineSequence` stands for: the instant at which listening began,
/// and the lines in the order of their arrival.
pub struct SequenceView {
    pub start: Timestamp,
    pub lines: Seq<LineView>,
}

impl SequenceView {
    /// The instant against which line `i` is measured: the arrival of the
    /// line before it, or the start for the first line.
    pub open spec fn previous(self, i: int) -> Timestamp {
        if i == 0 {
            self.start
        } else {
            self.lines[i - 1].arrival
        }
    }

    /// The latest instant on record: the arrival of the last line, or the
    /// start where there is no line.
    pub open spec fn latest(self) -> Timestamp {
        self.previous(self.lines.len() as int)
    }

    /// The nanoseconds between line `i` and the instant before it.
    pub open spec fn since_last(self, i: int) -> int {
        self.lines[i].arrival.nanos_since_epoch() - self.previous(i).nanos_since_epoch()
    }

    /// No line arrived before the one in front of it, nor the first before
    /// the start.
    pub open spec fn ordered(self) -> bool {
        forall|i: int| 0 <= i < self.lines.len() ==> 0 <= #[trigger] self.since_last(i)
    }

    /// The instant that is recorded for a line read at `at`: `at` itself,
    /// unless the clock stepped back behind the latest instant on record.
    pub open spec fn stamp_for(self, at: Timestamp) -> Timestamp {
        if at.nanos_since_epoch() < self.latest().nanos_since_epoch() {
            self.latest()
        } else {
            at
        }
    }

    /// The sequence after one more read: unchanged where the read gave no
    /// text, else one line longer.
    pub open spec fn accepting(self, read: ArrivalView) -> SequenceView {
        match read.decoded {
            None => self,
            Some(text) => SequenceView {
                start: self.start,
                lines: self.lines.push(LineView { text, arrival: self.stamp_for(read.at) }),
            },
        }
    }
}

/// The sequence that the reads of `stream` leave behind, when listening
/// began at `start`.
pub open spec fn recorded(start: Timestamp, stream: Seq<ArrivalView>) -> SequenceView
    decreases stream.len(),
{
    if stream.len() == 0 {
        SequenceView { start, lines: Seq::empty() }
    } else {
        recorded(start, stream.drop_last()).accepting(stream.last())
    }
}

/// The lines that are written back at once while `stream` is read: every
/// decoded line where `echo` is set, none where it is not.
pub open spec fn echoed(stream: Seq<ArrivalView>, echo: bool) -> Seq<Seq<char>>
    decreases stream.len(),
{
    if stream.len() == 0 {
        Seq::empty()
    } else {
        let before = echoed(stream.drop_last(), echo);
        match stream.last().decoded {
            Some(text) if echo => before.push(text),
            _ => before,
        }
    }
}

/// The number of reads in `stream` that gave text.
pub open spec fn decoded_count(stream: Seq<ArrivalView>) -> nat
    decreases stream.len(),
{
    if stream.len() == 0 {
        0
    } else {
        decoded_count(stream.drop_last()) + if stream.last().decoded is Some {
            1nat
        } else {
            0nat
        }
    }
}

/// What each read of a stream stands for, in order.
pub open spec fn arrival_views(stream: Seq<Arrival>) -> Seq<ArrivalView> {
    stream.map_values(|read: Arrival| read@)
}

/// The characters of each string, in order.
pub open spec fn texts(lines: Seq<String>) -> Seq<Seq<char>> {
    lines.map_values(|line: String| line@)
}

/// The lines of one run in the order of their arrival, with the instant at
/// which listening began. No line is recorded earlier than the one before
/// it.
pub struct LineSequence {
    start: Timestamp,
    lines: Vec<AnnotatedLine>,
}

impl View for LineSequence {
    type V = SequenceView;

    closed spec fn view(&self) -> SequenceView {
        SequenceView { start: self.start, lines: Seq::new(self.lines@.len(), |i: int| self.lines@[i]@) }
    }
}

impl LineSequence {
    /// What every sequence built by this module satisfies: its lines are
    /// in the order of their instants.
    pub open spec fn wf(&self) -> bool {
        self@.ordered()
    }

    /// The empty sequence of a run that began listening at `start`.
    pub fn new(start: Timestamp) -> (lines: LineSequence)
        ensures
            lines.wf(),
            lines@.start == start,
            lines@.lines.len() == 0,
    {
        LineSequence { start, lines: Vec::new() }
    }

    /// The number of lines.
    pub fn len(&self) -> (count: usize)
        ensures
            count == self@.lines.len(),
    {
        self.lines.len()
    }

    /// Whether there is no line.
    pub fn is_empty(&self) -> (none: bool)
        ensures
            none == (self@.lines.len() == 0),
    {
        self.lines.len() == 0
    }

    /// The instant at which listening began.
    pub fn start(&self) -> (start: Timestamp)
        ensures
            start == self@.start,
    {
        self.start
    }

    /// Line `i`, counted from 0, or `None` past the end.
    pub fn line(&self, i: usize) -> (line: Option<&AnnotatedLine>)
        ensures
            line is Some <==> i < self@.lines.len(),
            line matches Some(found) ==> found@ == self@.lines[i as int],
    {
        if i < self.lines.len() {
            Some(&self.lines[i])
        } else {
            None
        }
    }

    /// The latest instant on record.
    pub fn latest(&self) -> (latest: Timestamp)
        ensures
            latest == self@.latest(),
    {
        let count = self.lines.len();
        if count == 0 {
            self.start
        } else {
            self.lines[count - 1].arrival
        }
    }

    /// The time between line `i` and the one before it, or between the
    /// first line and the start.
    pub fn since_last(&self, i: usize) -> (gap: Latency)
        requires
            self.wf(),
            i < self@.lines.len(),
        ensures
            gap@ == self@.since_last(i as int),
    {
        assert(0 <= self@.since_last(i as int));
        let previous = if i == 0 {
            self.start
        } else {
            self.lines[i - 1].arrival
        };
        self.lines[i].arrival.elapsed_since(&previous).unwrap()
    }

    /// Takes one read of the input. A read without text changes nothing.
    /// A decoded line is appended with the instant `at`, or with the latest
    /// instant on record where `at` lies before it. The line is handed back
    /// where `echo` asks for it to be written out at once.
    pub fn accept(&mut self, read: Option<String>, at: Timestamp, echo: bool) -> (back: Option<
        String,
    >)
        requires
            old(self).wf(),
        ensures
            final(self).wf(),
            final(self)@ == old(self)@.accepting(
                ArrivalView {
                    decoded: match read {
                        Some(text) => Some(text@),
                        None => None,
                    },
                    at,
                },
            ),
            back is Some <==> echo && read is Some,
            back matches Some(copy) ==> copy@ == read.unwrap()@,
    {
        match read {
            None => None,
            Some(text) => {
                let latest = self.latest();
                let arrival = if latest.not_after(&at) {
                    at
                } else {
                    latest
                };
                let back = if echo {
                    Some(text.clone())
                } else {
                    None
                };
                let ghost before = self@;
                let ghost added = LineView { text: text@, arrival };
                self.lines.push(AnnotatedLine { text, arrival });
                proof {
                    assert(self@.lines =~= before.lines.push(added));
                    assert forall|i: int| 0 <= i < self@.lines.len() implies 0
                        <= #[trigger] self@.since_last(i) by {
                        if i < before.lines.len() {
                            assert(self@.since_last(i) == before.since_last(i));
                        }
                    }
                }
                back
            },
        }
    }
}

/// Reads a whole stream: every decoded line is kept, in the order of its
/// arrival and with its instant; reads without text are dropped. Beside the
/// sequence stand the lines to write back at once: every kept line where
/// `echo` is set, none where it is not.
pub fn lines_from_stream(start: Timestamp, stream: &Vec<Arrival>, echo: bool) -> (out: (
    LineSequence,
    Vec<String>,
))
    ensures
        out.0.wf(),
        out.0@ == recorded(start, arrival_views(stream@)),
        texts(out.1@) == echoed(arrival_views(stream@), echo),
{
    let mut lines = LineSequence::new(start);
    let mut echoes: Vec<String> = Vec::new();
    let ghost reads = arrival_views(stream@);
    assert(lines@.lines =~= Seq::<LineView>::empty());
    let mut i: usize = 0;
    while i < stream.len()
        invariant
            i <= stream.len(),
            reads == arrival_views(stream@),
            lines.wf(),
            lines@ == recorded(start, reads.take(i as int)),
            texts(echoes@) == echoed(reads.take(i as int), echo),
        decreases stream.len() - i,
    {
        let read = match &stream[i].decoded {
            Some(text) => Some(text.clone()),
            None => None,
        };
        assert(reads.take(i + 1).drop_last() =~= reads.take(i as int));
        match lines.accept(read, stream[i].at, echo) {
            Some(copy) => {
                echoes.push(copy);
            },
            None => {},
        }
        i += 1;
    }
    assert(reads.take(i as int) =~= reads);
    (lines, echoes)
}

/// One line is kept for every read that gave text, and none for the
/// others.
pub proof fn lemma_one_line_per_decoded_read(start: Timestamp, stream: Seq<ArrivalView>)
    ensures
        recorded(start, stream).lines.len() == decoded_count(stream),
        recorded(start, stream).start == start,
    decreases stream.len(),
{
    if stream.len() > 0 {
        lemma_one_line_per_decoded_read(start, stream.drop_last());
    }
}

/// Whatever the clock showed at each read, the recorded instants never run
/// backwards: the first line is not before the start, and every later line
/// is measured against the line before it and is not before it.
pub proof fn lemma_recorded_never_runs_backwards(start: Timestamp, stream: Seq<ArrivalView>)
    ensures
        recorded(start, stream).ordered(),
        forall|i: int|
            #![trigger recorded(start, stream).since_last(i)]
            1 <= i < recorded(start, stream).lines.len() ==> {
                let run = recorded(start, stream);
                &&& run.since_last(i) == run.lines[i].arrival.nanos_since_epoch() - run.lines[i
                    - 1].arrival.nanos_since_epoch()
                &&& run.since_last(i) >= 0
            },
    decreases stream.len(),
{
    if stream.len() > 0 {
        let before = recorded(start, stream.drop_last());
        lemma_recorded_never_runs_backwards(start, stream.drop_last());
        let run = recorded(start, stream);
        assert forall|i: int| 0 <= i < run.lines.len() implies 0 <= #[trigger] run.since_last(
            i,
        ) by {
            if i < before.lines.len() {
                assert(run.since_last(i) == before.since_last(i));
            }
        }
    }
}

/// With the echo on, every kept line is written back once, in the order
/// of arrival and letter for letter; with the echo off, nothing is.
pub proof fn lemma_echo_repeats_every_line(start: Timestamp, stream: Seq<ArrivalView>)
    ensures
        echoed(stream, false).len() == 0,
        echoed(stream, true).len() == recorded(start, stream).lines.len(),
        forall|i: int|
            0 <= i < echoed(stream, true).len() ==> #[trigger] echoed(stream, true)[i]
                == recorded(start, stream).lines[i].text,
    decreases stream.len(),
{
    if stream.len() > 0 {
        lemma_echo_repeats_every_line(start, stream.drop_last());
    }
}

} // verus!
