//! The largest latency of a run, and the red intensity of each line.

use crate::lines::LineSequence;
use crate::lines::SequenceView;
use crate::time::Latency;
use crate::time::NANOS_PER_MILLI;
use vstd::prelude::*;

verus! {

impl SequenceView {
    /// The largest latency among the first `n` lines, where the first line
    /// of all is left out and the result is never less than a millisecond.
    pub open spec fn max_latency_among(self, n: int) -> int
        decreases n,
    {
        if n <= 1 {
            NANOS_PER_MILLI as int
        } else {
            let before = self.max_latency_among(n - 1);
            let gap = self.since_last(n - 1);
            if gap > before {
                gap
            } else {
                before
            }
        }
    }

    /// The largest latency between two lines of the run, and a millisecond
    /// where no two lines are that far apart. The time that the first line
    /// took to arrive does not count.
    pub open spec fn max_inter_line_latency(self) -> int {
        self.max_latency_among(self.lines.len() as int)
    }

    /// The largest latency is at least a millisecond and at least the
    /// latency of every line but the first, and it is either a millisecond
    /// or the latency of one of those lines.
    pub proof fn lemma_max_latency_among(self, n: int)
        requires
            n <= self.lines.len(),
        ensures
            self.max_latency_among(n) >= NANOS_PER_MILLI,
            forall|i: int| 1 <= i < n ==> #[trigger] self.since_last(i) <= self.max_latency_among(n),
            self.max_latency_among(n) == NANOS_PER_MILLI || exists|i: int|
                1 <= i < n && #[trigger] self.since_last(i) == self.max_latency_among(n),
        decreases n,
    {
        if n > 1 {
            self.lemma_max_latency_among(n - 1);
        }
    }
}

/// The largest latency between two lines of `lines`: the time it took the
/// first line to arrive is left out, and the result is a millisecond where
/// no latency is longer, as for a single line or none.
pub fn max_inter_line_latency(lines: &LineSequence) -> (max: Latency)
    requires
        lines.wf(),
    ensures
        max@ == lines@.max_inter_line_latency(),
        max@ >= NANOS_PER_MILLI,
{
    let mut max = Latency::from_millis(1);
    let count = lines.len();
    let mut i: usize = 1;
    while i < count
        invariant
            lines.wf(),
            count == lines@.lines.len(),
            1 <= i,
            i <= count || (count == 0 && i == 1),
            max@ == lines@.max_latency_among(i as int),
        decreases count - i,
    {
        let gap = lines.since_last(i);
        if gap.as_nanos() > max.as_nanos() {
            max = gap;
        }
        i += 1;
    }
    proof {
        lines@.lemma_max_latency_among(count as int);
    }
    max
}

/// The red intensity of a line: 0 where its latency is not above
/// `min_latency`; else the latency's share of `max_latency` on a scale of
/// 255, rounded down, and 255 where the share is a whole or more.
pub open spec fn intensity_of(since_last: nat, max_latency: nat, min_latency: nat) -> nat {
    if since_last <= min_latency {
        0
    } else if max_latency == 0 || since_last >= max_latency {
        255
    } else {
        255 * since_last / max_latency
    }
}

/// An intensity is between 0 and 255, and it is 0 for every latency that
/// is not above the threshold.
pub proof fn lemma_intensity_bounds(since_last: nat, max_latency: nat, min_latency: nat)
    ensures
        0 <= intensity_of(since_last, max_latency, min_latency) <= 255,
        since_last <= min_latency ==> intensity_of(since_last, max_latency, min_latency) == 0,
{
    if since_last > min_latency && max_latency != 0 && since_last < max_latency {
        lemma_share_below_whole(since_last, max_latency);
    }
}

/// A latency above the threshold that is as long as the largest, or
/// longer, has the full intensity.
pub proof fn lemma_intensity_of_largest(since_last: nat, max_latency: nat, min_latency: nat)
    requires
        since_last > min_latency,
        since_last >= max_latency,
    ensures
        intensity_of(since_last, max_latency, min_latency) == 255,
{
}

/// A longer latency is never less intense.
pub proof fn lemma_intensity_monotonic(
    shorter: nat,
    longer: nat,
    max_latency: nat,
    min_latency: nat,
)
    requires
        shorter <= longer,
    ensures
        intensity_of(shorter, max_latency, min_latency) <= intensity_of(
            longer,
            max_latency,
            min_latency,
        ),
{
    lemma_intensity_bounds(shorter, max_latency, min_latency);
    lemma_intensity_bounds(longer, max_latency, min_latency);
    if shorter > min_latency && max_latency != 0 && longer < max_latency {
        assert(255 * shorter / max_latency <= 255 * longer / max_latency) by (nonlinear_arith)
            requires
                shorter <= longer,
                max_latency > 0,
        ;
    }
}

proof fn lemma_share_below_whole(part: nat, whole: nat)
    requires
        part < whole,
    ensures
        255 * part / whole < 255,
        255 * part / whole >= 0,
{
    assert(255 * part / whole < 255 && 255 * part / whole >= 0) by (nonlinear_arith)
        requires
            part < whole,
    ;
}

/// The red intensity of a line that arrived `since_last` after the one
/// before it, in a run whose largest latency is `max_latency`: nothing for
/// a latency up to `min_latency`, and for a longer one its share of the
/// largest on the scale from 0 to 255.
pub fn red_intensity(since_last: Latency, max_latency: Latency, min_latency: Latency) -> (red: u8)
    ensures
        red == intensity_of(since_last@, max_latency@, min_latency@),
        since_last@ <= min_latency@ ==> red == 0,
{
    let gap: u128 = since_last.as_nanos();
    let max: u128 = max_latency.as_nanos();
    if gap <= min_latency.as_nanos() {
        0
    } else if max == 0 || gap >= max {
        255
    } else {
        proof {
            lemma_share_below_whole(gap as nat, max as nat);
        }
        (255 * gap / max) as u8
    }
}

} // verus!
