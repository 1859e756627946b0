//! The units in which a latency can be shown, and the conversion to them.

use crate::text::count_digits;
use crate::text::decimal_digits;
use crate::time::Latency;
use vstd::prelude::*;
use vstd::string::*;

verus! {

/// Why a latency could not be expressed as a count of some unit.
#[derive(Clone, Copy, Debug, PartialEq, Eq, Structural)]
pub enum UnitError {
    /// The unit symbol is none of `ns`, `us`, `ms`, `s`, `m`, `h`, `d`.
    UnknownUnit,
    /// The count is above `i64::MAX`, the largest count of nanoseconds or
    /// of any other unit that is given out.
    Overflow,
}

/// A unit of time in which latencies are shown.
#[derive(Clone, Copy, Debug, PartialEq, Eq, Structural)]
pub enum LatencyUnit {
    Nanoseconds,
    Microseconds,
    Milliseconds,
    Seconds,
    Minutes,
    Hours,
    Days,
}

/// The unit that the symbol `symbol` stands for, if it is one of the seven
/// symbols `ns`, `us`, `ms`, `s`, `m`, `h`, `d`.
pub open spec fn unit_of(symbol: Seq<char>) -> Option<LatencyUnit> {
    if symbol == seq!['n', 's'] {
        Some(LatencyUnit::Nanoseconds)
    } else if symbol == seq!['u', 's'] {
        Some(LatencyUnit::Microseconds)
    } else if symbol == seq!['m', 's'] {
        Some(LatencyUnit::Milliseconds)
    } else if symbol == seq!['s'] {
        Some(LatencyUnit::Seconds)
    } else if symbol == seq!['m'] {
        Some(LatencyUnit::Minutes)
    } else if symbol == seq!['h'] {
        Some(LatencyUnit::Hours)
    } else if symbol == seq!['d'] {
        Some(LatencyUnit::Days)
    } else {
        None
    }
}

impl LatencyUnit {
    /// The length of one unit in nanoseconds.
    pub open spec fn nanos(self) -> nat {
        match self {
            LatencyUnit::Nanoseconds => 1,
            LatencyUnit::Microseconds => 1_000,
            LatencyUnit::Milliseconds => 1_000_000,
            LatencyUnit::Seconds => 1_000_000_000,
            LatencyUnit::Minutes => 60_000_000_000,
            LatencyUnit::Hours => 3_600_000_000_000,
            LatencyUnit::Days => 86_400_000_000_000,
        }
    }

    /// The symbol of the unit.
    pub open spec fn spec_symbol(self) -> Seq<char> {
        match self {
            LatencyUnit::Nanoseconds => seq!['n', 's'],
            LatencyUnit::Microseconds => seq!['u', 's'],
            LatencyUnit::Milliseconds => seq!['m', 's'],
            LatencyUnit::Seconds => seq!['s'],
            LatencyUnit::Minutes => seq!['m'],
            LatencyUnit::Hours => seq!['h'],
            LatencyUnit::Days => seq!['d'],
        }
    }

    /// The number of whole units in a span of `nanos` nanoseconds; what is
    /// left of a unit is cut off.
    pub open spec fn whole_units(self, nanos: nat) -> nat {
        match self {
            LatencyUnit::Nanoseconds => nanos,
            LatencyUnit::Microseconds => nanos / 1_000,
            LatencyUnit::Milliseconds => nanos / 1_000_000,
            LatencyUnit::Seconds => nanos / 1_000_000_000,
            LatencyUnit::Minutes => nanos / 60_000_000_000,
            LatencyUnit::Hours => nanos / 3_600_000_000_000,
            LatencyUnit::Days => nanos / 86_400_000_000_000,
        }
    }

    /// The count of whole units is the quotient by the unit's length: the
    /// largest count whose units all fit in the span.
    pub proof fn lemma_whole_units_is_floor(self, nanos: nat)
        ensures
            self.whole_units(nanos) == nanos / self.nanos(),
            self.whole_units(nanos) * self.nanos() <= nanos,
            nanos < (self.whole_units(nanos) + 1) * self.nanos(),
    {
    }

    /// A longer span never holds fewer whole units.
    pub proof fn lemma_whole_units_monotonic(self, shorter: nat, longer: nat)
        requires
            shorter <= longer,
        ensures
            self.whole_units(shorter) <= self.whole_units(longer),
    {
    }

    /// The unit that `symbol` stands for, or `None` for any text but the
    /// seven symbols.
    pub fn parse(symbol: &str) -> (unit: Option<LatencyUnit>)
        ensures
            unit == unit_of(symbol@),
    {
        let len = symbol.unicode_len();
        if len == 1 {
            let only = symbol.get_char(0);
            assert(symbol@ =~= seq![only]);
            if only == 's' {
                Some(LatencyUnit::Seconds)
            } else if only == 'm' {
                Some(LatencyUnit::Minutes)
            } else if only == 'h' {
                Some(LatencyUnit::Hours)
            } else if only == 'd' {
                Some(LatencyUnit::Days)
            } else {
                None
            }
        } else if len == 2 {
            let first = symbol.get_char(0);
            let second = symbol.get_char(1);
            assert(symbol@ =~= seq![first, second]);
            if second == 's' && first == 'n' {
                Some(LatencyUnit::Nanoseconds)
            } else if second == 's' && first == 'u' {
                Some(LatencyUnit::Microseconds)
            } else if second == 's' && first == 'm' {
                Some(LatencyUnit::Milliseconds)
            } else {
                None
            }
        } else {
            None
        }
    }

    /// The symbol of the unit, as it is written behind a number.
    pub fn symbol(&self) -> (symbol: &'static str)
        ensures
            symbol@ == self.spec_symbol(),
            unit_of(symbol@) == Some(*self),
    {
        proof {
            reveal_strlit("ns");
            reveal_strlit("us");
            reveal_strlit("ms");
            reveal_strlit("s");
            reveal_strlit("m");
            reveal_strlit("h");
            reveal_strlit("d");
            lemma_symbols_are_distinct(*self);
        }
        let symbol = match self {
            LatencyUnit::Nanoseconds => "ns",
            LatencyUnit::Microseconds => "us",
            LatencyUnit::Milliseconds => "ms",
            LatencyUnit::Seconds => "s",
            LatencyUnit::Minutes => "m",
            LatencyUnit::Hours => "h",
            LatencyUnit::Days => "d",
        };
        assert(symbol@ =~= self.spec_symbol());
        symbol
    }

    /// The number of whole units in `duration`. What is left of a unit is
    /// cut off, never rounded up. A count that is above `i64::MAX` is
    /// an overflow.
    pub fn count(&self, duration: Latency) -> (count: Result<u64, UnitError>)
        ensures
            match count {
                Ok(whole) => whole == self.whole_units(duration@) && whole <= i64::MAX,
                Err(error) => error == UnitError::Overflow && self.whole_units(duration@)
                    > i64::MAX,
            },
    {
        let nanos: u128 = duration.as_nanos();
        let whole: u128 = match self {
            LatencyUnit::Nanoseconds => nanos,
            LatencyUnit::Microseconds => nanos / 1_000,
            LatencyUnit::Milliseconds => nanos / 1_000_000,
            LatencyUnit::Seconds => nanos / 1_000_000_000,
            LatencyUnit::Minutes => nanos / 60_000_000_000,
            LatencyUnit::Hours => nanos / 3_600_000_000_000,
            LatencyUnit::Days => nanos / 86_400_000_000_000,
        };
        if whole <= i64::MAX as u128 {
            Ok(whole as u64)
        } else {
            Err(UnitError::Overflow)
        }
    }

    /// The width of the column that holds every latency up to
    /// `max_inter_line_latency`: the number of decimal digits of its count
    /// in this unit. A count of zero takes one digit.
    pub fn display_width(&self, max_inter_line_latency: Latency) -> (width: Result<
        usize,
        UnitError,
    >)
        ensures
            match width {
                Ok(digits) => self.whole_units(max_inter_line_latency@) <= i64::MAX && digits
                    == decimal_digits(self.whole_units(max_inter_line_latency@)) && 1 <= digits
                    <= 20,
                Err(error) => error == UnitError::Overflow && self.whole_units(
                    max_inter_line_latency@,
                ) > i64::MAX,
            },
    {
        match self.count(max_inter_line_latency) {
            Ok(count) => Ok(count_digits(count)),
            Err(error) => Err(error),
        }
    }
}

/// Each unit is the only one that its symbol stands for.
pub proof fn lemma_symbols_are_distinct(unit: LatencyUnit)
    ensures
        unit_of(unit.spec_symbol()) == Some(unit),
{
    assert(seq!['s'][0] == 's' && seq!['m'][0] == 'm' && seq!['h'][0] == 'h' && seq!['d'][0]
        == 'd');
    assert(seq!['s'].len() == 1 && seq!['m'].len() == 1 && seq!['h'].len() == 1 && seq!['d'].len()
        == 1);
}

/// The number of whole units of `unit` in `duration`, cut off and never
/// rounded. The unit is given by its symbol: any text but the seven symbols
/// is an unknown unit, and a count that is above `i64::MAX` is an
/// overflow.
pub fn duration_as_unit(duration: Latency, unit: &str) -> (count: Result<u64, UnitError>)
    ensures
        match count {
            Ok(whole) => unit_of(unit@) matches Some(known) && whole == known.whole_units(
                duration@,
            ) && whole <= i64::MAX,
            Err(UnitError::UnknownUnit) => unit_of(unit@) is None,
            Err(UnitError::Overflow) => unit_of(unit@) matches Some(known) && known.whole_units(
                duration@,
            ) > i64::MAX,
        },
{
    match LatencyUnit::parse(unit) {
        None => Err(UnitError::UnknownUnit),
        Some(known) => known.count(duration),
    }
}

/// The width of the latency column of a run whose largest latency is
/// `max_inter_line_latency`, shown in the unit with the symbol `unit`: the
/// number of decimal digits of that latency's count, and 1 for a count of
/// zero.
pub fn latency_display_width(max_inter_line_latency: Latency, unit: &str) -> (width: Result<
    usize,
    UnitError,
>)
    ensures
        match width {
            Ok(digits) => unit_of(unit@) matches Some(known) && known.whole_units(
                max_inter_line_latency@,
            ) <= i64::MAX && digits == decimal_digits(
                known.whole_units(max_inter_line_latency@),
            ),
            Err(UnitError::UnknownUnit) => unit_of(unit@) is None,
            Err(UnitError::Overflow) => unit_of(unit@) matches Some(known) && known.whole_units(
                max_inter_line_latency@,
            ) > i64::MAX,
        },
{
    match LatencyUnit::parse(unit) {
        None => Err(UnitError::UnknownUnit),
        Some(known) => known.display_width(max_inter_line_latency),
    }
}

} // verus!
