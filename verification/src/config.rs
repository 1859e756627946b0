//! The options of a run.

use crate::time::Latency;
use crate::time::NANOS_PER_MILLI;
use crate::unit::unit_of;
use crate::unit::LatencyUnit;
use crate::unit::UnitError;
use vstd::prelude::*;

verus! {

/// The options of a run.
#[derive(Clone, Copy, Debug)]
pub struct Config {
    /// Whether each row carries a diagnostic annotation.
    pub debug: bool,
    /// Whether lines are held back until the input ends, instead of being
    /// written out as they arrive.
    pub no_echo: bool,
    /// The latency up to which a line is not highlighted.
    pub min_latency: Latency,
    /// The unit in which latencies are shown.
    pub latency_unit: LatencyUnit,
}

impl Config {
    /// The options as given, with the unit named by its symbol. Any text
    /// but one of the seven unit symbols is refused.
    pub fn new(debug: bool, no_echo: bool, min_latency: Latency, latency_unit: &str) -> (made:
        Result<Config, UnitError>)
        ensures
            match unit_of(latency_unit@) {
                Some(unit) => made matches Ok(config) && config == (Config {
                    debug,
                    no_echo,
                    min_latency,
                    latency_unit: unit,
                }),
                None => made matches Err(error) && error == UnitError::UnknownUnit,
            },
    {
        match LatencyUnit::parse(latency_unit) {
            Some(unit) => Ok(Config { debug, no_echo, min_latency, latency_unit: unit }),
            None => Err(UnitError::UnknownUnit),
        }
    }

    /// Whether lines are written out as they arrive.
    pub fn echo(&self) -> (echo: bool)
        ensures
            echo == !self.no_echo,
    {
        !self.no_echo
    }
}

impl Default for Config {
    /// No annotation, lines echoed as they arrive, a threshold of one
    /// millisecond, and latencies shown in milliseconds.
    fn default() -> (config: Config)
        ensures
            !config.debug,
            !config.no_echo,
            config.min_latency@ == NANOS_PER_MILLI,
            config.latency_unit == LatencyUnit::Milliseconds,
    {
        Config {
            debug: false,
            no_echo: false,
            min_latency: Latency::from_millis(1),
            latency_unit: LatencyUnit::Milliseconds,
        }
    }
}

} // verus!
