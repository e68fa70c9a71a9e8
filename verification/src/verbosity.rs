//! How much a run reports of itself.

use vstd::prelude::*;

verus! {

/// The levels of reporting, from the quietest to the most talkative.
#[derive(Clone, Copy, Debug, PartialEq, Eq, Structural, PartialOrd, Ord, Hash)]
pub enum Level {
    Error,
    Warn,
    Info,
    Debug,
    Trace,
}

/// The choice of a level: a count of requests to be more talkative, or one
/// of the two flags that name a level outright.
#[derive(Clone, Copy, Debug)]
pub struct Verbosity {
    /// How often more talk was asked for.
    pub verbose: u8,
    /// Report debug messages.
    pub debug: bool,
    /// Report trace messages.
    pub trace: bool,
}

impl Verbosity {
    /// The level that the count alone stands for.
    pub open spec fn counted(verbose: u8) -> Level {
        if verbose == 0 {
            Level::Error
        } else if verbose == 1 {
            Level::Warn
        } else if verbose == 2 {
            Level::Info
        } else if verbose == 3 {
            Level::Debug
        } else {
            Level::Trace
        }
    }

    /// The level chosen: `trace` wins over `debug`, and either over the
    /// count.
    pub open spec fn spec_level(&self) -> Level {
        if self.trace {
            Level::Trace
        } else if self.debug {
            Level::Debug
        } else {
            Self::counted(self.verbose)
        }
    }

    /// The level chosen.
    #[verifier::when_used_as_spec(spec_level)]
    pub fn level(&self) -> (r: Level)
        ensures
            r == self.spec_level(),
    {
        let mut level = match self.verbose {
            0 => Level::Error,
            1 => Level::Warn,
            2 => Level::Info,
            3 => Level::Debug,
            _ => Level::Trace,
        };
        if self.trace {
            level = Level::Trace;
        } else if self.debug {
            level = Level::Debug;
        }
        level
    }
}

} // verus!
