//! How much the downloader says while it works.

use vstd::prelude::*;

verus! {

/// Whether informational lines and the progress indicator are shown.
#[derive(Clone, Copy, Debug, PartialEq, Eq, Structural)]
pub enum Verbosity {
    /// Informational lines are suppressed and the indicator is hidden.
    Quiet,
    /// Informational lines are printed and the indicator is drawn.
    Verbose,
}

impl Verbosity {
    /// The verbosity selected by the quiet flag of the command line: quiet
    /// when the flag is present, verbose when it is absent.
    pub fn from_quiet_flag(present: bool) -> (verbosity: Verbosity)
        ensures
            verbosity == (if present {
                Verbosity::Quiet
            } else {
                Verbosity::Verbose
            }),
    {
        if present {
            Verbosity::Quiet
        } else {
            Verbosity::Verbose
        }
    }

    /// True for `Quiet`.
    pub fn is_quiet(&self) -> (quiet: bool)
        ensures
            quiet == (*self == Verbosity::Quiet),
    {
        match self {
            Verbosity::Quiet => true,
            Verbosity::Verbose => false,
        }
    }
}

} // verus!
