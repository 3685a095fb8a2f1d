//! The configurable knobs the server is started with, as plain values.
//!
//! Loading them from a file or the environment happens outside the library;
//! only the defaults and the level scale are policy.

use vstd::prelude::*;

verus! {

/// Verbosity threshold for the server's log output.
#[derive(Clone, Copy, Debug, PartialEq, Eq, Structural)]
pub enum LevelFilter {
    Off,
    Error,
    Warn,
    Info,
    Debug,
    Trace,
}

impl Default for LevelFilter {
    /// Logging defaults to informational messages.
    fn default() -> (r: Self)
        ensures
            r == LevelFilter::Info,
    {
        LevelFilter::Info
    }
}

/// Dotfiles are hidden from listings unless the configuration says otherwise.
pub fn default_exclude_dotfiles() -> (b: bool)
    ensures
        b,
{
    true
}

} // verus!
