//! Output configuration for command-line reporting.
//!
//! Verbosity and color are one-way switches: once enabled for a run they
//! stay enabled. The switches live in an explicit configuration value that
//! the command-line layer threads through its calls.

use vstd::prelude::*;

verus! {

use vstd::string::StringExecFns;

/// The output switches of one command-line run.
pub struct LogConfig {
    verbose: bool,
    color: bool,
}

impl LogConfig {
    /// Whether verbose output was switched on.
    pub closed spec fn is_verbose(self) -> bool {
        self.verbose
    }

    /// Whether color output was switched on.
    pub closed spec fn is_color(self) -> bool {
        self.color
    }

    /// Both switches start off.
    pub fn new() -> (c: LogConfig)
        ensures
            !c.is_verbose(),
            !c.is_color(),
    {
        LogConfig { verbose: false, color: false }
    }

    /// Switch verbose output on; it stays on.
    pub fn enable_verbose_output(&mut self)
        ensures
            final(self).is_verbose(),
            final(self).is_color() == old(self).is_color(),
    {
        self.verbose = true;
    }

    /// Whether verbose output is on.
    pub fn is_verbose_output_enabled(&self) -> (r: bool)
        ensures
            r == self.is_verbose(),
    {
        self.verbose
    }

    /// Switch color output on; it stays on.
    pub fn enable_color_output(&mut self)
        ensures
            final(self).is_color(),
            final(self).is_verbose() == old(self).is_verbose(),
    {
        self.color = true;
    }

    /// Whether color output is on.
    pub fn is_color_output_enabled(&self) -> (r: bool)
        ensures
            r == self.is_color(),
    {
        self.color
    }
}

/// The error heading of command-line reports.
pub struct Error;

impl Error {
    /// The heading's text.
    pub fn text(&self) -> (t: String)
        ensures
            t@ == "error"@,
    {
        String::from_str("error")
    }
}

/// A report heading with a fixed title.
pub struct Title(pub &'static str);

impl Title {
    /// The heading's text.
    pub fn text(&self) -> (t: String)
        ensures
            t@ == self.0@,
    {
        String::from_str(self.0)
    }
}

} // verus!
