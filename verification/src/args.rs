use vstd::prelude::*;

verus! {

/// The parsed command line: one subcommand.
#[derive(Debug, Clone, PartialEq, Eq)]
pub struct Args {
    pub command: Command,
}

/// The subcommands.
#[derive(Debug, Clone, PartialEq, Eq)]
pub enum Command {
    /// Create a default config file if one does not already exist.
    Init,
    /// Tune into a station: run its command with your input.
    Run {
        /// Name of the station (must match a `name` in the config).
        station: String,
    },
    /// List all stations from the config.
    List,
}

} // verus!
