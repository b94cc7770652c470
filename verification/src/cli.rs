//! The command-line surface, as plain data. The binary around the library
//! parses its arguments into these values and dispatches on them; the
//! library only defines what a parsed invocation holds.
use vstd::prelude::*;

verus! {

/// One parsed invocation: a verbosity level and a command.
#[derive(Debug, Clone, PartialEq, Eq)]
pub struct Cli {
    /// How verbose the run should be; each level adds detail.
    pub verbose: u8,
    /// The command to run.
    pub command: Command,
}

/// The commands the tool offers.
#[derive(Debug, Clone, PartialEq, Eq)]
pub enum Command {
    /// List all packages available for install.
    List { json: bool },
    /// Install a package.
    Install { package: String },
    /// Show all installed packages.
    Installed { json: bool },
    /// Run the executable from the package specified.
    Run { package: String },
}

} // verus!
