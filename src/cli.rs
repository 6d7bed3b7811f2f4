//! The command line's shape: one subcommand, `install`, with its arguments.
use vstd::prelude::*;

verus! {

/// A parsed command line.
pub struct Cli {
    pub command: Commands,
}

/// The subcommands.
pub enum Commands {
    Install(InstallArgs),
}

/// Arguments of `install`.
pub struct InstallArgs {
    /// The packages to install, in order.
    pub packages: Vec<String>,
    /// Flags handed to every build.
    pub flags: Vec<String>,
    /// Skip the confirmation prompt.
    pub yes: bool,
}

} // verus!
