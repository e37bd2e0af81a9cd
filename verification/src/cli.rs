//! The command line.

use vstd::prelude::*;

verus! {

/// A TUI that cooks AI development plans to completion via iterative Ralph loops.
#[derive(Debug)]
pub struct Cli {
    /// Set the log level (trace, debug, info, warn, error)
    pub log_level: Option<String>,
    /// Run one iteration and exit (CLI mode)
    pub iteration: bool,
    /// Show current run status and exit
    pub status: bool,
    /// Run validators only and exit
    pub validate: bool,
    /// Abort the current run and exit
    pub abort: bool,
    /// Remove .ralpher/ artifacts and exit
    pub clean: bool,
    /// Start a new run and exit (fails if one is in progress)
    pub start: bool,
}

/// What the program is asked to do.
#[derive(Clone, Copy, Debug, PartialEq, Eq, Structural)]
pub enum CliCommand {
    Status,
    Validate,
    Abort,
    Clean,
    Start,
    Iteration,
    /// No flag is set: launch the terminal interface.
    Tui,
}

/// What the flags ask for. Where several are set, the first in this order
/// counts.
pub open spec fn requested(cli: Cli) -> CliCommand {
    if cli.status {
        CliCommand::Status
    } else if cli.validate {
        CliCommand::Validate
    } else if cli.abort {
        CliCommand::Abort
    } else if cli.clean {
        CliCommand::Clean
    } else if cli.start {
        CliCommand::Start
    } else if cli.iteration {
        CliCommand::Iteration
    } else {
        CliCommand::Tui
    }
}

impl Cli {
    /// Check if any CLI mode flag is set.
    /// When no flags are set, the TUI should be launched.
    pub fn is_cli_mode(&self) -> (r: bool)
        ensures
            r == (self.iteration || self.status || self.validate || self.abort || self.clean
                || self.start),
            r == (requested(*self) != CliCommand::Tui),
    {
        self.iteration || self.status || self.validate || self.abort || self.clean || self.start
    }

    /// What the flags ask for.
    pub fn command(&self) -> (r: CliCommand)
        ensures
            r == requested(*self),
    {
        if self.status {
            CliCommand::Status
        } else if self.validate {
            CliCommand::Validate
        } else if self.abort {
            CliCommand::Abort
        } else if self.clean {
            CliCommand::Clean
        } else if self.start {
            CliCommand::Start
        } else if self.iteration {
            CliCommand::Iteration
        } else {
            CliCommand::Tui
        }
    }
}

/// Each flag asks for its command, where no other is set that goes before it.
pub proof fn law_flags_ask_for_commands(cli: Cli)
    ensures
        cli.status ==> requested(cli) == CliCommand::Status,
        cli.validate && !cli.status ==> requested(cli) == CliCommand::Validate,
        cli.abort && !cli.status && !cli.validate ==> requested(cli) == CliCommand::Abort,
        cli.clean && !cli.status && !cli.validate && !cli.abort ==> requested(cli)
            == CliCommand::Clean,
        cli.start && !cli.status && !cli.validate && !cli.abort && !cli.clean ==> requested(cli)
            == CliCommand::Start,
        cli.iteration && !cli.status && !cli.validate && !cli.abort && !cli.clean && !cli.start
            ==> requested(cli) == CliCommand::Iteration,
        requested(cli) == CliCommand::Tui <==> !cli.status && !cli.validate && !cli.abort
            && !cli.clean && !cli.start && !cli.iteration,
{
}

} // verus!
