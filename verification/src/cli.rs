//! The commands the tool understands, as plain data. The application shell
//! parses its arguments into these before acting on them.

use vstd::prelude::*;

verus! {

/// Parsed command line: which command was asked for.
pub struct WfArgs {
    pub command: WfCommands,
}

/// The commands the tool understands.
pub enum WfCommands {
    /// Refresh both configuration scopes.
    Init,
    /// Testing subcommands.
    Test(WfTestCommands),
    /// Start a new workflow for the given ticket.
    Start { ticket_id: String },
    /// Push the current branch to the remote repository.
    Push,
    /// Do nothing.
    Noop,
}

/// Optional testing subcommand.
pub struct WfTestArgs {
    pub sub_command: Option<WfTestCommands>,
}

/// Testing subcommands.
pub enum WfTestCommands {
    Sub1,
    Sub2,
    All,
}

/// Whether a command may trigger interactive configuration initialization
/// when a scope is unset. The initialization command itself runs
/// initialization directly and must not trigger it a second time.
pub fn auto_init_allowed(command: &WfCommands) -> (r: bool)
    ensures
        r == !(command is Init),
{
    !matches!(command, WfCommands::Init)
}

} // verus!
