//! Mapping of CLI commands to the player's wire keywords.

use vstd::prelude::*;

use crate::cli::Commands;

verus! {

/// The keyword each command sends, a raw command passing through unchanged.
pub open spec fn command_keyword(cmd: Commands) -> Seq<char> {
    match cmd {
        Commands::Play => "play"@,
        Commands::Pause => "pause"@,
        Commands::Playpause => "playpause"@,
        Commands::Next => "next"@,
        Commands::Previous => "previous"@,
        Commands::Stop => "stop"@,
        Commands::Raw { command } => command@,
    }
}

/// The wire keyword for a command. The caller writes it to the control
/// socket as one line and reads the single reply.
pub fn execute_command(cmd: &Commands) -> (r: String)
    ensures
        r@ == command_keyword(*cmd),
{
    match cmd {
        Commands::Play => "play".to_owned(),
        Commands::Pause => "pause".to_owned(),
        Commands::Playpause => "playpause".to_owned(),
        Commands::Next => "next".to_owned(),
        Commands::Previous => "previous".to_owned(),
        Commands::Stop => "stop".to_owned(),
        Commands::Raw { command } => command.clone(),
    }
}

} // verus!
