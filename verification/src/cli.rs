//! The command-line surface: no subcommand runs the monitor, each subcommand
//! maps to one control keyword.

use vstd::prelude::*;

verus! {

/// The parsed invocation.
#[derive(Debug, Clone, PartialEq)]
pub struct Cli {
    /// `None` runs the long-lived monitor.
    pub command: Option<Commands>,
}

/// One control command for the player.
#[derive(Debug, Clone, PartialEq)]
pub enum Commands {
    /// Play the current track.
    Play,
    /// Pause playback.
    Pause,
    /// Toggle play/pause.
    Playpause,
    /// Skip to next track.
    Next,
    /// Go to previous track.
    Previous,
    /// Stop playback.
    Stop,
    /// Send a raw command to the player.
    Raw { command: String },
}

} // verus!
