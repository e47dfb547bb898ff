//! Companion library for the `ncspot` terminal music player.
//!
//! The library holds the logic of a small controller process: locating the
//! player's control socket, deciding when a filesystem change means the socket
//! has appeared, decoding the player's newline-delimited JSON event stream,
//! normalizing playback state, driving the reconnecting monitor loop, and
//! framing control commands with their replies. All socket, subprocess and
//! filesystem work is left to the surrounding binary, which feeds plain values
//! into these functions and carries their decisions out.

pub mod cli;
pub mod config;
pub mod control;
pub mod decode;
pub mod hook;
pub mod json;
pub mod locator;
pub mod monitor;
pub mod ncspot_event;
pub mod sender;
pub mod state;
pub mod watcher;
