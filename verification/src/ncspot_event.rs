//! The player's decoded status event and its parts.

use vstd::prelude::*;

verus! {

/// One status event from the player's socket stream: the playback mode and,
/// when a track is loaded, its descriptor.
#[derive(Debug, Clone, PartialEq)]
pub struct NcspotEvent {
    pub mode: Mode,
    /// Present exactly when something is loaded; absent when nothing is.
    pub playable: Option<Playable>,
}

/// The playback mode. On the wire this value is untagged: an object with a
/// `"Playing"` field carrying a timestamp, an object with a `"Paused"` field
/// carrying a position, or a bare state name such as `"Stopped"`.
#[derive(Debug, Clone, PartialEq)]
pub enum Mode {
    Playing { playing: PlayingTimestamp },
    Paused { paused: PausedPosition },
    Simple(String),
}

/// Wall-clock instant at which playback started.
#[derive(Debug, Clone, Copy, PartialEq, Eq, Structural)]
pub struct PlayingTimestamp {
    pub secs_since_epoch: u64,
    pub nanos_since_epoch: u32,
}

/// Elapsed position within the paused track.
#[derive(Debug, Clone, Copy, PartialEq, Eq, Structural)]
pub struct PausedPosition {
    pub secs: u64,
    pub nanos: u32,
}

/// Descriptor of the loaded track. The controller reads `title`, `album` and
/// `artists`; the remaining metadata is carried through untouched.
#[derive(Debug, Clone, PartialEq)]
pub struct Playable {
    pub playable_type: String,
    pub id: String,
    pub uri: String,
    pub title: String,
    pub track_number: u32,
    pub disc_number: u32,
    pub duration: u64,
    pub artists: Vec<String>,
    pub artist_ids: Vec<String>,
    pub album: String,
    pub album_id: String,
    pub album_artists: Vec<String>,
    pub cover_url: String,
    pub url: String,
    pub added_at: Option<String>,
    pub list_index: u32,
    pub is_local: bool,
    pub is_playable: bool,
}

} // verus!
