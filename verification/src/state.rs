//! Normalization of a playback mode to the five-way canonical state.

use vstd::prelude::*;

use crate::ncspot_event::Mode;

verus! {

/// The canonical playback status consumers rely on.
#[derive(Debug, Clone, Copy, PartialEq, Eq, Structural)]
pub enum NormalizedState {
    Playing,
    Paused,
    Stopped,
    Finished,
    Unknown,
}

/// The normalization table: total over modes, every unrecognized simple state
/// name mapping to `Unknown`.
pub open spec fn normalized_of(m: Mode) -> NormalizedState {
    match m {
        Mode::Playing { .. } => NormalizedState::Playing,
        Mode::Paused { .. } => NormalizedState::Paused,
        Mode::Simple(s) => if s@ == "Stopped"@ {
            NormalizedState::Stopped
        } else if s@ == "FinishedTrack"@ {
            NormalizedState::Finished
        } else {
            NormalizedState::Unknown
        },
    }
}

/// The lower-case label each normalized state prints as.
pub open spec fn state_label(st: NormalizedState) -> Seq<char> {
    match st {
        NormalizedState::Playing => "playing"@,
        NormalizedState::Paused => "paused"@,
        NormalizedState::Stopped => "stopped"@,
        NormalizedState::Finished => "finished"@,
        NormalizedState::Unknown => "unknown"@,
    }
}

/// Derive the canonical state from a mode.
pub fn normalize_mode(m: &Mode) -> (st: NormalizedState)
    ensures
        st == normalized_of(*m),
{
    match m {
        Mode::Playing { .. } => NormalizedState::Playing,
        Mode::Paused { .. } => NormalizedState::Paused,
        Mode::Simple(s) => {
            let stopped: String = "Stopped".to_owned();
            let finished: String = "FinishedTrack".to_owned();
            if *s == stopped {
                NormalizedState::Stopped
            } else if *s == finished {
                NormalizedState::Finished
            } else {
                NormalizedState::Unknown
            }
        },
    }
}

/// The label a mode reports as, e.g. `"playing"` or `"unknown"`.
pub fn mode_to_state_string(mode: &Mode) -> (r: &str)
    ensures
        r@ == state_label(normalized_of(*mode)),
{
    match normalize_mode(mode) {
        NormalizedState::Playing => "playing",
        NormalizedState::Paused => "paused",
        NormalizedState::Stopped => "stopped",
        NormalizedState::Finished => "finished",
        NormalizedState::Unknown => "unknown",
    }
}

/// Law: every simple state name other than `"Stopped"` and `"FinishedTrack"`
/// normalizes to `Unknown`; normalization never rejects a name.
pub proof fn lemma_other_simple_states_are_unknown(s: String)
    requires
        s@ != "Stopped"@,
        s@ != "FinishedTrack"@,
    ensures
        normalized_of(Mode::Simple(s)) == NormalizedState::Unknown,
{
}

} // verus!
