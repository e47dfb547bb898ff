//! The socket availability watcher's decisions.
//!
//! The watcher subscribes to filesystem notifications on the socket's parent
//! directory and blocks until the socket file may exist. The subscription and
//! the blocking receive stay with the caller; this module decides which
//! notifications count as wake-ups. A wake-up is only a hint: the caller
//! re-checks that the file really exists, and a false wake-up simply loops.

use vstd::prelude::*;

verus! {

/// Why waiting for the socket failed. All of these are fatal: with a dead
/// watch there is no way to learn that the socket appeared.
#[derive(Debug, Clone, Copy, PartialEq, Eq, Structural)]
pub enum WatcherError {
    /// The socket path has no parent directory, or the parent does not exist.
    MissingParent,
    /// The filesystem-change subscription could not be established.
    WatchFailed,
    /// The notification channel closed before the file appeared.
    ChannelClosed,
}

impl WatcherError {
    /// A diagnostic for the monitor's log.
    pub fn describe(&self) -> (r: &str)
        ensures
            r@ == match *self {
                WatcherError::MissingParent => "the socket path has no watchable parent directory"@,
                WatcherError::WatchFailed => "could not watch the socket's parent directory"@,
                WatcherError::ChannelClosed => "the watcher channel closed before the socket appeared"@,
            },
    {
        match self {
            WatcherError::MissingParent => "the socket path has no watchable parent directory",
            WatcherError::WatchFailed => "could not watch the socket's parent directory",
            WatcherError::ChannelClosed => "the watcher channel closed before the socket appeared",
        }
    }
}

/// The notification kinds the watcher distinguishes. Anything that could mean
/// a file came into being is a wake-up; everything else is ignored.
#[derive(Debug, Clone, Copy, PartialEq, Eq, Structural)]
pub enum FsEventKind {
    Create,
    Modify,
    /// The notifier's generic "something changed" signal.
    Any,
    Other,
}

/// Kinds that may indicate creation.
pub open spec fn wakeup_kind(k: FsEventKind) -> bool {
    k is Create || k is Modify || k is Any
}

/// The notified path's file name (`None` for a path without one) is the
/// awaited one.
pub open spec fn name_is(n: Option<String>, target: Seq<char>) -> bool {
    n matches Some(s) && s@ == target
}

/// Some notified path has the awaited file name.
pub open spec fn names_target(names: Seq<Option<String>>, target: Seq<char>) -> bool {
    exists|i: int| 0 <= i < names.len() && name_is(#[trigger] names[i], target)
}

/// Decide whether a notification is a wake-up for the awaited file: its kind
/// could indicate creation and one of its paths' file names (`None` for a
/// path without one) is the target. A true result only prompts the caller to
/// re-check existence.
pub fn watch_wakeup(kind: &FsEventKind, names: &Vec<Option<String>>, target: &str) -> (b: bool)
    ensures
        b == (wakeup_kind(*kind) && names_target(names@, target@)),
{
    let wake = match kind {
        FsEventKind::Create => true,
        FsEventKind::Modify => true,
        FsEventKind::Any => true,
        FsEventKind::Other => false,
    };
    if !wake {
        return false;
    }
    let owned: String = target.to_owned();
    let n = names.len();
    for i in 0..n
        invariant
            n == names@.len(),
            owned@ == target@,
            wakeup_kind(*kind),
            forall|k: int| 0 <= k < i ==> !name_is(#[trigger] names@[k], target@),
    {
        match &names[i] {
            Some(nm) => {
                if *nm == owned {
                    proof {
                        assert(name_is(names@[i as int], target@));
                        assert(names_target(names@, target@));
                    }
                    return true;
                }
            },
            None => {},
        }
    }
    false
}

} // verus!
