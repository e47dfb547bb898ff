//! Runtime configuration for the controller.

use vstd::prelude::*;

verus! {

/// Configuration loaded once at startup. The only recognized setting is an
/// optional hook script path; an absent or unreadable configuration file is
/// treated as this value with no hook script.
pub struct Config {
    /// Path of an external program to run on each state change, if configured.
    pub hook_script: Option<String>,
}

impl Config {
    /// The configuration used when no configuration file is present.
    pub fn unconfigured() -> (c: Config)
        ensures
            c.hook_script is None,
    {
        Config { hook_script: None }
    }

    /// A configuration with the given hook script enabled.
    pub fn with_hook_script(path: String) -> (c: Config)
        ensures
            c.hook_script matches Some(p) && p@ == path@,
    {
        Config { hook_script: Some(path) }
    }
}

} // verus!
