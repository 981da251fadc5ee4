//! Persisted configuration values that the session controller consumes.

use vstd::prelude::*;
use vstd::string::StringExecFns;

verus! {

/// The small configuration record the application persists between runs.
/// The controller itself only reads `api_key` when a start is requested;
/// `hotkey_code` is consumed by the hotkey listener that the surrounding
/// program wires up.
pub struct Config {
    pub api_key: String,
    pub hotkey_code: String,
}

impl Config {
    /// A configuration is startable when it carries a non-empty API key.
    pub open spec fn has_api_key(self) -> bool {
        self.api_key@.len() > 0
    }
}

impl Default for Config {
    /// A fresh configuration: no API key yet, and the default hotkey.
    fn default() -> (c: Config)
        ensures
            c.api_key@ == Seq::<char>::empty(),
            c.hotkey_code@ == "F13"@,
            !c.has_api_key(),
    {
        Config { api_key: String::new(), hotkey_code: String::from_str("F13") }
    }
}

} // verus!
