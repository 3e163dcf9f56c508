//! The persisted settings record.

use vstd::prelude::*;

verus! {

/// Settings kept between runs: whether the clipboard is watched, and the
/// voice selected for speech.
#[derive(Clone, Debug)]
pub struct Settings {
    pub monitor_enabled: bool,
    pub current_voice: String,
}

impl Default for Settings {
    /// Monitoring on, voice "alba".
    fn default() -> (r: Settings)
        ensures
            r.monitor_enabled,
            r.current_voice@ == "alba"@,
    {
        Settings { monitor_enabled: true, current_voice: String::from_str("alba") }
    }
}

} // verus!
