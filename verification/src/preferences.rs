//! The preferences that are kept on disk.

use vstd::prelude::*;
use vstd::string::StringExecFns;

verus! {

/// Name of the file that holds the preferences, in the application's data
/// directory.
pub const PREFERENCES_FILE: &'static str = "preferences.json";

/// Theme of a fresh installation: follow the system.
pub const DEFAULT_THEME: &'static str = "system";

/// Settings that outlive a session.
#[derive(Debug, Clone)]
pub struct AppPreferences {
    pub theme: String,
}

impl Default for AppPreferences {
    fn default() -> (r: Self)
        ensures
            r.theme@ == DEFAULT_THEME@,
    {
        AppPreferences { theme: String::from_str(DEFAULT_THEME) }
    }
}

} // verus!
