//! The persisted session state: credentials and the tracked accounts.
//!
//! Loading and saving the storage files is the surrounding
//! application's work; it is done once at startup and once at
//! teardown, and an absent file means the default state, not an
//! error.

use vstd::prelude::*;
use vstd::string::StrSliceExecFns;

verus! {

/// The match API credential of the configuration file.
#[derive(Clone, Debug, PartialEq)]
pub struct Setting {
    pub steam_api_key: String,
}

impl core::default::Default for Setting {
    /// The empty credential.
    fn default() -> (r: Self)
        ensures
            r.steam_api_key@ == Seq::<char>::empty(),
    {
        Setting { steam_api_key: String::new() }
    }
}

/// The application's persisted state: the two API keys and the
/// tracked account ids.
#[derive(Clone, Debug, PartialEq)]
pub struct AppState {
    pub steam_api_key: String,
    pub stratz_api_key: String,
    pub friends: Vec<i64>,
}

impl core::default::Default for AppState {
    /// The default state an absent storage file stands for: empty
    /// keys, no tracked accounts.
    fn default() -> (r: Self)
        ensures
            r.steam_api_key@ == Seq::<char>::empty(),
            r.stratz_api_key@ == Seq::<char>::empty(),
            r.friends@ == Seq::<i64>::empty(),
    {
        AppState {
            steam_api_key: String::new(),
            stratz_api_key: String::new(),
            friends: Vec::new(),
        }
    }
}

impl AppState {
    /// Whether both credentials are present; the key modal is shown
    /// until they are.
    pub fn has_keys(&self) -> (r: bool)
        ensures
            r == (self.steam_api_key@.len() > 0 && self.stratz_api_key@.len() > 0),
    {
        self.steam_api_key.as_str().unicode_len() > 0 && self.stratz_api_key.as_str().unicode_len()
            > 0
    }
}

} // verus!
