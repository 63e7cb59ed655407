//! Request handling rules of a small blogging service: who may list users,
//! how sign-up and log-in treat passwords, how bearer tokens are judged, and
//! which HTTP reply each database outcome leads to.
//!
//! The database, the HTTP server and the JSON encoding stay with the caller;
//! this crate decides, from plain values, what is stored and what is answered.

use vstd::prelude::*;

pub mod auth;
pub mod post;
pub mod reply;
pub mod user;

verus! {

/// Settings shared by every handler.
pub struct AppState {
    /// Debug mode: enables the user listing and more precise error messages.
    pub is_debug: bool,
}

/// What the `DEBUG` setting means: debug mode is on exactly when the setting
/// is present and reads `true` (the only text that parses as the boolean
/// `true`).
pub open spec fn debug_setting_enabled(setting: Option<Seq<char>>) -> bool {
    match setting {
        Some(text) => text == "true"@,
        None => false,
    }
}

impl AppState {
    /// Builds the settings from the raw `DEBUG` value, when there is one.
    pub fn from_debug_setting(setting: Option<&str>) -> (state: AppState)
        ensures
            state.is_debug == debug_setting_enabled(
                match setting {
                    Some(s) => Some(s@),
                    None => None,
                },
            ),
    {
        match setting {
            Some(text) => {
                let given = String::from_str(text);
                let expected = String::from_str("true");
                AppState { is_debug: given == expected }
            },
            None => AppState { is_debug: false },
        }
    }
}

} // verus!
