//! The ways in which a rebind request fails.

use vstd::prelude::*;

verus! {

/// Why a shortcut could not be rebound. Either way the binding that was
/// current before the request stays current.
#[derive(Clone, Copy, Debug, PartialEq, Eq, Structural)]
pub enum ShortcutError {
    /// The key of the request names no known key code.
    InvalidKeyCode,
    /// The platform refused to register the new combination.
    PlatformRegistrationFailed,
}

impl ShortcutError {
    /// A description for the user.
    pub fn message(&self) -> (text: String)
        ensures
            text@ == match *self {
                ShortcutError::InvalidKeyCode => "Invalid key code"@,
                ShortcutError::PlatformRegistrationFailed => "Shortcut registration failed"@,
            },
    {
        match self {
            ShortcutError::InvalidKeyCode => String::from_str("Invalid key code"),
            ShortcutError::PlatformRegistrationFailed => String::from_str(
                "Shortcut registration failed",
            ),
        }
    }
}

} // verus!
