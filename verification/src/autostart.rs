//! Registering the desktop shell to start with the session.

use vstd::prelude::*;
use crate::platform::Platform;

verus! {

/// Autostart registration. No platform needs a step of its own yet, so
/// enabling succeeds wherever the platform is one of the three served.
pub struct AutostartManager;

impl AutostartManager {
    /// Enables autostart on `platform`; `None` stands for a platform that
    /// is not served. Fails there, with the text `Unsupported platform`, and
    /// nowhere else.
    pub fn enable(platform: Option<Platform>) -> (r: Result<(), String>)
        ensures
            match r {
                Ok(()) => platform is Some,
                Err(reason) => platform is None && reason@ == "Unsupported platform"@,
            },
    {
        match platform {
            Some(Platform::Linux) => Self::enable_linux(),
            Some(Platform::Windows) => Self::enable_windows(),
            Some(Platform::MacOS) => Self::enable_macos(),
            None => Err(String::from_str("Unsupported platform")),
        }
    }

    fn enable_linux() -> (r: Result<(), String>)
        ensures
            r is Ok,
    {
        Ok(())
    }

    fn enable_windows() -> (r: Result<(), String>)
        ensures
            r is Ok,
    {
        Ok(())
    }

    fn enable_macos() -> (r: Result<(), String>)
        ensures
            r is Ok,
    {
        Ok(())
    }
}

} // verus!
