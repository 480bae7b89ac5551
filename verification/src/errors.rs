//! Error taxonomy for the guarded extension-loading operations.

use vstd::prelude::*;
use vstd::string::*;

verus! {

/// Errors that can occur when working with SQLite load extension
/// functionality.
#[derive(Debug, Clone)]
pub enum LoadExtensionError {
    /// Failed to enable or disable load extension support; carries the
    /// engine's diagnostic text.
    EnableFailed(String),
    /// Failed to load an extension from a shared library; carries the
    /// engine's diagnostic text.
    LoadFailed(String),
    /// The provided extension path contains an interior null byte.
    InvalidPath,
    /// The provided entry point name contains an interior null byte.
    InvalidEntryPoint,
    /// Extension loading is not supported on this platform.
    UnsupportedPlatform,
}

impl LoadExtensionError {
    /// The human-readable description of this error.
    pub open spec fn spec_message(self) -> Seq<char> {
        match self {
            LoadExtensionError::EnableFailed(m) => "Failed to enable/disable load extension: "@ + m@,
            LoadExtensionError::LoadFailed(m) => "Failed to load extension: "@ + m@,
            LoadExtensionError::InvalidPath => "Extension path contains an interior null byte"@,
            LoadExtensionError::InvalidEntryPoint => "Entry point contains an interior null byte"@,
            LoadExtensionError::UnsupportedPlatform => "Extension loading is not supported on this platform (WASM)"@,
        }
    }

    /// The human-readable description of this error.
    pub fn message(&self) -> (r: String)
        ensures
            r@ == self.spec_message(),
    {
        match self {
            LoadExtensionError::EnableFailed(m) => String::from_str(
                "Failed to enable/disable load extension: ",
            ).concat(m.as_str()),
            LoadExtensionError::LoadFailed(m) => String::from_str(
                "Failed to load extension: ",
            ).concat(m.as_str()),
            LoadExtensionError::InvalidPath => String::from_str(
                "Extension path contains an interior null byte",
            ),
            LoadExtensionError::InvalidEntryPoint => String::from_str(
                "Entry point contains an interior null byte",
            ),
            LoadExtensionError::UnsupportedPlatform => String::from_str(
                "Extension loading is not supported on this platform (WASM)",
            ),
        }
    }
}

} // verus!
