//! A safety wrapper around SQLite's dynamic-extension-loading facility.
//!
//! SQLite keeps a per-connection flag that controls whether shared-library
//! extensions may be loaded. Leaving that flag enabled is a security hazard,
//! so this crate sequences every load as: validate all inputs, enable the
//! flag, load each extension in order stopping at the first failure, and
//! disable the flag again on every exit path.
//!
//! The decision logic — input validation, the guarded enable/load/disable
//! lifecycle, and the error precedence rules — lives here and is verified.
//! The process that owns a real database connection performs the engine
//! calls that a [`BatchSession`](loader::BatchSession) instructs, and feeds
//! each call's outcome back into the session.

pub mod errors;
pub mod loader;
pub mod platform;
pub mod requests;

pub use errors::LoadExtensionError;
pub use loader::BatchSession;
pub use requests::ExtensionRequest;

use vstd::prelude::*;

verus! {

/// Extension trait for a SQLite connection, providing guarded load
/// extension support.
///
/// The implementor owns the native connection handle and performs the
/// engine calls; the guarded lifecycle itself is decided by a
/// [`BatchSession`], which `load_extension` and `load_extensions` drive
/// from start to finish.
pub trait SqliteLoadExtensionExt {
    /// Enable or disable the ability to load SQLite extensions.
    ///
    /// By default, extension loading is disabled in SQLite for security
    /// reasons. Most users should prefer [`load_extension`], which
    /// automatically enables and disables extension loading around the
    /// load call; this method is for fine-grained control over the
    /// lifecycle.
    ///
    /// Returns [`LoadExtensionError::EnableFailed`] if the engine returns
    /// a non-success status code.
    ///
    /// [`load_extension`]: Self::load_extension
    fn enable_load_extension(&mut self, enabled: bool) -> Result<(), LoadExtensionError>;

    /// Load a SQLite extension from a shared library file, enabling
    /// extension loading before the load and disabling it afterward, on
    /// every exit path.
    ///
    /// When `entry_point` is `None`, the engine derives a default entry
    /// point from the filename.
    ///
    /// Returns [`LoadExtensionError::InvalidPath`] or
    /// [`LoadExtensionError::InvalidEntryPoint`] for an input holding an
    /// interior null byte, before any engine call;
    /// [`LoadExtensionError::EnableFailed`] if enabling fails; and
    /// [`LoadExtensionError::LoadFailed`] with the engine's message if the
    /// load fails.
    fn load_extension(&mut self, path: &str, entry_point: Option<&str>) -> Result<
        (),
        LoadExtensionError,
    >;

    /// Load multiple SQLite extensions in a single enable/disable cycle,
    /// in order, stopping at the first failure; extension loading is
    /// disabled again before returning.
    ///
    /// All inputs are validated before any engine call; an empty list
    /// succeeds immediately without touching the toggle at all.
    fn load_extensions(&mut self, extensions: &[(&str, Option<&str>)]) -> Result<
        (),
        LoadExtensionError,
    >;
}

} // verus!
