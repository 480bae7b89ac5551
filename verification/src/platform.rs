//! Outcomes on platforms without dynamic extension loading.
//!
//! Where the engine cannot load shared libraries at all, every operation is
//! refused — but inputs are still validated first, so callers get the same
//! precise validation errors as on any other platform, and an empty batch
//! is still trivially successful.

use crate::errors::LoadExtensionError;
use crate::requests::{contains_nul, has_nul, validation_verdict, ExtensionRequest};
use vstd::prelude::*;

verus! {

/// Enabling or disabling extension loading where the platform cannot load
/// extensions: refused outright.
pub fn enable_load_extension_unsupported(_enabled: bool) -> (r: Result<(), LoadExtensionError>)
    ensures
        r == Err::<(), LoadExtensionError>(LoadExtensionError::UnsupportedPlatform),
{
    Err(LoadExtensionError::UnsupportedPlatform)
}

/// Loading a single extension where the platform cannot load extensions:
/// the path and entry point are validated first — the path before the entry
/// point — and only a well-formed request is answered with the platform
/// refusal.
pub fn load_extension_unsupported(path: &str, entry_point: Option<&str>) -> (r: Result<
    (),
    LoadExtensionError,
>)
    ensures
        has_nul(path@) ==> r == Err::<(), LoadExtensionError>(LoadExtensionError::InvalidPath),
        !has_nul(path@) && (entry_point matches Some(ep) && has_nul(ep@)) ==> r == Err::<
            (),
            LoadExtensionError,
        >(LoadExtensionError::InvalidEntryPoint),
        !has_nul(path@) && (entry_point matches Some(ep) ==> !has_nul(ep@)) ==> r == Err::<
            (),
            LoadExtensionError,
        >(LoadExtensionError::UnsupportedPlatform),
{
    if contains_nul(path) {
        return Err(LoadExtensionError::InvalidPath);
    }
    match entry_point {
        Some(ep) => {
            if contains_nul(ep) {
                return Err(LoadExtensionError::InvalidEntryPoint);
            }
        },
        None => {},
    }
    Err(LoadExtensionError::UnsupportedPlatform)
}

/// Loading a batch where the platform cannot load extensions: an empty
/// batch is trivially successful, a malformed batch gets its validation
/// error, and only a well-formed non-empty batch is answered with the
/// platform refusal.
pub fn load_extensions_unsupported(requests: &Vec<ExtensionRequest>) -> (r: Result<
    (),
    LoadExtensionError,
>)
    ensures
        requests@.len() == 0 ==> r == Ok::<(), LoadExtensionError>(()),
        requests@.len() > 0 ==> r == match validation_verdict(requests@) {
            Err(e) => Err::<(), LoadExtensionError>(e),
            Ok(()) => Err::<(), LoadExtensionError>(LoadExtensionError::UnsupportedPlatform),
        },
{
    if requests.len() == 0 {
        return Ok(());
    }
    if let Err(e) = crate::requests::validate_requests(requests) {
        return Err(e);
    }
    Err(LoadExtensionError::UnsupportedPlatform)
}

} // verus!
