use diesel_load_extension::LoadExtensionError;

#[test]
fn test_enable_failed_display() {
    let err = LoadExtensionError::EnableFailed("not authorized".to_string());
    assert_eq!(
        err.message(),
        "Failed to enable/disable load extension: not authorized"
    );
}

#[test]
fn test_load_failed_display() {
    let err = LoadExtensionError::LoadFailed("file not found".to_string());
    assert_eq!(err.message(), "Failed to load extension: file not found");
}

#[test]
fn test_invalid_path_display() {
    let err = LoadExtensionError::InvalidPath;
    assert_eq!(
        err.message(),
        "Extension path contains an interior null byte"
    );
}

#[test]
fn test_invalid_entry_point_display() {
    let err = LoadExtensionError::InvalidEntryPoint;
    assert_eq!(
        err.message(),
        "Entry point contains an interior null byte"
    );
}

#[test]
fn test_unsupported_platform_display() {
    let err = LoadExtensionError::UnsupportedPlatform;
    assert_eq!(
        err.message(),
        "Extension loading is not supported on this platform (WASM)"
    );
}

fn assert_send_sync<T: Send + Sync>() {}

#[test]
fn test_error_is_send_sync() {
    assert_send_sync::<LoadExtensionError>();
}
