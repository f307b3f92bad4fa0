use error_forge::AppError;
use error_forge::ErrorRegistry;
use error_forge::ForgeError;
use error_forge::WithErrorCode;
use error_forge::register_error_code;

#[test]
fn registry_test_error_with_code() {
    let error = AppError::config("Invalid config").with_code("CONFIG-001");

    assert_eq!(
        error.user_message(),
        "[CONFIG-001] ⚙️ Configuration Error: Invalid config"
    );
}

#[test]
fn test_register_error_code() {
    let mut registry = ErrorRegistry::new();
    let _ = register_error_code(
        &mut registry,
        "AUTH-001",
        "Authentication failed due to invalid credentials",
        Some("https://docs.example.com/errors/auth-001"),
        true,
    );

    let info = registry.get_code_info("AUTH-001");
    assert!(info.is_some());
    let info = info.unwrap();
    assert_eq!(info.code, "AUTH-001");
    assert_eq!(info.description, "Authentication failed due to invalid credentials");
    assert_eq!(
        info.documentation_url,
        Some("https://docs.example.com/errors/auth-001".to_string())
    );
    assert!(info.retryable);
}

#[test]
fn registry_test_test_error_with_code() {
    let error = AppError::config("Invalid configuration").with_code("CONFIG-001");

    assert_eq!(
        error.user_message(),
        "[CONFIG-001] ⚙️ Configuration Error: Invalid configuration"
    );
    assert_eq!(error.kind(), "Config"); // Original error properties preserved
}

#[test]
fn test_register_and_retrieve_code() {
    let mut registry = ErrorRegistry::new();

    // Register a new error code with metadata
    let _ = register_error_code(
        &mut registry,
        "TEST-001",
        "Test error code",
        Some("https://docs.example.com/errors/TEST-001"),
        true,
    );

    // Use the registered error code
    let error = AppError::network("Connection timeout", None).with_code("TEST-001");

    // Verify the code is correctly associated
    assert!(error.user_message().starts_with("[TEST-001]"));

    // The registry information should be used for retryability
    assert!(error.is_retryable_in(&registry));
}

#[test]
fn test_error_code_chaining() {
    // We can chain error codes with other error enhancements
    let error = AppError::filesystem("Permission denied", None)
        .with_status(403)
        .with_code("PERM-001")
        .with_fatal(true);

    assert!(error.user_message().contains("[PERM-001]"));
    assert!(error.is_fatal());
    assert_eq!(error.status_code(), 403);
}

#[test]
fn test_duplicate_registration() {
    let mut registry = ErrorRegistry::new();

    // First registration should succeed
    let result1 = register_error_code(&mut registry, "UNIQUE-001", "First registration", None, false);

    // Second registration with same code should fail
    let result2 = register_error_code(&mut registry, "UNIQUE-001", "Second registration", None, true);

    assert!(result1.is_ok());
    assert!(result2.is_err());
    assert!(result2.unwrap_err().contains("already registered"));
}

#[test]
fn test_error_code_in_dev_message() {
    let mut registry = ErrorRegistry::new();

    // Register with documentation URL
    let _ = register_error_code(
        &mut registry,
        "DOC-001",
        "Error with documentation",
        Some("https://example.com/docs/errors/DOC-001"),
        false,
    );

    let error = AppError::config("Missing required field").with_code("DOC-001");

    // The dev message should include the documentation URL
    let dev_message = error.dev_message_in(&registry);
    assert!(dev_message.contains("[DOC-001]"));
    assert!(dev_message.contains("https://example.com/docs/errors/DOC-001"));
}

#[test]
fn test_registry_lookup_misses() {
    let mut registry = ErrorRegistry::new();
    assert!(!registry.is_registered("NOPE-001"));
    assert!(registry.get_code_info("NOPE-001").is_none());

    let _ = register_error_code(&mut registry, "YES-001", "present", None, false);
    assert!(registry.is_registered("YES-001"));
    assert!(!registry.is_registered("NOPE-001"));
}

#[test]
fn test_duplicate_registration_message() {
    let mut registry = ErrorRegistry::new();
    let _ = register_error_code(&mut registry, "DUP-001", "first", None, false);
    let second = register_error_code(&mut registry, "DUP-001", "second", None, false);
    assert_eq!(
        second.unwrap_err(),
        "Error code 'DUP-001' is already registered"
    );
}

#[test]
fn test_coded_error_builders() {
    let mut registry = ErrorRegistry::new();
    let coded = AppError::network("host", None).with_code("NET-001");

    // Without a registry entry, retryability falls back to the error itself
    assert!(coded.is_retryable_in(&registry));

    // The registry's verdict wins once the code is recorded
    let _ = register_error_code(&mut registry, "NET-001", "network failures", None, false);
    assert!(!coded.is_retryable_in(&registry));

    // with_retryable and with_status leave the tagged error unchanged
    let coded = coded.with_retryable(true).with_status(404);
    assert_eq!(coded.status_code(), 503);

    // with_fatal marks the tagged error itself
    assert!(!coded.is_fatal());
    let coded = coded.with_fatal(true);
    assert!(coded.is_fatal());

    // code_info reports the registry record
    let info = coded.code_info(&registry).unwrap();
    assert_eq!(info.code, "NET-001");
    assert_eq!(info.description, "network failures");
}
