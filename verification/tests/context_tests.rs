use error_forge::AppError;
use error_forge::ContextError;
use error_forge::ForgeError;
use error_forge::ResultExt;

#[test]
fn test_context_error() {
    let error = AppError::config("Invalid config");
    let ctx_error = error.context("Failed to load settings");

    assert_eq!(
        ctx_error.user_message(),
        "Failed to load settings: ⚙️ Configuration Error: Invalid config"
    );
    assert_eq!(ctx_error.kind(), "Config");
    assert_eq!(ctx_error.caption(), "⚙️ Configuration");
}

#[test]
fn test_result_context() {
    let result: Result<(), AppError> = Err(AppError::config("Invalid config"));
    let ctx_result = result.context("Failed to load settings");

    assert!(ctx_result.is_err());
    let err = ctx_result.unwrap_err();
    assert_eq!(
        err.user_message(),
        "Failed to load settings: ⚙️ Configuration Error: Invalid config"
    );
}

#[test]
fn test_basic_context() {
    let error = AppError::config("Missing config file");
    let with_context = error.context("Failed to load application settings");

    assert_eq!(
        with_context.user_message(),
        "Failed to load application settings: ⚙️ Configuration Error: Missing config file"
    );
}

#[test]
fn test_context_preserves_error_properties() {
    let error = AppError::config("Database connection failed")
        .with_status(503)
        .with_retryable(true)
        .with_fatal(false);

    let with_context = error.context("Config error");

    // Context wrapper should preserve properties of the original error
    assert_eq!(with_context.status_code(), 503);
    assert!(with_context.is_retryable());
    assert!(!with_context.is_fatal());
    assert_eq!(with_context.kind(), "Config");
}

#[test]
fn test_result_context_methods() {
    // Test the context() method on Result
    let result: Result<(), AppError> = Err(AppError::config("Invalid config"));
    let with_context = result.context("Failed to load config");

    assert!(with_context.is_err());
    assert_eq!(
        with_context.unwrap_err().user_message(),
        "Failed to load config: ⚙️ Configuration Error: Invalid config"
    );

    // Test the with_context() method on Result
    let result: Result<(), AppError> = Err(AppError::network("Connection failed", None));
    let with_context = result.with_context(|| format!("Failed to connect at {}", "2025-08-17"));

    assert!(with_context.is_err());
    let err = with_context.unwrap_err();
    assert!(err.user_message().contains("Failed to connect at 2025-08-17"));
    assert!(err.user_message().contains("Connection failed"));
}

#[test]
fn test_nested_context() {
    // Create error with context - first level
    let error_with_first_context = AppError::config("Missing key").context("Failed to parse config");

    // Add another layer of context - direct construction
    let error = ContextError::new(error_with_first_context, "Failed to initialize application");

    // The context messages should be chained in the rendered representation
    assert_eq!(
        error.user_message(),
        "Failed to initialize application: Failed to parse config: ⚙️ Configuration Error: Missing key"
    );

    // But the original error properties should still be accessible
    assert_eq!(error.kind(), "Config");
}

#[test]
fn test_map_context() {
    let error = AppError::filesystem("File not found", None).context("Could not read file");

    // We can transform the context to a new type
    let new_context = error.map_context(|ctx| format!("{} (at 2025-08-17)", ctx));

    assert_eq!(
        new_context.user_message(),
        "Could not read file (at 2025-08-17): 💾 Filesystem Error at \"File not found\": File operation failed"
    );
}

#[test]
fn test_into_error_and_async_context() {
    let error = AppError::network("db.example.com", None);
    let wrapped = error.with_async_context(|| "while reconnecting".to_string());
    assert_eq!(
        wrapped.user_message(),
        "while reconnecting: 🌐 Network Error on db.example.com"
    );

    let inner = wrapped.into_error();
    assert_eq!(inner.kind(), "Network");
}
