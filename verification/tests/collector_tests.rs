use error_forge::AppError;
use error_forge::CollectError;
use error_forge::ErrorCollector;
use error_forge::ForgeError;

#[test]
fn test_error_collector() {
    let mut collector = ErrorCollector::new();

    assert!(collector.is_empty());

    collector.push(AppError::config("Config error"));
    collector.push(AppError::filesystem("File not found", None));

    assert_eq!(collector.len(), 2);

    let result: Result<(), _> = collector.into_result(());
    assert!(result.is_err());
}

#[test]
fn test_collect_error() {
    let mut collector = ErrorCollector::new();

    let result1: Result<i32, AppError> = Ok(42);
    let result2: Result<i32, AppError> = Err(AppError::network("Connection failed", None));

    let val1 = result1.collect_err(&mut collector);
    let val2 = result2.collect_err(&mut collector);

    assert_eq!(val1, Some(42));
    assert_eq!(val2, None);
    assert_eq!(collector.len(), 1);
}

#[test]
fn test_forge_error_collector() {
    let mut collector = ErrorCollector::new();

    collector.push(AppError::config("Config error").with_fatal(true));
    collector.push(AppError::network("Connection failed", None).with_retryable(true));

    assert!(collector.has_fatal());
    assert!(!collector.all_retryable());

    let summary = collector.summary();
    assert!(summary.contains("2 errors collected (1 fatal, 1 retryable)"));
    assert!(summary.contains("[Config]"));
    assert!(summary.contains("[Network]"));
}

#[test]
fn test_empty_collector() {
    let collector: ErrorCollector<AppError> = ErrorCollector::new();

    assert!(collector.is_empty());
    assert_eq!(collector.len(), 0);

    // An empty collector should return Ok for into_result
    let result: Result<(), _> = collector.into_result(());
    assert!(result.is_ok());
}

#[test]
fn test_collector_with_errors() {
    let mut collector = ErrorCollector::new();

    collector.push(AppError::config("Missing config file"));
    collector.push(AppError::network("Connection timeout", None));

    assert!(!collector.is_empty());
    assert_eq!(collector.len(), 2);

    // A collector with errors should return Err for into_result
    let result: Result<i32, _> = collector.into_result(42);
    assert!(result.is_err());
}

#[test]
fn test_collector_summary() {
    let mut collector = ErrorCollector::new();

    collector.push(AppError::config("Invalid setting").with_fatal(true));
    collector.push(AppError::network("Connection timeout", None).with_retryable(true));

    let summary = collector.summary();

    // Summary should contain error counts and details
    assert!(summary.contains("2 errors collected"));
    assert!(summary.contains("1 fatal"));
    assert!(summary.contains("1 retryable"));
    assert!(summary.contains("[Config]"));
    assert!(summary.contains("[Network]"));
}

#[test]
fn test_collector_display() {
    let mut collector = ErrorCollector::new();

    // Test with one error
    collector.push(AppError::config("Missing config"));
    assert!(collector.display_string().contains("1 error:"));
    assert!(collector.display_string().contains("Missing config"));

    // Test with multiple errors
    collector.push(AppError::filesystem("File not found", None));
    let display = collector.display_string();
    assert!(display.contains("2 errors:"));
    assert!(display.contains("1. "));
    assert!(display.contains("2. "));
}

#[test]
fn test_collect_error_extension() {
    let mut collector = ErrorCollector::new();

    // Test successful result
    let ok_result: Result<i32, AppError> = Ok(42);
    let value = ok_result.collect_err(&mut collector);
    assert_eq!(value, Some(42));
    assert!(collector.is_empty());

    // Test error result
    let err_result: Result<i32, AppError> = Err(AppError::config("Failed"));
    let value = err_result.collect_err(&mut collector);
    assert_eq!(value, None);
    assert_eq!(collector.len(), 1);
}

#[test]
fn test_try_collect_method() {
    let mut collector = ErrorCollector::new();

    // Test successful operation
    let success = collector.try_collect(|| Ok::<_, AppError>(42));
    assert_eq!(success, Some(42));

    // Test failed operation
    let failure = collector.try_collect(|| Err::<i32, _>(AppError::config("Failed")));
    assert_eq!(failure, None);

    assert_eq!(collector.len(), 1);
}

#[test]
fn test_fatal_and_retryable_detection() {
    let mut collector = ErrorCollector::new();

    // Add non-fatal, retryable error
    collector.push(AppError::network("Timeout", None).with_retryable(true));
    assert!(!collector.has_fatal());
    assert!(collector.all_retryable());

    // Add fatal error
    collector.push(AppError::config("Critical error").with_fatal(true));
    assert!(collector.has_fatal());
    assert!(!collector.all_retryable());
}

#[test]
fn test_collector_extend_and_access() {
    let mut a = ErrorCollector::new();
    a.push(AppError::config("first"));
    let b = ErrorCollector::new().with(AppError::other("second"));

    a.extend(b);
    assert_eq!(a.len(), 2);
    assert_eq!(a.errors().len(), 2);
    assert_eq!(a.errors()[0].kind(), "Config");
    assert_eq!(a.errors()[1].kind(), "Other");

    a.errors_mut().pop();
    assert_eq!(a.len(), 1);

    let result: Result<i32, _> = a.result(7);
    assert!(result.is_err());

    let errors = a.into_errors();
    assert_eq!(errors.len(), 1);
}

#[test]
fn test_empty_collector_summary_and_display() {
    let collector: ErrorCollector<AppError> = ErrorCollector::new();
    assert_eq!(collector.summary(), "No errors");
    assert_eq!(collector.display_string(), "No errors");
}
