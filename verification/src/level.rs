//! Severity levels for centralized error handling, and the context record
//! handed to error hooks.

use vstd::prelude::*;
use crate::text::str_eq;

verus! {

/// Severity of an error, from least to most severe.
#[derive(Clone, Copy, PartialEq, Eq, Structural, Debug)]
pub enum ErrorLevel {
    /// Information-level errors (least severe).
    Info,
    /// Warning-level errors (moderate severity).
    Warning,
    /// Error-level errors (high severity).
    Error,
    /// Critical-level errors (most severe).
    Critical,
}

/// Error context passed to registered hooks.
pub struct ErrorContext<'a> {
    /// The error caption.
    pub caption: &'a str,
    /// The error kind.
    pub kind: &'a str,
    /// The error level.
    pub level: ErrorLevel,
    /// Whether the error is fatal.
    pub is_fatal: bool,
    /// Whether the error can be retried.
    pub is_retryable: bool,
}

impl ErrorLevel {
    /// The level assigned to a freshly created error when it is reported
    /// to a hook: fatal errors are critical, non-retryable ones are errors,
    /// the "Warning" kind is a warning, everything else is informational.
    pub open spec fn spec_for_hook(kind: Seq<char>, is_fatal: bool, is_retryable: bool) -> ErrorLevel {
        if is_fatal {
            ErrorLevel::Critical
        } else if !is_retryable {
            ErrorLevel::Error
        } else if kind == "Warning"@ {
            ErrorLevel::Warning
        } else {
            ErrorLevel::Info
        }
    }

    /// Classify an error for hook reporting.
    pub fn for_hook(kind: &str, is_fatal: bool, is_retryable: bool) -> (r: ErrorLevel)
        ensures
            r == Self::spec_for_hook(kind@, is_fatal, is_retryable),
    {
        if is_fatal {
            ErrorLevel::Critical
        } else if !is_retryable {
            ErrorLevel::Error
        } else if str_eq(kind, "Warning") {
            ErrorLevel::Warning
        } else {
            ErrorLevel::Info
        }
    }

    /// The level used when logging an error: fatal errors are critical,
    /// non-retryable ones are errors, retryable ones only warnings.
    pub open spec fn spec_for_log(is_fatal: bool, is_retryable: bool) -> ErrorLevel {
        if is_fatal {
            ErrorLevel::Critical
        } else if !is_retryable {
            ErrorLevel::Error
        } else {
            ErrorLevel::Warning
        }
    }

    /// Classify an error for logging.
    pub fn for_log(is_fatal: bool, is_retryable: bool) -> (r: ErrorLevel)
        ensures
            r == Self::spec_for_log(is_fatal, is_retryable),
    {
        if is_fatal {
            ErrorLevel::Critical
        } else if !is_retryable {
            ErrorLevel::Error
        } else {
            ErrorLevel::Warning
        }
    }
}

} // verus!
