//! The classifiable error capability and the built-in application error type.

use vstd::prelude::*;
use vstd::string::StringExecFns;

verus! {

/// Base capability shared by all rich error types: a kind tag, a caption,
/// retryability and fatality flags, protocol codes, and rendered messages.
///
/// Every executable method is pinned to a spec-level counterpart, so callers
/// can reason about what a given error reports.
pub trait ForgeError: Sized {
    /// The kind tag, typically the variant name.
    spec fn spec_kind(&self) -> Seq<char>;

    /// The human-readable caption.
    spec fn spec_caption(&self) -> Seq<char>;

    /// Whether the failed operation is worth retrying.
    spec fn spec_is_retryable(&self) -> bool;

    /// Whether the error should terminate the program.
    spec fn spec_is_fatal(&self) -> bool;

    /// The HTTP status code associated with the error.
    spec fn spec_status(&self) -> u16;

    /// The process exit code associated with the error.
    spec fn spec_exit_code(&self) -> i32;

    /// The user-facing message.
    spec fn spec_user_message(&self) -> Seq<char>;

    /// The developer-facing message.
    spec fn spec_dev_message(&self) -> Seq<char>;

    /// The message of the underlying cause, where one is recorded.
    spec fn spec_source_message(&self) -> Option<Seq<char>>;

    fn kind(&self) -> (r: &'static str)
        ensures
            r@ == self.spec_kind(),
    ;

    fn caption(&self) -> (r: &'static str)
        ensures
            r@ == self.spec_caption(),
    ;

    fn is_retryable(&self) -> (r: bool)
        ensures
            r == self.spec_is_retryable(),
    ;

    fn is_fatal(&self) -> (r: bool)
        ensures
            r == self.spec_is_fatal(),
    ;

    fn status_code(&self) -> (r: u16)
        ensures
            r == self.spec_status(),
    ;

    fn exit_code(&self) -> (r: i32)
        ensures
            r == self.spec_exit_code(),
    ;

    fn user_message(&self) -> (r: String)
        ensures
            r@ == self.spec_user_message(),
    ;

    fn dev_message(&self) -> (r: String)
        ensures
            r@ == self.spec_dev_message(),
    ;

    fn source_message(&self) -> (r: Option<String>)
        ensures
            r is Some <==> self.spec_source_message() is Some,
            r matches Some(s) ==> self.spec_source_message() matches Some(v) && s@ == v,
    ;
}

/// Optional per-value overrides of the classification defaults.
#[derive(Clone, Copy, Debug)]
pub struct ErrorMeta {
    pub fatal: Option<bool>,
    pub retryable: Option<bool>,
    pub status: Option<u16>,
}

impl ErrorMeta {
    /// No overrides: every classification falls back to the kind's default.
    pub open spec fn spec_unset() -> ErrorMeta {
        ErrorMeta { fatal: None, retryable: None, status: None }
    }

    pub fn unset() -> (r: ErrorMeta)
        ensures
            r == ErrorMeta::spec_unset(),
    {
        ErrorMeta { fatal: None, retryable: None, status: None }
    }
}

/// The built-in application error type.
#[derive(Debug)]
pub enum AppError {
    /// Configuration-related errors.
    Config { message: String, meta: ErrorMeta },
    /// Filesystem-related errors with an optional path and cause.
    Filesystem { path: Option<String>, source: Option<String>, meta: ErrorMeta },
    /// Network-related errors with an optional cause.
    Network { endpoint: String, source: Option<String>, meta: ErrorMeta },
    /// Generic errors for anything not covered by the other variants.
    Other { message: String, meta: ErrorMeta },
}

impl AppError {
    pub open spec fn spec_meta(&self) -> ErrorMeta {
        match *self {
            AppError::Config { meta, .. } => meta,
            AppError::Filesystem { meta, .. } => meta,
            AppError::Network { meta, .. } => meta,
            AppError::Other { meta, .. } => meta,
        }
    }

    /// Create a new configuration error.
    pub fn config(message: &str) -> (r: Self)
        ensures
            r matches AppError::Config { message: m, meta } && m@ == message@ && meta
                == ErrorMeta::spec_unset(),
    {
        AppError::Config { message: message.to_owned(), meta: ErrorMeta::unset() }
    }

    /// Create a new filesystem error.
    pub fn filesystem(path: &str, source: Option<String>) -> (r: Self)
        ensures
            r matches AppError::Filesystem { path: p, source: s, meta } && p matches Some(pv) && pv@
                == path@ && s == source && meta == ErrorMeta::spec_unset(),
    {
        AppError::Filesystem { path: Some(path.to_owned()), source, meta: ErrorMeta::unset() }
    }

    /// Create a new network error.
    pub fn network(endpoint: &str, source: Option<String>) -> (r: Self)
        ensures
            r matches AppError::Network { endpoint: e, source: s, meta } && e@ == endpoint@ && s
                == source && meta == ErrorMeta::spec_unset(),
    {
        AppError::Network { endpoint: endpoint.to_owned(), source, meta: ErrorMeta::unset() }
    }

    /// Create a new generic error.
    pub fn other(message: &str) -> (r: Self)
        ensures
            r matches AppError::Other { message: m, meta } && m@ == message@ && meta
                == ErrorMeta::spec_unset(),
    {
        AppError::Other { message: message.to_owned(), meta: ErrorMeta::unset() }
    }

    /// The same error with the fatality flag overridden.
    pub fn with_fatal(self, fatal: bool) -> (r: Self)
        ensures
            r.spec_is_fatal() == fatal,
            r.spec_is_retryable() == self.spec_is_retryable(),
            r.spec_status() == self.spec_status(),
            r.spec_kind() == self.spec_kind(),
            r.spec_caption() == self.spec_caption(),
            r.spec_user_message() == self.spec_user_message(),
            r.spec_source_message() == self.spec_source_message(),
    {
        match self {
            AppError::Config { message, meta } => AppError::Config {
                message,
                meta: ErrorMeta { fatal: Some(fatal), ..meta },
            },
            AppError::Filesystem { path, source, meta } => AppError::Filesystem {
                path,
                source,
                meta: ErrorMeta { fatal: Some(fatal), ..meta },
            },
            AppError::Network { endpoint, source, meta } => AppError::Network {
                endpoint,
                source,
                meta: ErrorMeta { fatal: Some(fatal), ..meta },
            },
            AppError::Other { message, meta } => AppError::Other {
                message,
                meta: ErrorMeta { fatal: Some(fatal), ..meta },
            },
        }
    }

    /// The same error with the retryability flag overridden.
    pub fn with_retryable(self, retryable: bool) -> (r: Self)
        ensures
            r.spec_is_retryable() == retryable,
            r.spec_is_fatal() == self.spec_is_fatal(),
            r.spec_status() == self.spec_status(),
            r.spec_kind() == self.spec_kind(),
            r.spec_caption() == self.spec_caption(),
            r.spec_user_message() == self.spec_user_message(),
            r.spec_source_message() == self.spec_source_message(),
    {
        match self {
            AppError::Config { message, meta } => AppError::Config {
                message,
                meta: ErrorMeta { retryable: Some(retryable), ..meta },
            },
            AppError::Filesystem { path, source, meta } => AppError::Filesystem {
                path,
                source,
                meta: ErrorMeta { retryable: Some(retryable), ..meta },
            },
            AppError::Network { endpoint, source, meta } => AppError::Network {
                endpoint,
                source,
                meta: ErrorMeta { retryable: Some(retryable), ..meta },
            },
            AppError::Other { message, meta } => AppError::Other {
                message,
                meta: ErrorMeta { retryable: Some(retryable), ..meta },
            },
        }
    }

    /// The same error with the HTTP status code overridden.
    pub fn with_status(self, status: u16) -> (r: Self)
        ensures
            r.spec_status() == status,
            r.spec_is_fatal() == self.spec_is_fatal(),
            r.spec_is_retryable() == self.spec_is_retryable(),
            r.spec_kind() == self.spec_kind(),
            r.spec_caption() == self.spec_caption(),
            r.spec_user_message() == self.spec_user_message(),
            r.spec_source_message() == self.spec_source_message(),
    {
        match self {
            AppError::Config { message, meta } => AppError::Config {
                message,
                meta: ErrorMeta { status: Some(status), ..meta },
            },
            AppError::Filesystem { path, source, meta } => AppError::Filesystem {
                path,
                source,
                meta: ErrorMeta { status: Some(status), ..meta },
            },
            AppError::Network { endpoint, source, meta } => AppError::Network {
                endpoint,
                source,
                meta: ErrorMeta { status: Some(status), ..meta },
            },
            AppError::Other { message, meta } => AppError::Other {
                message,
                meta: ErrorMeta { status: Some(status), ..meta },
            },
        }
    }
}

impl ForgeError for AppError {
    open spec fn spec_kind(&self) -> Seq<char> {
        match *self {
            AppError::Config { .. } => "Config"@,
            AppError::Filesystem { .. } => "Filesystem"@,
            AppError::Network { .. } => "Network"@,
            AppError::Other { .. } => "Other"@,
        }
    }

    open spec fn spec_caption(&self) -> Seq<char> {
        match *self {
            AppError::Config { .. } => "⚙️ Configuration"@,
            AppError::Filesystem { .. } => "💾 Filesystem"@,
            AppError::Network { .. } => "🌐 Network"@,
            AppError::Other { .. } => "🚨 Error"@,
        }
    }

    open spec fn spec_is_retryable(&self) -> bool {
        match self.spec_meta().retryable {
            Some(b) => b,
            None => self is Network,
        }
    }

    open spec fn spec_is_fatal(&self) -> bool {
        match self.spec_meta().fatal {
            Some(b) => b,
            None => !(self is Network),
        }
    }

    open spec fn spec_status(&self) -> u16 {
        match self.spec_meta().status {
            Some(c) => c,
            None => if self is Network {
                503
            } else {
                500
            },
        }
    }

    open spec fn spec_exit_code(&self) -> i32 {
        1
    }

    open spec fn spec_user_message(&self) -> Seq<char> {
        match *self {
            AppError::Config { message, .. } => "⚙️ Configuration Error: "@ + message@,
            AppError::Filesystem { path, source, .. } => {
                let cause = match source {
                    Some(s) => s@,
                    None => "File operation failed"@,
                };
                match path {
                    Some(p) => "💾 Filesystem Error at \""@ + p@ + "\": "@ + cause,
                    None => "💾 Filesystem Error: "@ + cause,
                }
            },
            AppError::Network { endpoint, source, .. } => {
                match source {
                    Some(s) => "🌐 Network Error on "@ + endpoint@ + ": "@ + s@,
                    None => "🌐 Network Error on "@ + endpoint@,
                }
            },
            AppError::Other { message, .. } => "🚨 Error: "@ + message@,
        }
    }

    open spec fn spec_dev_message(&self) -> Seq<char> {
        "["@ + self.spec_kind() + "] "@ + self.spec_user_message()
    }

    open spec fn spec_source_message(&self) -> Option<Seq<char>> {
        match *self {
            AppError::Filesystem { source, .. } => match source {
                Some(s) => Some(s@),
                None => None,
            },
            AppError::Network { source, .. } => match source {
                Some(s) => Some(s@),
                None => None,
            },
            _ => None,
        }
    }

    fn kind(&self) -> (r: &'static str) {
        match self {
            AppError::Config { .. } => "Config",
            AppError::Filesystem { .. } => "Filesystem",
            AppError::Network { .. } => "Network",
            AppError::Other { .. } => "Other",
        }
    }

    fn caption(&self) -> (r: &'static str) {
        match self {
            AppError::Config { .. } => "⚙️ Configuration",
            AppError::Filesystem { .. } => "💾 Filesystem",
            AppError::Network { .. } => "🌐 Network",
            AppError::Other { .. } => "🚨 Error",
        }
    }

    fn is_retryable(&self) -> (r: bool) {
        match self.meta_ref().retryable {
            Some(b) => b,
            None => matches!(self, AppError::Network { .. }),
        }
    }

    fn is_fatal(&self) -> (r: bool) {
        match self.meta_ref().fatal {
            Some(b) => b,
            None => !matches!(self, AppError::Network { .. }),
        }
    }

    fn status_code(&self) -> (r: u16) {
        match self.meta_ref().status {
            Some(c) => c,
            None => if matches!(self, AppError::Network { .. }) {
                503
            } else {
                500
            },
        }
    }

    fn exit_code(&self) -> (r: i32) {
        1
    }

    fn user_message(&self) -> (r: String) {
        let mut s = String::new();
        match self {
            AppError::Config { message, .. } => {
                s.append("⚙️ Configuration Error: ");
                s.append(message.as_str());
            },
            AppError::Filesystem { path, source, .. } => {
                match path {
                    Some(p) => {
                        s.append("💾 Filesystem Error at \"");
                        s.append(p.as_str());
                        s.append("\": ");
                    },
                    None => {
                        s.append("💾 Filesystem Error: ");
                    },
                }
                match source {
                    Some(src) => s.append(src.as_str()),
                    None => s.append("File operation failed"),
                }
            },
            AppError::Network { endpoint, source, .. } => {
                s.append("🌐 Network Error on ");
                s.append(endpoint.as_str());
                match source {
                    Some(src) => {
                        s.append(": ");
                        s.append(src.as_str());
                    },
                    None => {},
                }
            },
            AppError::Other { message, .. } => {
                s.append("🚨 Error: ");
                s.append(message.as_str());
            },
        }
        proof {
            assert(s@ =~= self.spec_user_message());
        }
        s
    }

    fn dev_message(&self) -> (r: String) {
        let mut s = String::from_str("[");
        s.append(self.kind());
        s.append("] ");
        let um = self.user_message();
        s.append(um.as_str());
        proof {
            assert(s@ =~= self.spec_dev_message());
        }
        s
    }

    fn source_message(&self) -> (r: Option<String>) {
        match self {
            AppError::Filesystem { source, .. } => match source {
                Some(s) => Some(s.clone()),
                None => None,
            },
            AppError::Network { source, .. } => match source {
                Some(s) => Some(s.clone()),
                None => None,
            },
            _ => None,
        }
    }
}

impl AppError {
    /// Executable access to the override record.
    fn meta_ref(&self) -> (r: &ErrorMeta)
        ensures
            *r == self.spec_meta(),
    {
        match self {
            AppError::Config { meta, .. } => meta,
            AppError::Filesystem { meta, .. } => meta,
            AppError::Network { meta, .. } => meta,
            AppError::Other { meta, .. } => meta,
        }
    }
}

} // verus!
