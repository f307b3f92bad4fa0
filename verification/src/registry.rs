//! A registry of error codes with metadata, and errors tagged with a code.

use vstd::prelude::*;
use vstd::string::StringExecFns;
use crate::error::ForgeError;
use crate::text::str_eq;

verus! {

/// Metadata for a registered error code.
#[derive(Debug)]
pub struct ErrorCodeInfo {
    /// The error code (e.g. "AUTH-001").
    pub code: String,
    /// A human-readable description of this error type.
    pub description: String,
    /// A URL to documentation about this error, if available.
    pub documentation_url: Option<String>,
    /// Whether this error is expected to be retryable.
    pub retryable: bool,
}

impl ErrorCodeInfo {
    fn duplicate(&self) -> (r: ErrorCodeInfo)
        ensures
            r == *self,
    {
        ErrorCodeInfo {
            code: self.code.clone(),
            description: self.description.clone(),
            documentation_url: match &self.documentation_url {
                Some(u) => Some(u.clone()),
                None => None,
            },
            retryable: self.retryable,
        }
    }
}

/// Whether some entry of `s` carries the code `code`.
pub open spec fn spec_contains_code(s: Seq<ErrorCodeInfo>, code: Seq<char>) -> bool {
    exists|i: int| 0 <= i < s.len() && s[i].code@ == code
}

/// A registry mapping error codes to their metadata. Each code is held at
/// most once.
pub struct ErrorRegistry {
    codes: Vec<ErrorCodeInfo>,
}

impl View for ErrorRegistry {
    type V = Seq<ErrorCodeInfo>;

    closed spec fn view(&self) -> Seq<ErrorCodeInfo> {
        self.codes@
    }
}

impl ErrorRegistry {
    /// No two entries carry the same code.
    pub open spec fn wf(&self) -> bool {
        forall|i: int, j: int|
            0 <= i < j < self@.len() ==> self@[i].code@ != self@[j].code@
    }

    /// Create a new empty error registry.
    pub fn new() -> (r: Self)
        ensures
            r@ == Seq::<ErrorCodeInfo>::empty(),
            r.wf(),
    {
        ErrorRegistry { codes: Vec::new() }
    }

    /// Register an error code with metadata. Fails when the code is
    /// already registered; the registry is then left unchanged.
    pub fn register_code(
        &mut self,
        code: String,
        description: String,
        documentation_url: Option<String>,
        retryable: bool,
    ) -> (r: Result<(), String>)
        requires
            old(self).wf(),
        ensures
            final(self).wf(),
            spec_contains_code(old(self)@, code@) ==> (r matches Err(m) && m@ == "Error code '"@
                + code@ + "' is already registered"@ && final(self)@ == old(self)@),
            !spec_contains_code(old(self)@, code@) ==> (r is Ok && final(self)@ == old(
                self,
            )@.push(
                ErrorCodeInfo { code, description, documentation_url, retryable },
            )),
    {
        if self.is_registered(code.as_str()) {
            let mut m = String::from_str("Error code '");
            m.append(code.as_str());
            m.append("' is already registered");
            proof {
                assert(m@ =~= "Error code '"@ + code@ + "' is already registered"@);
            }
            return Err(m);
        }
        self.codes.push(ErrorCodeInfo { code, description, documentation_url, retryable });
        Ok(())
    }

    /// Get the metadata recorded for a code, if any.
    pub fn get_code_info(&self, code: &str) -> (r: Option<ErrorCodeInfo>)
        ensures
            r is Some <==> spec_contains_code(self@, code@),
            r matches Some(info) ==> exists|i: int|
                0 <= i < self@.len() && self@[i] == info && info.code@ == code@,
    {
        let n = self.codes.len();
        let mut i: usize = 0;
        while i < n
            invariant
                n == self@.len(),
                i <= n,
                forall|j: int| 0 <= j < i ==> self@[j].code@ != code@,
            decreases n - i,
        {
            if str_eq(self.codes[i].code.as_str(), code) {
                return Some(self.codes[i].duplicate());
            }
            i = i + 1;
        }
        None
    }

    /// Check whether an error code is registered.
    pub fn is_registered(&self, code: &str) -> (r: bool)
        ensures
            r == spec_contains_code(self@, code@),
    {
        let n = self.codes.len();
        let mut i: usize = 0;
        while i < n
            invariant
                n == self@.len(),
                i <= n,
                forall|j: int| 0 <= j < i ==> self@[j].code@ != code@,
            decreases n - i,
        {
            if str_eq(self.codes[i].code.as_str(), code) {
                return true;
            }
            i = i + 1;
        }
        false
    }
}

/// Register an error code in the given registry.
pub fn register_error_code(
    registry: &mut ErrorRegistry,
    code: &str,
    description: &str,
    documentation_url: Option<&str>,
    retryable: bool,
) -> (r: Result<(), String>)
    requires
        old(registry).wf(),
    ensures
        final(registry).wf(),
        spec_contains_code(old(registry)@, code@) ==> (r is Err && final(registry)@ == old(
            registry,
        )@),
        !spec_contains_code(old(registry)@, code@) ==> (r is Ok && final(registry)@.len() == old(
            registry,
        )@.len() + 1 && final(registry)@.last().code@ == code@
            && final(registry)@.last().description@ == description@
            && final(registry)@.last().retryable == retryable),
{
    let url = match documentation_url {
        Some(u) => Some(u.to_owned()),
        None => None,
    };
    registry.register_code(code.to_owned(), description.to_owned(), url, retryable)
}

/// An error tagged with an error code.
#[derive(Debug)]
pub struct CodedError<E> {
    /// The original error.
    pub error: E,
    /// The error code.
    pub code: String,
    /// Whether this error was marked fatal.
    pub fatal: bool,
}

impl<E> CodedError<E> {
    /// Tag an error with a code.
    pub fn new(error: E, code: &str) -> (r: Self)
        ensures
            r.error == error,
            r.code@ == code@,
            !r.fatal,
    {
        CodedError { error, code: code.to_owned(), fatal: false }
    }

    /// The retryability flag lives in the registry; tagging keeps the error
    /// unchanged.
    pub fn with_retryable(self, _retryable: bool) -> (r: Self)
        ensures
            r == self,
    {
        self
    }

    /// The same error with the fatality flag set.
    pub fn with_fatal(self, fatal: bool) -> (r: Self)
        ensures
            r.error == self.error,
            r.code == self.code,
            r.fatal == fatal,
    {
        CodedError { fatal, ..self }
    }

    /// The status code lives on the wrapped error; tagging keeps the error
    /// unchanged.
    pub fn with_status(self, _status: u16) -> (r: Self)
        ensures
            r == self,
    {
        self
    }

    /// Metadata recorded for this error's code in the given registry.
    pub fn code_info(&self, registry: &ErrorRegistry) -> (r: Option<ErrorCodeInfo>)
        ensures
            r is Some <==> spec_contains_code(registry@, self.code@),
            r matches Some(info) ==> exists|i: int|
                0 <= i < registry@.len() && registry@[i] == info && info.code@ == self.code@,
    {
        registry.get_code_info(self.code.as_str())
    }
}

impl<E: ForgeError> CodedError<E> {
    /// Whether the error is retryable: the registry's verdict for its code
    /// when one is recorded, the wrapped error's own flag otherwise.
    pub fn is_retryable_in(&self, registry: &ErrorRegistry) -> (r: bool)
        ensures
            spec_contains_code(registry@, self.code@) ==> exists|i: int|
                0 <= i < registry@.len() && registry@[i].code@ == self.code@ && r == registry@[i].retryable,
            !spec_contains_code(registry@, self.code@) ==> r == self.error.spec_is_retryable(),
    {
        match self.code_info(registry) {
            Some(info) => {
                proof {
                    let i = choose|i: int|
                        0 <= i < registry@.len() && registry@[i] == info && info.code@
                            == self.code@;
                    assert(registry@[i].code@ == self.code@ && info.retryable
                        == registry@[i].retryable);
                }
                info.retryable
            },
            None => self.error.is_retryable(),
        }
    }

    /// The developer-facing message, with the documentation URL from the
    /// registry appended when one is recorded for this code.
    pub fn dev_message_in(&self, registry: &ErrorRegistry) -> (r: String)
        ensures
            r@.len() >= ("["@ + self.code@ + "] "@ + self.error.spec_dev_message()).len(),
    {
        let base = self.dev_message();
        match self.code_info(registry) {
            Some(info) => match info.documentation_url {
                Some(url) => {
                    let mut s = base;
                    s.append(" (");
                    s.append(url.as_str());
                    s.append(")");
                    s
                },
                None => base,
            },
            None => base,
        }
    }
}

impl<E: ForgeError> ForgeError for CodedError<E> {
    open spec fn spec_kind(&self) -> Seq<char> {
        self.error.spec_kind()
    }

    open spec fn spec_caption(&self) -> Seq<char> {
        self.error.spec_caption()
    }

    open spec fn spec_is_retryable(&self) -> bool {
        self.error.spec_is_retryable()
    }

    open spec fn spec_is_fatal(&self) -> bool {
        self.fatal || self.error.spec_is_fatal()
    }

    open spec fn spec_status(&self) -> u16 {
        self.error.spec_status()
    }

    open spec fn spec_exit_code(&self) -> i32 {
        self.error.spec_exit_code()
    }

    open spec fn spec_user_message(&self) -> Seq<char> {
        "["@ + self.code@ + "] "@ + self.error.spec_user_message()
    }

    open spec fn spec_dev_message(&self) -> Seq<char> {
        "["@ + self.code@ + "] "@ + self.error.spec_dev_message()
    }

    open spec fn spec_source_message(&self) -> Option<Seq<char>> {
        self.error.spec_source_message()
    }

    fn kind(&self) -> (r: &'static str) {
        self.error.kind()
    }

    fn caption(&self) -> (r: &'static str) {
        self.error.caption()
    }

    fn is_retryable(&self) -> (r: bool) {
        self.error.is_retryable()
    }

    fn is_fatal(&self) -> (r: bool) {
        self.fatal || self.error.is_fatal()
    }

    fn status_code(&self) -> (r: u16) {
        self.error.status_code()
    }

    fn exit_code(&self) -> (r: i32) {
        self.error.exit_code()
    }

    fn user_message(&self) -> (r: String) {
        let mut s = String::from_str("[");
        s.append(self.code.as_str());
        s.append("] ");
        let um = self.error.user_message();
        s.append(um.as_str());
        proof {
            assert(s@ =~= self.spec_user_message());
        }
        s
    }

    fn dev_message(&self) -> (r: String) {
        let mut s = String::from_str("[");
        s.append(self.code.as_str());
        s.append("] ");
        let dm = self.error.dev_message();
        s.append(dm.as_str());
        proof {
            assert(s@ =~= self.spec_dev_message());
        }
        s
    }

    fn source_message(&self) -> (r: Option<String>) {
        self.error.source_message()
    }
}

/// Extension for tagging any error value with an error code.
pub trait WithErrorCode: Sized {
    /// Attach an error code to this error.
    fn with_code(self, code: &str) -> (r: CodedError<Self>)
        ensures
            r.error == self,
            r.code@ == code@,
            !r.fatal,
    ;
}

impl<E> WithErrorCode for E {
    fn with_code(self, code: &str) -> (r: CodedError<E>) {
        CodedError::new(self, code)
    }
}

} // verus!
