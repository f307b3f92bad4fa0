//! Contextual wrapping of errors: attach a description of what was being
//! attempted when an underlying error occurred.

use vstd::prelude::*;
use vstd::string::StringExecFns;
use crate::error::AppError;
use crate::error::ForgeError;

verus! {

/// A wrapper that attaches contextual information to an error.
#[derive(Debug)]
pub struct ContextError<E, C> {
    /// The original error.
    pub error: E,
    /// The context attached to the error.
    pub context: C,
}

impl<E, C> ContextError<E, C> {
    /// Create a new context error wrapping the original error.
    pub fn new(error: E, context: C) -> (r: Self)
        ensures
            r.error == error,
            r.context == context,
    {
        ContextError { error, context }
    }

    /// Extract the original error, discarding the context.
    pub fn into_error(self) -> (r: E)
        ensures
            r == self.error,
    {
        self.error
    }

    /// Map the context to a new type using the provided function.
    pub fn map_context<D, F: FnOnce(C) -> D>(self, f: F) -> (r: ContextError<E, D>)
        requires
            call_requires(f, (self.context,)),
        ensures
            r.error == self.error,
            call_ensures(f, (self.context,), r.context),
    {
        let ContextError { error, context } = self;
        ContextError { error, context: f(context) }
    }

    /// Add another layer of context to this error.
    pub fn context<D>(self, context: D) -> (r: ContextError<Self, D>)
        ensures
            r.error == self,
            r.context == context,
    {
        ContextError::new(self, context)
    }
}

impl<E: ForgeError> ForgeError for ContextError<E, String> {
    open spec fn spec_kind(&self) -> Seq<char> {
        self.error.spec_kind()
    }

    open spec fn spec_caption(&self) -> Seq<char> {
        self.error.spec_caption()
    }

    open spec fn spec_is_retryable(&self) -> bool {
        self.error.spec_is_retryable()
    }

    open spec fn spec_is_fatal(&self) -> bool {
        self.error.spec_is_fatal()
    }

    open spec fn spec_status(&self) -> u16 {
        self.error.spec_status()
    }

    open spec fn spec_exit_code(&self) -> i32 {
        self.error.spec_exit_code()
    }

    open spec fn spec_user_message(&self) -> Seq<char> {
        self.context@ + ": "@ + self.error.spec_user_message()
    }

    open spec fn spec_dev_message(&self) -> Seq<char> {
        self.context@ + ": "@ + self.error.spec_dev_message()
    }

    open spec fn spec_source_message(&self) -> Option<Seq<char>> {
        self.error.spec_source_message()
    }

    fn kind(&self) -> (r: &'static str) {
        self.error.kind()
    }

    fn caption(&self) -> (r: &'static str) {
        self.error.caption()
    }

    fn is_retryable(&self) -> (r: bool) {
        self.error.is_retryable()
    }

    fn is_fatal(&self) -> (r: bool) {
        self.error.is_fatal()
    }

    fn status_code(&self) -> (r: u16) {
        self.error.status_code()
    }

    fn exit_code(&self) -> (r: i32) {
        self.error.exit_code()
    }

    fn user_message(&self) -> (r: String) {
        let mut s = self.context.clone();
        s.append(": ");
        let um = self.error.user_message();
        s.append(um.as_str());
        proof {
            assert(s@ =~= self.spec_user_message());
        }
        s
    }

    fn dev_message(&self) -> (r: String) {
        let mut s = self.context.clone();
        s.append(": ");
        let dm = self.error.dev_message();
        s.append(dm.as_str());
        proof {
            assert(s@ =~= self.spec_dev_message());
        }
        s
    }

    fn source_message(&self) -> (r: Option<String>) {
        self.error.source_message()
    }
}

impl<E: ForgeError> ForgeError for ContextError<E, &'static str> {
    open spec fn spec_kind(&self) -> Seq<char> {
        self.error.spec_kind()
    }

    open spec fn spec_caption(&self) -> Seq<char> {
        self.error.spec_caption()
    }

    open spec fn spec_is_retryable(&self) -> bool {
        self.error.spec_is_retryable()
    }

    open spec fn spec_is_fatal(&self) -> bool {
        self.error.spec_is_fatal()
    }

    open spec fn spec_status(&self) -> u16 {
        self.error.spec_status()
    }

    open spec fn spec_exit_code(&self) -> i32 {
        self.error.spec_exit_code()
    }

    open spec fn spec_user_message(&self) -> Seq<char> {
        self.context@ + ": "@ + self.error.spec_user_message()
    }

    open spec fn spec_dev_message(&self) -> Seq<char> {
        self.context@ + ": "@ + self.error.spec_dev_message()
    }

    open spec fn spec_source_message(&self) -> Option<Seq<char>> {
        self.error.spec_source_message()
    }

    fn kind(&self) -> (r: &'static str) {
        self.error.kind()
    }

    fn caption(&self) -> (r: &'static str) {
        self.error.caption()
    }

    fn is_retryable(&self) -> (r: bool) {
        self.error.is_retryable()
    }

    fn is_fatal(&self) -> (r: bool) {
        self.error.is_fatal()
    }

    fn status_code(&self) -> (r: u16) {
        self.error.status_code()
    }

    fn exit_code(&self) -> (r: i32) {
        self.error.exit_code()
    }

    fn user_message(&self) -> (r: String) {
        let mut s = String::from_str(self.context);
        s.append(": ");
        let um = self.error.user_message();
        s.append(um.as_str());
        proof {
            assert(s@ =~= self.spec_user_message());
        }
        s
    }

    fn dev_message(&self) -> (r: String) {
        let mut s = String::from_str(self.context);
        s.append(": ");
        let dm = self.error.dev_message();
        s.append(dm.as_str());
        proof {
            assert(s@ =~= self.spec_dev_message());
        }
        s
    }

    fn source_message(&self) -> (r: Option<String>) {
        self.error.source_message()
    }
}

impl AppError {
    /// Wrap this error with the given context.
    pub fn context<C>(self, context: C) -> (r: ContextError<AppError, C>)
        ensures
            r.error == self,
            r.context == context,
    {
        ContextError::new(self, context)
    }

    /// Wrap this error with context computed by the given generator.
    pub fn with_async_context<C, F: FnOnce() -> C>(self, context_generator: F) -> (r: ContextError<
        AppError,
        C,
    >)
        requires
            call_requires(context_generator, ()),
        ensures
            r.error == self,
            call_ensures(context_generator, (), r.context),
    {
        ContextError::new(self, context_generator())
    }
}

/// Extension trait for `Result`, attaching context to the error case.
pub trait ResultExt<T, E>: Sized {
    /// The result value this extension operates on.
    spec fn spec_result(self) -> Result<T, E>;

    /// Adds context to the error variant of the result.
    fn context<C>(self, context: C) -> (r: Result<T, ContextError<E, C>>)
        ensures
            self.spec_result() matches Ok(v) ==> r matches Ok(rv) && rv == v,
            self.spec_result() matches Err(e) ==> r matches Err(ce) && ce.error == e && ce.context
                == context,
    ;

    /// Adds context computed only on error.
    fn with_context<C, F: FnOnce() -> C>(self, f: F) -> (r: Result<T, ContextError<E, C>>)
        requires
            self.spec_result() is Err ==> call_requires(f, ()),
        ensures
            self.spec_result() matches Ok(v) ==> r matches Ok(rv) && rv == v,
            self.spec_result() matches Err(e) ==> r matches Err(ce) && ce.error == e
                && call_ensures(f, (), ce.context),
    ;
}

impl<T, E> ResultExt<T, E> for Result<T, E> {
    open spec fn spec_result(self) -> Result<T, E> {
        self
    }

    fn context<C>(self, context: C) -> (r: Result<T, ContextError<E, C>>) {
        match self {
            Ok(v) => Ok(v),
            Err(error) => Err(ContextError { error, context }),
        }
    }

    fn with_context<C, F: FnOnce() -> C>(self, f: F) -> (r: Result<T, ContextError<E, C>>) {
        match self {
            Ok(v) => Ok(v),
            Err(error) => Err(ContextError { error, context: f() }),
        }
    }
}

} // verus!
