//! Accumulation of several errors into one result.

use vstd::prelude::*;
use vstd::string::StringExecFns;
use crate::error::ForgeError;
use crate::text::dec_str;
use crate::text::append_decimal;

verus! {

/// A collection of errors that can be accumulated and returned as a single
/// result.
#[derive(Debug)]
pub struct ErrorCollector<E> {
    errors: Vec<E>,
}

impl<E> View for ErrorCollector<E> {
    type V = Seq<E>;

    closed spec fn view(&self) -> Seq<E> {
        self.errors@
    }
}

impl<E> ErrorCollector<E> {
    /// Create a new empty error collector.
    pub fn new() -> (r: Self)
        ensures
            r@ == Seq::<E>::empty(),
    {
        ErrorCollector { errors: Vec::new() }
    }

    /// Add an error to the collection.
    pub fn push(&mut self, error: E)
        ensures
            final(self)@ == old(self)@.push(error),
    {
        self.errors.push(error);
    }

    /// Add an error to the collection and return self for chaining.
    pub fn with(self, error: E) -> (r: Self)
        ensures
            r@ == self@.push(error),
    {
        let mut c = self;
        c.push(error);
        c
    }

    /// Check if the collection is empty.
    pub fn is_empty(&self) -> (r: bool)
        ensures
            r == (self@.len() == 0),
    {
        self.errors.len() == 0
    }

    /// Get the number of collected errors.
    pub fn len(&self) -> (r: usize)
        ensures
            r == self@.len(),
    {
        self.errors.len()
    }

    /// A result that is `Ok` when no errors were collected, and `Err` with
    /// the collector itself otherwise.
    pub fn into_result<T>(self, ok_value: T) -> (r: Result<T, Self>)
        ensures
            self@.len() == 0 ==> (r matches Ok(v) && v == ok_value),
            self@.len() > 0 ==> (r matches Err(c) && c@ == self@),
    {
        if self.is_empty() {
            Ok(ok_value)
        } else {
            Err(self)
        }
    }

    /// A result that is `Ok` when no errors were collected, and `Err` with
    /// a reference to the collector otherwise.
    pub fn result<T>(&self, ok_value: T) -> (r: Result<T, &Self>)
        ensures
            self@.len() == 0 ==> (r matches Ok(v) && v == ok_value),
            self@.len() > 0 ==> (r matches Err(c) && c@ == self@),
    {
        if self.is_empty() {
            Ok(ok_value)
        } else {
            Err(self)
        }
    }

    /// Consume the collector and return the vector of errors.
    pub fn into_errors(self) -> (r: Vec<E>)
        ensures
            r@ == self@,
    {
        self.errors
    }

    /// A reference to the vector of errors.
    pub fn errors(&self) -> (r: &Vec<E>)
        ensures
            r@ == self@,
    {
        &self.errors
    }

    /// A mutable reference to the vector of errors.
    pub fn errors_mut(&mut self) -> (r: &mut Vec<E>)
        ensures
            r@ == old(self)@,
            final(self)@ == final(r)@,
    {
        &mut self.errors
    }

    /// Add all errors from another collector.
    pub fn extend(&mut self, other: ErrorCollector<E>)
        ensures
            final(self)@ == old(self)@ + other@,
    {
        let mut v = other.errors;
        self.errors.append(&mut v);
    }

    /// Run an operation, keeping its value on success and collecting its
    /// error on failure.
    pub fn try_collect<T, F: FnOnce() -> Result<T, E>>(&mut self, op: F) -> (r: Option<T>)
        requires
            call_requires(op, ()),
        ensures
            r matches Some(v) ==> call_ensures(op, (), Ok(v)) && final(self)@ == old(self)@,
            r is None ==> final(self)@.len() == old(self)@.len() + 1 && final(self)@ == old(
                self,
            )@.push(final(self)@.last()) && call_ensures(op, (), Err(final(self)@.last())),
    {
        match op() {
            Ok(val) => Some(val),
            Err(e) => {
                self.push(e);
                None
            },
        }
    }
}

impl<E: ForgeError> ErrorCollector<E> {
    /// The count of fatal errors among the first `i`.
    pub open spec fn spec_count_fatal(s: Seq<E>, i: int) -> nat
        decreases i,
    {
        if i <= 0 {
            0
        } else {
            Self::spec_count_fatal(s, i - 1) + if s[i - 1].spec_is_fatal() {
                1nat
            } else {
                0nat
            }
        }
    }

    /// The count of retryable errors among the first `i`.
    pub open spec fn spec_count_retryable(s: Seq<E>, i: int) -> nat
        decreases i,
    {
        if i <= 0 {
            0
        } else {
            Self::spec_count_retryable(s, i - 1) + if s[i - 1].spec_is_retryable() {
                1nat
            } else {
                0nat
            }
        }
    }

    /// The numbered detail lines of the summary, one per error, for the
    /// first `i` errors.
    pub open spec fn spec_summary_lines(s: Seq<E>, i: int) -> Seq<char>
        decreases i,
    {
        if i <= 0 {
            Seq::<char>::empty()
        } else {
            Self::spec_summary_lines(s, i - 1) + "  "@ + dec_str(i as nat) + ". ["@ + s[i
                - 1].spec_kind() + "] "@ + s[i - 1].spec_dev_message() + "\n"@
        }
    }

    /// The full summary text for a non-empty collection.
    pub open spec fn spec_summary(s: Seq<E>) -> Seq<char> {
        dec_str(s.len()) + " errors collected ("@ + dec_str(Self::spec_count_fatal(s, s.len() as int))
            + " fatal, "@ + dec_str(Self::spec_count_retryable(s, s.len() as int)) + " retryable):\n"@
            + Self::spec_summary_lines(s, s.len() as int)
    }

    /// A human-readable summary of the collected errors: a header with
    /// counts, then one numbered line per error.
    pub fn summary(&self) -> (r: String)
        ensures
            self@.len() == 0 ==> r@ == "No errors"@,
            self@.len() > 0 ==> r@ == Self::spec_summary(self@),
    {
        let n = self.errors.len();
        if n == 0 {
            let s = String::from_str("No errors");
            return s;
        }
        let mut fatal_count: usize = 0;
        let mut retryable_count: usize = 0;
        let mut i: usize = 0;
        while i < n
            invariant
                n == self@.len(),
                i <= n,
                fatal_count == Self::spec_count_fatal(self@, i as int),
                retryable_count == Self::spec_count_retryable(self@, i as int),
                fatal_count <= i,
                retryable_count <= i,
            decreases n - i,
        {
            if self.errors[i].is_fatal() {
                fatal_count = fatal_count + 1;
            }
            if self.errors[i].is_retryable() {
                retryable_count = retryable_count + 1;
            }
            i = i + 1;
        }
        let mut s = String::new();
        append_decimal(&mut s, n as u64);
        s.append(" errors collected (");
        append_decimal(&mut s, fatal_count as u64);
        s.append(" fatal, ");
        append_decimal(&mut s, retryable_count as u64);
        s.append(" retryable):\n");
        let ghost header = s@;
        let mut i: usize = 0;
        while i < n
            invariant
                n == self@.len(),
                i <= n,
                s@ == header + Self::spec_summary_lines(self@, i as int),
            decreases n - i,
        {
            s.append("  ");
            append_decimal(&mut s, (i + 1) as u64);
            s.append(". [");
            s.append(self.errors[i].kind());
            s.append("] ");
            let dm = self.errors[i].dev_message();
            s.append(dm.as_str());
            s.append("\n");
            i = i + 1;
            proof {
                assert(s@ =~= header + Self::spec_summary_lines(self@, i as int));
            }
        }
        proof {
            assert(s@ =~= Self::spec_summary(self@));
        }
        s
    }

    /// Whether any collected error is fatal.
    pub fn has_fatal(&self) -> (r: bool)
        ensures
            r == exists|i: int| 0 <= i < self@.len() && self@[i].spec_is_fatal(),
    {
        let n = self.errors.len();
        let mut i: usize = 0;
        while i < n
            invariant
                n == self@.len(),
                i <= n,
                forall|j: int| 0 <= j < i ==> !self@[j].spec_is_fatal(),
            decreases n - i,
        {
            if self.errors[i].is_fatal() {
                return true;
            }
            i = i + 1;
        }
        false
    }

    /// Whether the collection is non-empty and every error is retryable.
    pub fn all_retryable(&self) -> (r: bool)
        ensures
            r == (self@.len() > 0 && forall|i: int|
                0 <= i < self@.len() ==> self@[i].spec_is_retryable()),
    {
        let n = self.errors.len();
        if n == 0 {
            return false;
        }
        let mut i: usize = 0;
        while i < n
            invariant
                n == self@.len(),
                i <= n,
                forall|j: int| 0 <= j < i ==> self@[j].spec_is_retryable(),
            decreases n - i,
        {
            if !self.errors[i].is_retryable() {
                return false;
            }
            i = i + 1;
        }
        true
    }

    /// The numbered display lines for a collection of two or more errors,
    /// covering the first `i` errors.
    pub open spec fn spec_display_lines(s: Seq<E>, i: int) -> Seq<char>
        decreases i,
    {
        if i <= 0 {
            Seq::<char>::empty()
        } else {
            Self::spec_display_lines(s, i - 1) + "  "@ + dec_str(i as nat) + ". "@ + s[i
                - 1].spec_user_message() + "\n"@
        }
    }

    /// The display text of the collection.
    pub open spec fn spec_display(s: Seq<E>) -> Seq<char> {
        if s.len() == 0 {
            "No errors"@
        } else if s.len() == 1 {
            "1 error: "@ + s[0].spec_user_message()
        } else {
            dec_str(s.len()) + " errors:\n"@ + Self::spec_display_lines(s, s.len() as int)
        }
    }

    /// Render the collection: "No errors", a single line for one error, or
    /// a numbered list for several.
    pub fn display_string(&self) -> (r: String)
        ensures
            r@ == Self::spec_display(self@),
    {
        let n = self.errors.len();
        if n == 0 {
            String::from_str("No errors")
        } else if n == 1 {
            let mut s = String::from_str("1 error: ");
            let um = self.errors[0].user_message();
            s.append(um.as_str());
            proof {
                assert(s@ =~= Self::spec_display(self@));
            }
            s
        } else {
            let mut s = String::new();
            append_decimal(&mut s, n as u64);
            s.append(" errors:\n");
            let ghost header = s@;
            let mut i: usize = 0;
            while i < n
                invariant
                    n == self@.len(),
                    i <= n,
                    s@ == header + Self::spec_display_lines(self@, i as int),
                decreases n - i,
            {
                s.append("  ");
                append_decimal(&mut s, (i + 1) as u64);
                s.append(". ");
                let um = self.errors[i].user_message();
                s.append(um.as_str());
                s.append("\n");
                i = i + 1;
                proof {
                    assert(s@ =~= header + Self::spec_display_lines(self@, i as int));
                }
            }
            proof {
                assert(s@ =~= Self::spec_display(self@));
            }
            s
        }
    }
}

/// Extension trait for `Result`, collecting the error case into an
/// [`ErrorCollector`].
pub trait CollectError<T, E>: Sized {
    /// The result value this extension operates on.
    spec fn spec_result(self) -> Result<T, E>;

    /// Keep the success value; push the error into the collector.
    fn collect_err(self, collector: &mut ErrorCollector<E>) -> (r: Option<T>)
        ensures
            self.spec_result() matches Ok(v) ==> r matches Some(rv) && rv == v && final(collector)@
                == old(collector)@,
            self.spec_result() matches Err(e) ==> r is None && final(collector)@ == old(
                collector,
            )@.push(e),
    ;
}

impl<T, E> CollectError<T, E> for Result<T, E> {
    open spec fn spec_result(self) -> Result<T, E> {
        self
    }

    fn collect_err(self, collector: &mut ErrorCollector<E>) -> (r: Option<T>) {
        match self {
            Ok(val) => Some(val),
            Err(e) => {
                collector.push(e);
                None
            },
        }
    }
}

} // verus!
