//! Console theming for error display in command-line applications: ANSI
//! color codes around rendered error text, with a plain fallback.

use vstd::prelude::*;
use vstd::string::StringExecFns;
use crate::error::ForgeError;

verus! {

/// Color theme for console error output.
pub struct ConsoleTheme {
    error_color: String,
    warning_color: String,
    info_color: String,
    success_color: String,
    caption_color: String,
    reset: String,
    bold: String,
    dim: String,
}

impl ConsoleTheme {
    pub closed spec fn spec_error_color(&self) -> Seq<char> {
        self.error_color@
    }

    pub closed spec fn spec_warning_color(&self) -> Seq<char> {
        self.warning_color@
    }

    pub closed spec fn spec_info_color(&self) -> Seq<char> {
        self.info_color@
    }

    pub closed spec fn spec_success_color(&self) -> Seq<char> {
        self.success_color@
    }

    pub closed spec fn spec_caption_color(&self) -> Seq<char> {
        self.caption_color@
    }

    pub closed spec fn spec_reset(&self) -> Seq<char> {
        self.reset@
    }

    pub closed spec fn spec_bold(&self) -> Seq<char> {
        self.bold@
    }

    pub closed spec fn spec_dim(&self) -> Seq<char> {
        self.dim@
    }

    /// The theme carries the standard ANSI color codes.
    pub open spec fn spec_is_colored(&self) -> bool {
        &&& self.spec_error_color() == "\x1b[31m"@
        &&& self.spec_warning_color() == "\x1b[33m"@
        &&& self.spec_info_color() == "\x1b[34m"@
        &&& self.spec_success_color() == "\x1b[32m"@
        &&& self.spec_caption_color() == "\x1b[36m"@
        &&& self.spec_reset() == "\x1b[0m"@
        &&& self.spec_bold() == "\x1b[1m"@
        &&& self.spec_dim() == "\x1b[2m"@
    }

    /// The theme decorates nothing.
    pub open spec fn spec_is_plain(&self) -> bool {
        &&& self.spec_error_color() == ""@
        &&& self.spec_warning_color() == ""@
        &&& self.spec_info_color() == ""@
        &&& self.spec_success_color() == ""@
        &&& self.spec_caption_color() == ""@
        &&& self.spec_reset() == ""@
        &&& self.spec_bold() == ""@
        &&& self.spec_dim() == ""@
    }

    /// Create a new theme, with colors when the standard error stream is a
    /// terminal and plain text otherwise.
    pub fn new() -> (r: Self)
        ensures
            r.spec_is_colored() || r.spec_is_plain(),
    {
        if stderr_is_tty() {
            Self::with_colors()
        } else {
            Self::plain()
        }
    }

    /// Create a new theme with colors forced on.
    pub fn with_colors() -> (r: Self)
        ensures
            r.spec_is_colored(),
    {
        ConsoleTheme {
            error_color: String::from_str("\x1b[31m"),
            warning_color: String::from_str("\x1b[33m"),
            info_color: String::from_str("\x1b[34m"),
            success_color: String::from_str("\x1b[32m"),
            caption_color: String::from_str("\x1b[36m"),
            reset: String::from_str("\x1b[0m"),
            bold: String::from_str("\x1b[1m"),
            dim: String::from_str("\x1b[2m"),
        }
    }

    /// Create a new theme with no colors (plain text).
    pub fn plain() -> (r: Self)
        ensures
            r.spec_is_plain(),
    {
        proof {
            reveal_strlit("");
            assert(""@ =~= Seq::<char>::empty());
        }
        ConsoleTheme {
            error_color: String::new(),
            warning_color: String::new(),
            info_color: String::new(),
            success_color: String::new(),
            caption_color: String::new(),
            reset: String::new(),
            bold: String::new(),
            dim: String::new(),
        }
    }

    /// Format an error message with the error color.
    pub fn error(&self, text: &str) -> (r: String)
        ensures
            r@ == self.spec_error_color() + text@ + self.spec_reset(),
    {
        self.paint(&self.error_color, text)
    }

    /// Format a warning message with the warning color.
    pub fn warning(&self, text: &str) -> (r: String)
        ensures
            r@ == self.spec_warning_color() + text@ + self.spec_reset(),
    {
        self.paint(&self.warning_color, text)
    }

    /// Format an info message with the info color.
    pub fn info(&self, text: &str) -> (r: String)
        ensures
            r@ == self.spec_info_color() + text@ + self.spec_reset(),
    {
        self.paint(&self.info_color, text)
    }

    /// Format a success message with the success color.
    pub fn success(&self, text: &str) -> (r: String)
        ensures
            r@ == self.spec_success_color() + text@ + self.spec_reset(),
    {
        self.paint(&self.success_color, text)
    }

    /// Format a caption with the caption color.
    pub fn caption(&self, text: &str) -> (r: String)
        ensures
            r@ == self.spec_caption_color() + text@ + self.spec_reset(),
    {
        self.paint(&self.caption_color, text)
    }

    /// Format text as bold.
    pub fn bold(&self, text: &str) -> (r: String)
        ensures
            r@ == self.spec_bold() + text@ + self.spec_reset(),
    {
        self.paint(&self.bold, text)
    }

    /// Format text as dim.
    pub fn dim(&self, text: &str) -> (r: String)
        ensures
            r@ == self.spec_dim() + text@ + self.spec_reset(),
    {
        self.paint(&self.dim, text)
    }

    fn paint(&self, color: &String, text: &str) -> (r: String)
        ensures
            r@ == color@ + text@ + self.spec_reset(),
    {
        let mut s = color.clone();
        s.append(text);
        s.append(self.reset.as_str());
        proof {
            assert(s@ =~= color@ + text@ + self.spec_reset());
        }
        s
    }

    /// The structured rendering of an error: caption line, message line,
    /// retryability line, and a cause line when a source is recorded.
    pub open spec fn spec_format_error<E: ForgeError>(&self, err: &E) -> Seq<char> {
        let caption_line = self.spec_caption_color() + "⚠️  "@ + err.spec_caption()
            + self.spec_reset() + "\n"@;
        let message_line = self.spec_error_color() + err.spec_user_message() + self.spec_reset()
            + "\n"@;
        let verdict = if err.spec_is_retryable() {
            self.spec_success_color() + "Yes"@ + self.spec_reset()
        } else {
            self.spec_error_color() + "No"@ + self.spec_reset()
        };
        let retry_line = self.spec_dim() + "Retryable: "@ + verdict + self.spec_reset() + "\n"@;
        let source_line = match err.spec_source_message() {
            Some(src) => self.spec_dim() + "Caused by: "@ + self.spec_error_color() + src
                + self.spec_reset() + self.spec_reset() + "\n"@,
            None => Seq::<char>::empty(),
        };
        caption_line + message_line + retry_line + source_line
    }

    /// Format an error display in a structured way.
    #[verifier::rlimit(50)]
    pub fn format_error<E: ForgeError>(&self, err: &E) -> (r: String)
        ensures
            r@ == self.spec_format_error(err),
    {
        let mut s = self.caption_color.clone();
        s.append("⚠️  ");
        s.append(err.caption());
        s.append(self.reset.as_str());
        s.append("\n");
        s.append(self.error_color.as_str());
        let um = err.user_message();
        s.append(um.as_str());
        s.append(self.reset.as_str());
        s.append("\n");
        s.append(self.dim.as_str());
        s.append("Retryable: ");
        if err.is_retryable() {
            s.append(self.success_color.as_str());
            s.append("Yes");
        } else {
            s.append(self.error_color.as_str());
            s.append("No");
        }
        s.append(self.reset.as_str());
        s.append(self.reset.as_str());
        s.append("\n");
        match err.source_message() {
            Some(src) => {
                s.append(self.dim.as_str());
                s.append("Caused by: ");
                s.append(self.error_color.as_str());
                s.append(src.as_str());
                s.append(self.reset.as_str());
                s.append(self.reset.as_str());
                s.append("\n");
            },
            None => {},
        }
        proof {
            assert(s@ =~= self.spec_format_error(err));
        }
        s
    }
}

impl Default for ConsoleTheme {
    /// The auto-detecting theme: colored on a terminal, plain otherwise.
    fn default() -> (r: Self)
        ensures
            r.spec_is_colored() || r.spec_is_plain(),
    {
        ConsoleTheme::new()
    }
}

/// Relies on atty::is: reports whether the standard error stream is
/// attached to a terminal. The answer depends on the environment, so
/// nothing is promised of it.
#[verifier::external_body]
fn stderr_is_tty() -> bool {
    atty::is(atty::Stream::Stderr)
}

} // verus!
