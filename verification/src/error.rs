//! Parse errors and how they read.
use proc_macro2::Span;
use vstd::prelude::*;
use vstd::string::*;

verus! {

/// The text for an [`Error`].
#[derive(Debug, Clone)]
pub enum ErrorText {
    /// Renders as `"end of stream"`.
    EndOfStream,
    /// Renders as `"token"`.
    Token,
    /// Renders without markup.
    Plain(String),
    /// Renders surrounded by backticks.
    Backticks(String),
}

/// The value of an [`ErrorText`].
pub enum Text {
    EndOfStream,
    Token,
    Plain(Seq<char>),
    Backticks(Seq<char>),
}

impl View for ErrorText {
    type V = Text;

    open spec fn view(&self) -> Text {
        match self {
            ErrorText::EndOfStream => Text::EndOfStream,
            ErrorText::Token => Text::Token,
            ErrorText::Plain(s) => Text::Plain(s@),
            ErrorText::Backticks(s) => Text::Backticks(s@),
        }
    }
}

/// How an error text reads.
pub open spec fn text_string(t: Text) -> Seq<char> {
    match t {
        Text::EndOfStream => "end of stream"@,
        Text::Token => "token"@,
        Text::Plain(s) => s,
        Text::Backticks(s) => "`"@ + s + "`"@,
    }
}

/// How an error reads: `expected <expected>, got <got>`.
pub open spec fn error_string(expected: Text, got: Text) -> Seq<char> {
    "expected "@ + text_string(expected) + ", got "@ + text_string(got)
}

/// `e` is a recoverable error that expected `expected`, got `got`, at `at`.
pub open spec fn error_is(e: Error, expected: Text, got: Text, at: Span) -> bool {
    &&& e.expected@ == expected
    &&& e.got@ == got
    &&& !e.fatal
    &&& e.at == at
}

impl ErrorText {
    /// The text as it reads in a diagnostic.
    pub fn to_string(&self) -> (s: String)
        ensures
            s@ == text_string(self@),
    {
        match self {
            ErrorText::EndOfStream => {
                proof {
                    reveal_strlit("end of stream");
                }
                String::from_str("end of stream")
            },
            ErrorText::Token => {
                proof {
                    reveal_strlit("token");
                }
                String::from_str("token")
            },
            ErrorText::Plain(s) => s.clone(),
            ErrorText::Backticks(s) => {
                proof {
                    reveal_strlit("`");
                }
                String::from_str("`").concat(s.as_str()).concat("`")
            },
        }
    }
}

/// An error that occured while parsing a [`Stream`](crate::Stream).
#[derive(Debug, Clone)]
pub struct Error {
    /// The expected data.
    pub expected: ErrorText,
    /// The found data.
    pub got: ErrorText,
    /// Whether or not the error is recoverable.
    ///
    /// If `true`, it must be bubbled up: no other parsing path may be tried.
    pub fatal: bool,
    /// The location at which the error was encountered.
    pub at: Span,
}

impl Error {
    /// Create a new, recoverable error.
    pub fn new(expected: ErrorText, got: ErrorText, at: Span) -> (e: Self)
        ensures
            e.expected == expected,
            e.got == got,
            !e.fatal,
            e.at == at,
    {
        Error { expected, got, fatal: false, at }
    }

    /// Flags this error as fatal.
    ///
    /// Fatal errors must not be recovered from. If you encounter a fatal error,
    /// you must return it untouched.
    pub fn fatal(self) -> (e: Self)
        ensures
            e == (Error { fatal: true, ..self }),
    {
        let mut e = self;
        e.fatal = true;
        e
    }

    /// Flags this error as fatal or not fatal.
    pub fn with_fatal(self, fatal: bool) -> (e: Self)
        ensures
            e == (Error { fatal, ..self }),
    {
        let mut e = self;
        e.fatal = fatal;
        e
    }

    /// The diagnostic message: `expected <expected>, got <got>`.
    pub fn to_string(&self) -> (s: String)
        ensures
            s@ == error_string(self.expected@, self.got@),
    {
        proof {
            reveal_strlit("expected ");
            reveal_strlit(", got ");
        }
        let e = self.expected.to_string();
        let g = self.got.to_string();
        String::from_str("expected ").concat(e.as_str()).concat(", got ").concat(g.as_str())
    }
}

} // verus!
