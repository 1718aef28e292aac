//! Punctuation.
use crate::error::{Error, ErrorText, Text};
use crate::stream::{
    eos_error, mismatch_error, one_token_match, DiagDisplay, FromStream, MatchResult,
    MatchStream, StreamLike, StreamState, StreamView,
};
use crate::text::string_of_char;
use crate::tokens::{TokenTree, Tree};
use proc_macro2::Span;
use vstd::prelude::*;
use vstd::std_specs::cmp::PartialEqSpecImpl;
use vstd::string::*;

verus! {

/// A piece of punctuation (e.g. `!`, `.`, `:`).
///
/// See also [`punct`](crate::punct) for helpers.
#[derive(Debug, Clone, Copy)]
pub struct Punct {
    /// The character.
    pub ch: char,
    /// Where it was found.
    pub span: Span,
}

/// The token is the punctuation character `c`.
pub open spec fn is_punct(t: Tree, c: char) -> bool {
    t matches Tree::Punct { ch, .. } && ch == c
}

impl FromStream for Punct {
    type Output = Self;

    open spec fn parse_requires() -> bool {
        true
    }

    open spec fn productive() -> bool {
        true
    }

    open spec fn parses(before: StreamState, res: Result<Self, Error>, after: StreamState) -> bool {
        match before.nth(0) {
            None => {
                &&& after == before
                &&& res matches Err(e)
                &&& eos_error(e, Text::Plain("punctuation"@), before)
            },
            Some(Tree::Punct { ch, span, .. }) => {
                &&& after == before.popped()
                &&& res matches Ok(p)
                &&& p.ch == ch
                &&& p.span == span
            },
            Some(t) => {
                &&& after == before
                &&& res matches Err(e)
                &&& mismatch_error(e, Text::Plain("punctuation"@), t)
            },
        }
    }

    fn from_stream<S: StreamLike>(stream: &mut S) -> (res: Result<Self, Error>) {
        proof {
            reveal_strlit("punctuation");
        }
        let tok = match stream.peek() {
            Some(tt) => tt,
            None => {
                return Err(stream.err_eos(ErrorText::Plain(String::from_str("punctuation"))));
            },
        };
        if let TokenTree::Punct(p) = tok {
            let ch = p.ch;
            let span = p.span;
            stream.pop();
            Ok(Punct { ch, span })
        } else {
            Err(
                Error::new(
                    ErrorText::Plain(String::from_str("punctuation")),
                    ErrorText::Backticks(tok.to_string()),
                    tok.span(),
                ),
            )
        }
    }
}

impl MatchStream for Punct {
    open spec fn matches(&self, st: StreamState, res: MatchResult) -> bool {
        one_token_match(st, res, |t: Tree| is_punct(t, self.ch))
    }

    fn match_stream<S: StreamLike>(&self, stream: StreamView<'_, S>) -> (res: MatchResult) {
        match_punct(self.ch, stream)
    }
}

impl DiagDisplay for Punct {
    open spec fn diag(&self) -> Option<Seq<char>> {
        Some(seq![self.ch])
    }

    fn diag_string(&self) -> (s: String) {
        string_of_char(self.ch)
    }
}

/// Parsing the punctuation character `c`, run on a stream in state `before`,
/// may give `res` and leave the stream in state `after`.
pub open spec fn punct_parses<O>(c: char, before: StreamState, res: Result<O, Error>, after: StreamState) -> bool {
    match before.nth(0) {
        None => {
            &&& after == before
            &&& res matches Err(e)
            &&& eos_error(e, Text::Backticks(seq![c]), before)
        },
        Some(t) => if is_punct(t, c) {
            &&& after == before.popped()
            &&& res is Ok
        } else {
            &&& after == before
            &&& res matches Err(e)
            &&& mismatch_error(e, Text::Backticks(seq![c]), t)
        },
    }
}

/// Parses the punctuation character `c`.
pub fn parse_punct<S: StreamLike>(c: char, stream: &mut S) -> (res: Result<(), Error>)
    requires
        (*old(stream)).inv(),
    ensures
        (*final(stream)).inv(),
        punct_parses(c, (*old(stream)).state(), res, (*final(stream)).state()),
{
    let tok = match stream.peek() {
        Some(tt) => tt,
        None => {
            return Err(stream.err_eos(ErrorText::Backticks(string_of_char(c))));
        },
    };
    if let TokenTree::Punct(p) = tok {
        if p.ch == c {
            stream.pop();
            return Ok(());
        }
    }
    Err(Error::new(ErrorText::Backticks(string_of_char(c)), ErrorText::Backticks(tok.to_string()), tok.span()))
}

/// Matches the punctuation character `c`.
pub fn match_punct<S: StreamLike>(c: char, stream: StreamView<'_, S>) -> (res: MatchResult)
    requires
        stream.inv(),
    ensures
        one_token_match(stream.state(), res, |t: Tree| is_punct(t, c)),
        (*final(stream.stream)).inv(),
        (*final(stream.stream)).state() == (*old(stream.stream)).state(),
{
    let mut stream = stream;
    let tok = stream.peek_or()?;
    if let TokenTree::Punct(p) = tok {
        if p.ch == c {
            return Ok(1);
        }
    }
    Err(Some(tok.to_string()))
}

impl PartialEq for Punct {
    /// Compares the character only, not where it was found.
    fn eq(&self, rhs: &Self) -> (r: bool) {
        self.ch == rhs.ch
    }
}

impl PartialEqSpecImpl for Punct {
    open spec fn obeys_eq_spec() -> bool {
        true
    }

    open spec fn eq_spec(&self, rhs: &Self) -> bool {
        self.ch == rhs.ch
    }
}

impl Eq for Punct {}

impl core::hash::Hash for Punct {
    /// Hashes the character only, as `==` compares it; this is `char`'s own
    /// hash, and nothing is stated of it.
    #[verifier::external_body]
    fn hash<H: core::hash::Hasher>(&self, state: &mut H) {
        self.ch.hash(state)
    }
}

} // verus!
