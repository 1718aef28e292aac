//! Identifiers.
use crate::error::{Error, ErrorText, Text};
use crate::stream::{
    eos_error, mismatch_error, one_token_match, DiagDisplay, FromStream, MatchResult, MatchStream, StreamLike,
    StreamState, StreamView,
};
use crate::tokens::{TokenTree, Tree};
use proc_macro2::Span;
use vstd::prelude::*;
use vstd::std_specs::cmp::PartialEqSpecImpl;
use vstd::string::*;

verus! {

/// An identifier.
#[derive(Debug, Clone)]
pub struct Ident {
    /// The identifier as it prints.
    pub ident: String,
    /// Where it was found.
    pub span: Span,
}

impl FromStream for Ident {
    type Output = Self;

    open spec fn parse_requires() -> bool {
        true
    }

    open spec fn productive() -> bool {
        true
    }

    open spec fn parses(before: StreamState, res: Result<Self, Error>, after: StreamState) -> bool {
        match before.nth(0) {
            None => {
                &&& after == before
                &&& res matches Err(e)
                &&& eos_error(e, Text::Plain("ident"@), before)
            },
            Some(Tree::Ident { text, span }) => {
                &&& after == before.popped()
                &&& res matches Ok(i)
                &&& i.ident@ == text
                &&& i.span == span
            },
            Some(t) => {
                &&& after == before
                &&& res matches Err(e)
                &&& mismatch_error(e, Text::Plain("ident"@), t)
            },
        }
    }

    fn from_stream<S: StreamLike>(stream: &mut S) -> (res: Result<Self, Error>) {
        proof {
            reveal_strlit("ident");
        }
        let tok = match stream.peek() {
            Some(tt) => tt,
            None => {
                return Err(stream.err_eos(ErrorText::Plain(String::from_str("ident"))));
            },
        };
        if let TokenTree::Ident(i) = tok {
            let ident = i.text.clone();
            let span = i.span;
            stream.pop();
            Ok(Ident { ident, span })
        } else {
            Err(Error::new(ErrorText::Plain(String::from_str("ident")), ErrorText::Backticks(tok.to_string()), tok.span()))
        }
    }
}

impl MatchStream for Ident {
    open spec fn matches(&self, st: StreamState, res: MatchResult) -> bool {
        one_token_match(st, res, |t: Tree| t matches Tree::Ident { text, .. } && text == self.ident@)
    }

    fn match_stream<S: StreamLike>(&self, stream: StreamView<'_, S>) -> (res: MatchResult) {
        let mut stream = stream;
        let tok = stream.peek_or()?;
        if let TokenTree::Ident(i) = tok {
            if i.text == self.ident {
                return Ok(1);
            }
        }
        Err(Some(tok.to_string()))
    }
}

impl DiagDisplay for Ident {
    open spec fn diag(&self) -> Option<Seq<char>> {
        Some(self.ident@)
    }

    fn diag_string(&self) -> (s: String) {
        self.ident.clone()
    }
}

impl PartialEq for Ident {
    /// Compares the text only, not where it was found.
    fn eq(&self, rhs: &Self) -> (r: bool) {
        self.ident == rhs.ident
    }
}

impl PartialEqSpecImpl for Ident {
    open spec fn obeys_eq_spec() -> bool {
        true
    }

    open spec fn eq_spec(&self, rhs: &Self) -> bool {
        self.ident@ == rhs.ident@
    }
}

impl Eq for Ident {}

impl core::hash::Hash for Ident {
    /// Hashes the text only, as `==` compares it; this is `str`'s own hash
    /// of the text, and nothing is stated of it.
    #[verifier::external_body]
    fn hash<H: core::hash::Hasher>(&self, state: &mut H) {
        self.ident.hash(state)
    }
}

impl<'s> PartialEq<&'s str> for Ident {
    /// Compares the text with a string.
    fn eq(&self, rhs: &&'s str) -> (r: bool) {
        self.ident == String::from_str(*rhs)
    }
}

impl<'s> PartialEqSpecImpl<&'s str> for Ident {
    open spec fn obeys_eq_spec() -> bool {
        true
    }

    open spec fn eq_spec(&self, rhs: &&'s str) -> bool {
        self.ident@ == (*rhs)@
    }
}

impl PartialEq<str> for Ident {
    /// Compares the text with a string.
    fn eq(&self, rhs: &str) -> (r: bool) {
        self.ident == String::from_str(rhs)
    }
}

impl PartialEqSpecImpl<str> for Ident {
    open spec fn obeys_eq_spec() -> bool {
        true
    }

    open spec fn eq_spec(&self, rhs: &str) -> bool {
        self.ident@ == rhs@
    }
}

} // verus!
