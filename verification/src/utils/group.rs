//! Delimited groups.
use crate::error::{error_is, Error, ErrorText, Text};
use crate::stream::{
    eos_error, mismatch_error, one_token_match, DiagDisplay, FromStream, MatchResult,
    MatchStream, StreamLike, StreamState, StreamView,
};
use crate::text::string_of_char;
use crate::tokens::{Delimiter, TokenGroup, TokenStream, TokenTree, Tree};
use proc_macro2::Span;
use vstd::prelude::*;
use vstd::std_specs::convert::FromSpecImpl;
use vstd::string::*;

verus! {

/// The delimiters used by a [`Group`].
#[derive(Debug, Clone, Copy, PartialEq, Eq, Structural)]
pub enum GroupKind {
    /// A group delimited by `()`.
    Paren,
    /// A group delimited by `{}`.
    Brace,
    /// A group delimited by `[]`.
    Bracket,
}

/// The opening delimiter of a kind of group.
pub open spec fn open_char(k: GroupKind) -> char {
    match k {
        GroupKind::Paren => '(',
        GroupKind::Brace => '{',
        GroupKind::Bracket => '[',
    }
}

/// The closing delimiter of a kind of group.
pub open spec fn close_char(k: GroupKind) -> char {
    match k {
        GroupKind::Paren => ')',
        GroupKind::Brace => '}',
        GroupKind::Bracket => ']',
    }
}

/// The kind of group a delimiter makes; an invisible delimiter counts as
/// parentheses.
pub open spec fn kind_of(d: Delimiter) -> GroupKind {
    match d {
        Delimiter::Parenthesis => GroupKind::Paren,
        Delimiter::Invisible => GroupKind::Paren,
        Delimiter::Brace => GroupKind::Brace,
        Delimiter::Bracket => GroupKind::Bracket,
    }
}

/// The delimiter that makes a kind of group.
pub open spec fn delimiter_of(k: GroupKind) -> Delimiter {
    match k {
        GroupKind::Paren => Delimiter::Parenthesis,
        GroupKind::Brace => Delimiter::Brace,
        GroupKind::Bracket => Delimiter::Bracket,
    }
}

impl GroupKind {
    /// The opening delimiter for this kind of group.
    pub fn open(self) -> (c: char)
        ensures
            c == open_char(self),
    {
        match self {
            GroupKind::Paren => '(',
            GroupKind::Brace => '{',
            GroupKind::Bracket => '[',
        }
    }

    /// The closing delimiter for this kind of group.
    pub fn close(self) -> (c: char)
        ensures
            c == close_char(self),
    {
        match self {
            GroupKind::Paren => ')',
            GroupKind::Brace => '}',
            GroupKind::Bracket => ']',
        }
    }
}

impl From<Delimiter> for GroupKind {
    fn from(d: Delimiter) -> (k: Self) {
        match d {
            Delimiter::Parenthesis => GroupKind::Paren,
            Delimiter::Invisible => GroupKind::Paren,
            Delimiter::Brace => GroupKind::Brace,
            Delimiter::Bracket => GroupKind::Bracket,
        }
    }
}

impl FromSpecImpl<Delimiter> for GroupKind {
    open spec fn obeys_from_spec() -> bool {
        true
    }

    open spec fn from_spec(d: Delimiter) -> Self {
        kind_of(d)
    }
}

impl From<GroupKind> for Delimiter {
    fn from(k: GroupKind) -> (d: Self) {
        match k {
            GroupKind::Paren => Delimiter::Parenthesis,
            GroupKind::Brace => Delimiter::Brace,
            GroupKind::Bracket => Delimiter::Bracket,
        }
    }
}

impl FromSpecImpl<GroupKind> for Delimiter {
    open spec fn obeys_from_spec() -> bool {
        true
    }

    open spec fn from_spec(k: GroupKind) -> Self {
        delimiter_of(k)
    }
}

/// A group of tokens.
#[derive(Debug, Clone)]
pub struct Group {
    /// The delimiters.
    pub kind: GroupKind,
    /// The inner tokens, not including the delimiters.
    pub inner: TokenStream,
    /// The span of the whole group, delimiters included.
    pub span: Span,
    /// The span of the opening delimiter.
    pub span_open: Span,
    /// The span of the closing delimiter.
    pub span_close: Span,
}

/// `g` is the group the token `t` makes.
pub open spec fn group_from(g: Group, t: Tree) -> bool {
    match t {
        Tree::Group { delimiter, trees, inner_text, span, span_open, span_close, .. } => {
            &&& g.kind == kind_of(delimiter)
            &&& g.inner@ == (trees, inner_text)
            &&& g.span == span
            &&& g.span_open == span_open
            &&& g.span_close == span_close
        },
        _ => false,
    }
}

impl Group {
    /// The group a group token makes.
    pub fn from_token(g: &TokenGroup) -> (res: Group)
        ensures
            group_from(res, TokenTree::Group(*g)@),
    {
        Group {
            kind: GroupKind::from(g.delimiter),
            inner: g.stream.clone(),
            span: g.span,
            span_open: g.span_open,
            span_close: g.span_close,
        }
    }
}

impl FromStream for Group {
    type Output = Self;

    open spec fn parse_requires() -> bool {
        true
    }

    open spec fn productive() -> bool {
        true
    }

    open spec fn parses(before: StreamState, res: Result<Self, Error>, after: StreamState) -> bool {
        match before.nth(0) {
            None => {
                &&& after == before
                &&& res matches Err(e)
                &&& eos_error(e, Text::Plain("(, [, or {"@), before)
            },
            Some(t) => if t is Group {
                &&& after == before.popped()
                &&& res matches Ok(g)
                &&& group_from(g, t)
            } else {
                &&& after == before
                &&& res matches Err(e)
                &&& mismatch_error(e, Text::Plain("`(`, `[`, or `{`"@), t)
            },
        }
    }

    fn from_stream<S: StreamLike>(stream: &mut S) -> (res: Result<Self, Error>) {
        proof {
            reveal_strlit("(, [, or {");
            reveal_strlit("`(`, `[`, or `{`");
        }
        let tok = match stream.peek() {
            Some(tt) => tt,
            None => {
                return Err(stream.err_eos(ErrorText::Plain(String::from_str("(, [, or {"))));
            },
        };
        let result = if let TokenTree::Group(g) = tok {
            Group::from_token(g)
        } else {
            return Err(
                Error::new(
                    ErrorText::Plain(String::from_str("`(`, `[`, or `{`")),
                    ErrorText::Backticks(tok.to_string()),
                    tok.span(),
                ),
            );
        };
        stream.pop();
        Ok(result)
    }
}

impl MatchStream for Group {
    open spec fn matches(&self, st: StreamState, res: MatchResult) -> bool {
        one_token_match(
            st,
            res,
            |t: Tree|
                t matches Tree::Group { delimiter, inner_text, .. } && kind_of(delimiter) == self.kind
                    && inner_text == self.inner.text@,
        )
    }

    fn match_stream<S: StreamLike>(&self, stream: StreamView<'_, S>) -> (res: MatchResult) {
        let mut stream = stream;
        let tok = stream.peek_or()?;
        if let TokenTree::Group(g) = tok {
            if GroupKind::from(g.delimiter) == self.kind && g.stream.text == self.inner.text {
                return Ok(1);
            }
        }
        Err(Some(tok.to_string()))
    }
}

/// How a group prints in a diagnostic: its delimiters around its inner text.
pub open spec fn group_diag(k: GroupKind, inner: Seq<char>) -> Seq<char> {
    match k {
        GroupKind::Paren => "( "@ + inner + " )"@,
        GroupKind::Brace => "{ "@ + inner + " }"@,
        GroupKind::Bracket => "[ "@ + inner + " ]"@,
    }
}

impl DiagDisplay for Group {
    open spec fn diag(&self) -> Option<Seq<char>> {
        Some(group_diag(self.kind, self.inner.text@))
    }

    fn diag_string(&self) -> (s: String) {
        proof {
            reveal_strlit("( ");
            reveal_strlit(" )");
            reveal_strlit("{ ");
            reveal_strlit(" }");
            reveal_strlit("[ ");
            reveal_strlit(" ]");
        }
        let inner = self.inner.text.as_str();
        match self.kind {
            GroupKind::Paren => String::from_str("( ").concat(inner).concat(" )"),
            GroupKind::Brace => String::from_str("{ ").concat(inner).concat(" }"),
            GroupKind::Bracket => String::from_str("[ ").concat(inner).concat(" ]"),
        }
    }
}

/// A helper for parsing a [`Group`] with [`GroupKind::Paren`].
pub struct Parens;

/// A helper for parsing a [`Group`] with [`GroupKind::Brace`].
pub struct Braces;

/// A helper for parsing a [`Group`] with [`GroupKind::Bracket`].
pub struct Brackets;

/// Parsing a group of kind `kind`, run on a stream in state `before`, may
/// give `res` and leave the stream in state `after`.
///
/// A group of another kind is consumed all the same.
pub open spec fn group_parses(kind: GroupKind, before: StreamState, res: Result<Group, Error>, after: StreamState) -> bool {
    match before.nth(0) {
        None => {
            &&& after == before
            &&& res matches Err(e)
            &&& eos_error(e, Text::Backticks("("@), before)
        },
        Some(t) => match t {
            Tree::Group { delimiter, span_open, .. } => if delimiter == Delimiter::Invisible {
                &&& after == before
                &&& res matches Err(e)
                &&& mismatch_error(e, Text::Backticks(seq![open_char(kind)]), t)
            } else if kind_of(delimiter) == kind {
                &&& after == before.popped()
                &&& res matches Ok(g)
                &&& group_from(g, t)
            } else {
                &&& after == before.popped()
                &&& res matches Err(e)
                &&& error_is(
                    e,
                    Text::Backticks(seq![open_char(kind)]),
                    Text::Backticks(seq![open_char(kind_of(delimiter))]),
                    span_open,
                )
            },
            _ => {
                &&& after == before
                &&& res matches Err(e)
                &&& mismatch_error(e, Text::Backticks(seq![open_char(kind)]), t)
            },
        },
    }
}

/// Parses a group of kind `kind`.
pub fn parse_group<S: StreamLike>(kind: GroupKind, stream: &mut S) -> (res: Result<Group, Error>)
    requires
        (*old(stream)).inv(),
    ensures
        (*final(stream)).inv(),
        group_parses(kind, (*old(stream)).state(), res, (*final(stream)).state()),
{
    proof {
        reveal_strlit("(");
    }
    let tok = match stream.peek() {
        Some(tt) => tt,
        None => {
            return Err(stream.err_eos(ErrorText::Backticks(String::from_str("("))));
        },
    };
    let span = tok.span();
    let mut found: Option<&TokenGroup> = None;
    if let TokenTree::Group(g) = tok {
        if g.delimiter != Delimiter::Invisible {
            found = Some(g);
        }
    }
    let result = match found {
        Some(g) => {
            let g_kind = GroupKind::from(g.delimiter);
            if g_kind == kind {
                Ok(Group::from_token(g))
            } else {
                Err(
                    Error::new(
                        ErrorText::Backticks(string_of_char(kind.open())),
                        ErrorText::Backticks(string_of_char(g_kind.open())),
                        g.span_open,
                    ),
                )
            }
        },
        None => {
            return Err(
                Error::new(
                    ErrorText::Backticks(string_of_char(kind.open())),
                    ErrorText::Backticks(tok.to_string()),
                    span,
                ),
            );
        },
    };
    stream.pop();
    result
}

impl FromStream for Parens {
    type Output = Group;

    open spec fn parse_requires() -> bool {
        true
    }

    open spec fn productive() -> bool {
        true
    }

    open spec fn parses(before: StreamState, res: Result<Group, Error>, after: StreamState) -> bool {
        group_parses(GroupKind::Paren, before, res, after)
    }

    fn from_stream<S: StreamLike>(stream: &mut S) -> (res: Result<Group, Error>) {
        parse_group(GroupKind::Paren, stream)
    }
}

impl FromStream for Braces {
    type Output = Group;

    open spec fn parse_requires() -> bool {
        true
    }

    open spec fn productive() -> bool {
        true
    }

    open spec fn parses(before: StreamState, res: Result<Group, Error>, after: StreamState) -> bool {
        group_parses(GroupKind::Brace, before, res, after)
    }

    fn from_stream<S: StreamLike>(stream: &mut S) -> (res: Result<Group, Error>) {
        parse_group(GroupKind::Brace, stream)
    }
}

impl FromStream for Brackets {
    type Output = Group;

    open spec fn parse_requires() -> bool {
        true
    }

    open spec fn productive() -> bool {
        true
    }

    open spec fn parses(before: StreamState, res: Result<Group, Error>, after: StreamState) -> bool {
        group_parses(GroupKind::Bracket, before, res, after)
    }

    fn from_stream<S: StreamLike>(stream: &mut S) -> (res: Result<Group, Error>) {
        parse_group(GroupKind::Bracket, stream)
    }
}

} // verus!
