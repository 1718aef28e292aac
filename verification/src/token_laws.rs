//! Laws of the single-token parsers and patterns, stated over the next
//! token of the stream.
use crate::error::Error;
use crate::stream::{MatchResult, MatchStream, StreamState, FromStream};
use crate::tokens::{Delimiter, TokenTree, Tree};
use crate::utils::group::{Braces, Brackets, Group, GroupKind, Parens};
use crate::utils::ident::Ident;
use crate::utils::literal::Literal;
use crate::utils::punct;
use crate::utils::puncts::Punct;
use vstd::prelude::*;

verus! {

/// An `Ident` pattern matches one token exactly where the next token is an
/// identifier with the pattern's text; else it fails with the text of the
/// token found, or with none at the end of the stream.
pub proof fn law_ident_pattern(p: Ident, st: StreamState, res: MatchResult)
    requires
        p.matches(st, res),
    ensures
        res is Ok <==> (st.tokens.len() > 0 && (st.tokens[0] matches Tree::Ident { text, .. } && text == p.ident@)),
        res is Ok ==> res == Ok::<usize, Option<String>>(1),
        st.tokens.len() == 0 ==> res == Err::<usize, Option<String>>(None),
        res is Err && st.tokens.len() > 0 ==> (res matches Err(Some(s)) && s@ == st.tokens[0].text()),
{
}

/// A `Literal` pattern matches one token exactly where the next token is a
/// literal with the pattern's text; else it fails with the text of the token
/// found, or with none at the end of the stream.
pub proof fn law_literal_pattern(p: Literal, st: StreamState, res: MatchResult)
    requires
        p.matches(st, res),
    ensures
        res is Ok <==> (st.tokens.len() > 0 && (st.tokens[0] matches Tree::Literal { text, .. } && text == p.literal@)),
        res is Ok ==> res == Ok::<usize, Option<String>>(1),
        st.tokens.len() == 0 ==> res == Err::<usize, Option<String>>(None),
        res is Err && st.tokens.len() > 0 ==> (res matches Err(Some(s)) && s@ == st.tokens[0].text()),
{
}

/// A `Punct` pattern matches one token exactly where the next token is a
/// punctuation token with the pattern's character, joined to the next one or
/// not; else it fails with the text of the token found, or with none at the
/// end of the stream.
pub proof fn law_punct_pattern(p: Punct, st: StreamState, res: MatchResult)
    requires
        p.matches(st, res),
    ensures
        res is Ok <==> (st.tokens.len() > 0 && (st.tokens[0] matches Tree::Punct { ch, .. } && ch == p.ch)),
        res is Ok ==> res == Ok::<usize, Option<String>>(1),
        st.tokens.len() == 0 ==> res == Err::<usize, Option<String>>(None),
        res is Err && st.tokens.len() > 0 ==> (res matches Err(Some(s)) && s@ == st.tokens[0].text()),
{
}

/// A string pattern matches one token exactly where the next token prints as
/// the string; else it fails with the text of the token found, or with none
/// at the end of the stream.
pub proof fn law_str_pattern(p: &str, st: StreamState, res: MatchResult)
    requires
        <&str as MatchStream>::matches(&p, st, res),
    ensures
        res is Ok <==> (st.tokens.len() > 0 && (st.tokens[0].text() == p@)),
        res is Ok ==> res == Ok::<usize, Option<String>>(1),
        st.tokens.len() == 0 ==> res == Err::<usize, Option<String>>(None),
        res is Err && st.tokens.len() > 0 ==> (res matches Err(Some(s)) && s@ == st.tokens[0].text()),
{
}

/// A token-tree pattern matches one token exactly where the next token is of
/// the same kind (group, identifier, punctuation or literal) and prints the
/// same; else it fails with the text of the token found, or with none at the
/// end of the stream.
pub proof fn law_token_tree_pattern(p: TokenTree, st: StreamState, res: MatchResult)
    requires
        p.matches(st, res),
    ensures
        res is Ok <==> (st.tokens.len() > 0 && ((st.tokens[0] is Group <==> p@ is Group) && (st.tokens[0] is Ident <==> p@ is Ident) && (st.tokens[0] is Punct <==> p@ is Punct) && (st.tokens[0] is Literal <==> p@ is Literal) && st.tokens[0].text() == p@.text())),
        res is Ok ==> res == Ok::<usize, Option<String>>(1),
        st.tokens.len() == 0 ==> res == Err::<usize, Option<String>>(None),
        res is Err && st.tokens.len() > 0 ==> (res matches Err(Some(s)) && s@ == st.tokens[0].text()),
{
}

/// A `Group` pattern matches one token exactly where the next token is a
/// group delimited as the pattern's kind asks (an invisible group counting as
/// parenthesised) with the pattern's inner text; else, a group of another
/// kind among them, it fails with the text of the token found, or with none
/// at the end of the stream.
pub proof fn law_group_pattern(p: Group, st: StreamState, res: MatchResult)
    requires
        p.matches(st, res),
    ensures
        res is Ok <==> (st.tokens.len() > 0 && (st.tokens[0] matches Tree::Group { delimiter, inner_text, .. } && inner_text == p.inner.text@ && match p.kind {
            GroupKind::Paren => delimiter == Delimiter::Parenthesis || delimiter == Delimiter::Invisible,
            GroupKind::Brace => delimiter == Delimiter::Brace,
            GroupKind::Bracket => delimiter == Delimiter::Bracket,
        })),
        res is Ok ==> res == Ok::<usize, Option<String>>(1),
        st.tokens.len() == 0 ==> res == Err::<usize, Option<String>>(None),
        res is Err && st.tokens.len() > 0 ==> (res matches Err(Some(s)) && s@ == st.tokens[0].text()),
{
}

/// `Ident` parses the next token exactly where it is an identifier, consuming
/// it and giving its text and span; else it fails and consumes nothing.
pub proof fn law_ident_parser(before: StreamState, res: Result<Ident, Error>, after: StreamState)
    requires
        Ident::parses(before, res, after),
    ensures
        res is Ok <==> (before.tokens.len() > 0 && (before.tokens[0] is Ident)),
        res is Ok ==> after == before.popped(),
        res is Err ==> after == before,
        res matches Ok(i) ==> before.tokens[0] == (Tree::Ident { text: i.ident@, span: i.span }),
{
}

/// `Literal` parses the next token exactly where it is a literal, consuming
/// it and giving its text and span; else it fails and consumes nothing.
pub proof fn law_literal_parser(before: StreamState, res: Result<Literal, Error>, after: StreamState)
    requires
        Literal::parses(before, res, after),
    ensures
        res is Ok <==> (before.tokens.len() > 0 && (before.tokens[0] is Literal)),
        res is Ok ==> after == before.popped(),
        res is Err ==> after == before,
        res matches Ok(l) ==> before.tokens[0] == (Tree::Literal { text: l.literal@, span: l.span }),
{
}

/// `Punct` parses the next token exactly where it is punctuation, joined to
/// the next one or not, consuming it and giving its character and span; else
/// it fails and consumes nothing.
pub proof fn law_punct_parser(before: StreamState, res: Result<Punct, Error>, after: StreamState)
    requires
        Punct::parses(before, res, after),
    ensures
        res is Ok <==> (before.tokens.len() > 0 && (before.tokens[0] is Punct)),
        res is Ok ==> after == before.popped(),
        res is Err ==> after == before,
        res matches Ok(q) ==> (before.tokens[0] matches Tree::Punct { ch, span, .. } && ch == q.ch && span == q.span),
{
}

/// `TokenTree` parses any next token, consuming it and giving it; it fails
/// only at the end of the stream.
pub proof fn law_token_tree_parser(before: StreamState, res: Result<TokenTree, Error>, after: StreamState)
    requires
        TokenTree::parses(before, res, after),
    ensures
        res is Ok <==> (before.tokens.len() > 0 && (true)),
        res is Ok ==> after == before.popped(),
        res is Err ==> after == before,
        res matches Ok(t) ==> t@ == before.tokens[0],
{
}

/// `Slash` parses and matches the next token exactly where it is the
/// punctuation character '/', joined to the next one or not; a parse consumes
/// it, a failure consumes nothing.
pub proof fn law_slash_punct(st: StreamState, res: Result<punct::Slash, Error>, after: StreamState, m: MatchResult)
    requires
        punct::Slash::parses(st, res, after),
        punct::Slash.matches(st, m),
    ensures
        res is Ok <==> (st.tokens.len() > 0 && (st.tokens[0] matches Tree::Punct { ch, .. } && ch == '/')),
        res is Ok ==> after == st.popped(),
        res is Err ==> after == st,
        m is Ok <==> (st.tokens.len() > 0 && (st.tokens[0] matches Tree::Punct { ch, .. } && ch == '/')),
        m is Ok ==> m == Ok::<usize, Option<String>>(1),
        st.tokens.len() == 0 ==> m == Err::<usize, Option<String>>(None),
        m is Err && st.tokens.len() > 0 ==> (m matches Err(Some(s)) && s@ == st.tokens[0].text()),
{
}

/// `Bar` parses and matches the next token exactly where it is the
/// punctuation character '|', joined to the next one or not; a parse consumes
/// it, a failure consumes nothing.
pub proof fn law_bar_punct(st: StreamState, res: Result<punct::Bar, Error>, after: StreamState, m: MatchResult)
    requires
        punct::Bar::parses(st, res, after),
        punct::Bar.matches(st, m),
    ensures
        res is Ok <==> (st.tokens.len() > 0 && (st.tokens[0] matches Tree::Punct { ch, .. } && ch == '|')),
        res is Ok ==> after == st.popped(),
        res is Err ==> after == st,
        m is Ok <==> (st.tokens.len() > 0 && (st.tokens[0] matches Tree::Punct { ch, .. } && ch == '|')),
        m is Ok ==> m == Ok::<usize, Option<String>>(1),
        st.tokens.len() == 0 ==> m == Err::<usize, Option<String>>(None),
        m is Err && st.tokens.len() > 0 ==> (m matches Err(Some(s)) && s@ == st.tokens[0].text()),
{
}

/// `Colon` parses and matches the next token exactly where it is the
/// punctuation character ':', joined to the next one or not; a parse consumes
/// it, a failure consumes nothing.
pub proof fn law_colon_punct(st: StreamState, res: Result<punct::Colon, Error>, after: StreamState, m: MatchResult)
    requires
        punct::Colon::parses(st, res, after),
        punct::Colon.matches(st, m),
    ensures
        res is Ok <==> (st.tokens.len() > 0 && (st.tokens[0] matches Tree::Punct { ch, .. } && ch == ':')),
        res is Ok ==> after == st.popped(),
        res is Err ==> after == st,
        m is Ok <==> (st.tokens.len() > 0 && (st.tokens[0] matches Tree::Punct { ch, .. } && ch == ':')),
        m is Ok ==> m == Ok::<usize, Option<String>>(1),
        st.tokens.len() == 0 ==> m == Err::<usize, Option<String>>(None),
        m is Err && st.tokens.len() > 0 ==> (m matches Err(Some(s)) && s@ == st.tokens[0].text()),
{
}

/// `Semicolon` parses and matches the next token exactly where it is the
/// punctuation character ';', joined to the next one or not; a parse consumes
/// it, a failure consumes nothing.
pub proof fn law_semicolon_punct(st: StreamState, res: Result<punct::Semicolon, Error>, after: StreamState, m: MatchResult)
    requires
        punct::Semicolon::parses(st, res, after),
        punct::Semicolon.matches(st, m),
    ensures
        res is Ok <==> (st.tokens.len() > 0 && (st.tokens[0] matches Tree::Punct { ch, .. } && ch == ';')),
        res is Ok ==> after == st.popped(),
        res is Err ==> after == st,
        m is Ok <==> (st.tokens.len() > 0 && (st.tokens[0] matches Tree::Punct { ch, .. } && ch == ';')),
        m is Ok ==> m == Ok::<usize, Option<String>>(1),
        st.tokens.len() == 0 ==> m == Err::<usize, Option<String>>(None),
        m is Err && st.tokens.len() > 0 ==> (m matches Err(Some(s)) && s@ == st.tokens[0].text()),
{
}

/// `Quote` parses and matches the next token exactly where it is the
/// punctuation character '"', joined to the next one or not; a parse consumes
/// it, a failure consumes nothing.
pub proof fn law_quote_punct(st: StreamState, res: Result<punct::Quote, Error>, after: StreamState, m: MatchResult)
    requires
        punct::Quote::parses(st, res, after),
        punct::Quote.matches(st, m),
    ensures
        res is Ok <==> (st.tokens.len() > 0 && (st.tokens[0] matches Tree::Punct { ch, .. } && ch == '"')),
        res is Ok ==> after == st.popped(),
        res is Err ==> after == st,
        m is Ok <==> (st.tokens.len() > 0 && (st.tokens[0] matches Tree::Punct { ch, .. } && ch == '"')),
        m is Ok ==> m == Ok::<usize, Option<String>>(1),
        st.tokens.len() == 0 ==> m == Err::<usize, Option<String>>(None),
        m is Err && st.tokens.len() > 0 ==> (m matches Err(Some(s)) && s@ == st.tokens[0].text()),
{
}

/// `Apos` parses and matches the next token exactly where it is the
/// punctuation character '\'', joined to the next one or not; a parse consumes
/// it, a failure consumes nothing.
pub proof fn law_apos_punct(st: StreamState, res: Result<punct::Apos, Error>, after: StreamState, m: MatchResult)
    requires
        punct::Apos::parses(st, res, after),
        punct::Apos.matches(st, m),
    ensures
        res is Ok <==> (st.tokens.len() > 0 && (st.tokens[0] matches Tree::Punct { ch, .. } && ch == '\'')),
        res is Ok ==> after == st.popped(),
        res is Err ==> after == st,
        m is Ok <==> (st.tokens.len() > 0 && (st.tokens[0] matches Tree::Punct { ch, .. } && ch == '\'')),
        m is Ok ==> m == Ok::<usize, Option<String>>(1),
        st.tokens.len() == 0 ==> m == Err::<usize, Option<String>>(None),
        m is Err && st.tokens.len() > 0 ==> (m matches Err(Some(s)) && s@ == st.tokens[0].text()),
{
}

/// `Comma` parses and matches the next token exactly where it is the
/// punctuation character ',', joined to the next one or not; a parse consumes
/// it, a failure consumes nothing.
pub proof fn law_comma_punct(st: StreamState, res: Result<punct::Comma, Error>, after: StreamState, m: MatchResult)
    requires
        punct::Comma::parses(st, res, after),
        punct::Comma.matches(st, m),
    ensures
        res is Ok <==> (st.tokens.len() > 0 && (st.tokens[0] matches Tree::Punct { ch, .. } && ch == ',')),
        res is Ok ==> after == st.popped(),
        res is Err ==> after == st,
        m is Ok <==> (st.tokens.len() > 0 && (st.tokens[0] matches Tree::Punct { ch, .. } && ch == ',')),
        m is Ok ==> m == Ok::<usize, Option<String>>(1),
        st.tokens.len() == 0 ==> m == Err::<usize, Option<String>>(None),
        m is Err && st.tokens.len() > 0 ==> (m matches Err(Some(s)) && s@ == st.tokens[0].text()),
{
}

/// `Less` parses and matches the next token exactly where it is the
/// punctuation character '<', joined to the next one or not; a parse consumes
/// it, a failure consumes nothing.
pub proof fn law_less_punct(st: StreamState, res: Result<punct::Less, Error>, after: StreamState, m: MatchResult)
    requires
        punct::Less::parses(st, res, after),
        punct::Less.matches(st, m),
    ensures
        res is Ok <==> (st.tokens.len() > 0 && (st.tokens[0] matches Tree::Punct { ch, .. } && ch == '<')),
        res is Ok ==> after == st.popped(),
        res is Err ==> after == st,
        m is Ok <==> (st.tokens.len() > 0 && (st.tokens[0] matches Tree::Punct { ch, .. } && ch == '<')),
        m is Ok ==> m == Ok::<usize, Option<String>>(1),
        st.tokens.len() == 0 ==> m == Err::<usize, Option<String>>(None),
        m is Err && st.tokens.len() > 0 ==> (m matches Err(Some(s)) && s@ == st.tokens[0].text()),
{
}

/// `Period` parses and matches the next token exactly where it is the
/// punctuation character '.', joined to the next one or not; a parse consumes
/// it, a failure consumes nothing.
pub proof fn law_period_punct(st: StreamState, res: Result<punct::Period, Error>, after: StreamState, m: MatchResult)
    requires
        punct::Period::parses(st, res, after),
        punct::Period.matches(st, m),
    ensures
        res is Ok <==> (st.tokens.len() > 0 && (st.tokens[0] matches Tree::Punct { ch, .. } && ch == '.')),
        res is Ok ==> after == st.popped(),
        res is Err ==> after == st,
        m is Ok <==> (st.tokens.len() > 0 && (st.tokens[0] matches Tree::Punct { ch, .. } && ch == '.')),
        m is Ok ==> m == Ok::<usize, Option<String>>(1),
        st.tokens.len() == 0 ==> m == Err::<usize, Option<String>>(None),
        m is Err && st.tokens.len() > 0 ==> (m matches Err(Some(s)) && s@ == st.tokens[0].text()),
{
}

/// `Greater` parses and matches the next token exactly where it is the
/// punctuation character '>', joined to the next one or not; a parse consumes
/// it, a failure consumes nothing.
pub proof fn law_greater_punct(st: StreamState, res: Result<punct::Greater, Error>, after: StreamState, m: MatchResult)
    requires
        punct::Greater::parses(st, res, after),
        punct::Greater.matches(st, m),
    ensures
        res is Ok <==> (st.tokens.len() > 0 && (st.tokens[0] matches Tree::Punct { ch, .. } && ch == '>')),
        res is Ok ==> after == st.popped(),
        res is Err ==> after == st,
        m is Ok <==> (st.tokens.len() > 0 && (st.tokens[0] matches Tree::Punct { ch, .. } && ch == '>')),
        m is Ok ==> m == Ok::<usize, Option<String>>(1),
        st.tokens.len() == 0 ==> m == Err::<usize, Option<String>>(None),
        m is Err && st.tokens.len() > 0 ==> (m matches Err(Some(s)) && s@ == st.tokens[0].text()),
{
}

/// `Backslash` parses and matches the next token exactly where it is the
/// punctuation character '\\', joined to the next one or not; a parse consumes
/// it, a failure consumes nothing.
pub proof fn law_backslash_punct(st: StreamState, res: Result<punct::Backslash, Error>, after: StreamState, m: MatchResult)
    requires
        punct::Backslash::parses(st, res, after),
        punct::Backslash.matches(st, m),
    ensures
        res is Ok <==> (st.tokens.len() > 0 && (st.tokens[0] matches Tree::Punct { ch, .. } && ch == '\\')),
        res is Ok ==> after == st.popped(),
        res is Err ==> after == st,
        m is Ok <==> (st.tokens.len() > 0 && (st.tokens[0] matches Tree::Punct { ch, .. } && ch == '\\')),
        m is Ok ==> m == Ok::<usize, Option<String>>(1),
        st.tokens.len() == 0 ==> m == Err::<usize, Option<String>>(None),
        m is Err && st.tokens.len() > 0 ==> (m matches Err(Some(s)) && s@ == st.tokens[0].text()),
{
}

/// `Question` parses and matches the next token exactly where it is the
/// punctuation character '?', joined to the next one or not; a parse consumes
/// it, a failure consumes nothing.
pub proof fn law_question_punct(st: StreamState, res: Result<punct::Question, Error>, after: StreamState, m: MatchResult)
    requires
        punct::Question::parses(st, res, after),
        punct::Question.matches(st, m),
    ensures
        res is Ok <==> (st.tokens.len() > 0 && (st.tokens[0] matches Tree::Punct { ch, .. } && ch == '?')),
        res is Ok ==> after == st.popped(),
        res is Err ==> after == st,
        m is Ok <==> (st.tokens.len() > 0 && (st.tokens[0] matches Tree::Punct { ch, .. } && ch == '?')),
        m is Ok ==> m == Ok::<usize, Option<String>>(1),
        st.tokens.len() == 0 ==> m == Err::<usize, Option<String>>(None),
        m is Err && st.tokens.len() > 0 ==> (m matches Err(Some(s)) && s@ == st.tokens[0].text()),
{
}

/// `Tilde` parses and matches the next token exactly where it is the
/// punctuation character '~', joined to the next one or not; a parse consumes
/// it, a failure consumes nothing.
pub proof fn law_tilde_punct(st: StreamState, res: Result<punct::Tilde, Error>, after: StreamState, m: MatchResult)
    requires
        punct::Tilde::parses(st, res, after),
        punct::Tilde.matches(st, m),
    ensures
        res is Ok <==> (st.tokens.len() > 0 && (st.tokens[0] matches Tree::Punct { ch, .. } && ch == '~')),
        res is Ok ==> after == st.popped(),
        res is Err ==> after == st,
        m is Ok <==> (st.tokens.len() > 0 && (st.tokens[0] matches Tree::Punct { ch, .. } && ch == '~')),
        m is Ok ==> m == Ok::<usize, Option<String>>(1),
        st.tokens.len() == 0 ==> m == Err::<usize, Option<String>>(None),
        m is Err && st.tokens.len() > 0 ==> (m matches Err(Some(s)) && s@ == st.tokens[0].text()),
{
}

/// `Backtick` parses and matches the next token exactly where it is the
/// punctuation character '`', joined to the next one or not; a parse consumes
/// it, a failure consumes nothing.
pub proof fn law_backtick_punct(st: StreamState, res: Result<punct::Backtick, Error>, after: StreamState, m: MatchResult)
    requires
        punct::Backtick::parses(st, res, after),
        punct::Backtick.matches(st, m),
    ensures
        res is Ok <==> (st.tokens.len() > 0 && (st.tokens[0] matches Tree::Punct { ch, .. } && ch == '`')),
        res is Ok ==> after == st.popped(),
        res is Err ==> after == st,
        m is Ok <==> (st.tokens.len() > 0 && (st.tokens[0] matches Tree::Punct { ch, .. } && ch == '`')),
        m is Ok ==> m == Ok::<usize, Option<String>>(1),
        st.tokens.len() == 0 ==> m == Err::<usize, Option<String>>(None),
        m is Err && st.tokens.len() > 0 ==> (m matches Err(Some(s)) && s@ == st.tokens[0].text()),
{
}

/// `Bang` parses and matches the next token exactly where it is the
/// punctuation character '!', joined to the next one or not; a parse consumes
/// it, a failure consumes nothing.
pub proof fn law_bang_punct(st: StreamState, res: Result<punct::Bang, Error>, after: StreamState, m: MatchResult)
    requires
        punct::Bang::parses(st, res, after),
        punct::Bang.matches(st, m),
    ensures
        res is Ok <==> (st.tokens.len() > 0 && (st.tokens[0] matches Tree::Punct { ch, .. } && ch == '!')),
        res is Ok ==> after == st.popped(),
        res is Err ==> after == st,
        m is Ok <==> (st.tokens.len() > 0 && (st.tokens[0] matches Tree::Punct { ch, .. } && ch == '!')),
        m is Ok ==> m == Ok::<usize, Option<String>>(1),
        st.tokens.len() == 0 ==> m == Err::<usize, Option<String>>(None),
        m is Err && st.tokens.len() > 0 ==> (m matches Err(Some(s)) && s@ == st.tokens[0].text()),
{
}

/// `At` parses and matches the next token exactly where it is the
/// punctuation character '@', joined to the next one or not; a parse consumes
/// it, a failure consumes nothing.
pub proof fn law_at_punct(st: StreamState, res: Result<punct::At, Error>, after: StreamState, m: MatchResult)
    requires
        punct::At::parses(st, res, after),
        punct::At.matches(st, m),
    ensures
        res is Ok <==> (st.tokens.len() > 0 && (st.tokens[0] matches Tree::Punct { ch, .. } && ch == '@')),
        res is Ok ==> after == st.popped(),
        res is Err ==> after == st,
        m is Ok <==> (st.tokens.len() > 0 && (st.tokens[0] matches Tree::Punct { ch, .. } && ch == '@')),
        m is Ok ==> m == Ok::<usize, Option<String>>(1),
        st.tokens.len() == 0 ==> m == Err::<usize, Option<String>>(None),
        m is Err && st.tokens.len() > 0 ==> (m matches Err(Some(s)) && s@ == st.tokens[0].text()),
{
}

/// `Hash` parses and matches the next token exactly where it is the
/// punctuation character '#', joined to the next one or not; a parse consumes
/// it, a failure consumes nothing.
pub proof fn law_hash_punct(st: StreamState, res: Result<punct::Hash, Error>, after: StreamState, m: MatchResult)
    requires
        punct::Hash::parses(st, res, after),
        punct::Hash.matches(st, m),
    ensures
        res is Ok <==> (st.tokens.len() > 0 && (st.tokens[0] matches Tree::Punct { ch, .. } && ch == '#')),
        res is Ok ==> after == st.popped(),
        res is Err ==> after == st,
        m is Ok <==> (st.tokens.len() > 0 && (st.tokens[0] matches Tree::Punct { ch, .. } && ch == '#')),
        m is Ok ==> m == Ok::<usize, Option<String>>(1),
        st.tokens.len() == 0 ==> m == Err::<usize, Option<String>>(None),
        m is Err && st.tokens.len() > 0 ==> (m matches Err(Some(s)) && s@ == st.tokens[0].text()),
{
}

/// `Dollar` parses and matches the next token exactly where it is the
/// punctuation character '$', joined to the next one or not; a parse consumes
/// it, a failure consumes nothing.
pub proof fn law_dollar_punct(st: StreamState, res: Result<punct::Dollar, Error>, after: StreamState, m: MatchResult)
    requires
        punct::Dollar::parses(st, res, after),
        punct::Dollar.matches(st, m),
    ensures
        res is Ok <==> (st.tokens.len() > 0 && (st.tokens[0] matches Tree::Punct { ch, .. } && ch == '$')),
        res is Ok ==> after == st.popped(),
        res is Err ==> after == st,
        m is Ok <==> (st.tokens.len() > 0 && (st.tokens[0] matches Tree::Punct { ch, .. } && ch == '$')),
        m is Ok ==> m == Ok::<usize, Option<String>>(1),
        st.tokens.len() == 0 ==> m == Err::<usize, Option<String>>(None),
        m is Err && st.tokens.len() > 0 ==> (m matches Err(Some(s)) && s@ == st.tokens[0].text()),
{
}

/// `Percent` parses and matches the next token exactly where it is the
/// punctuation character '%', joined to the next one or not; a parse consumes
/// it, a failure consumes nothing.
pub proof fn law_percent_punct(st: StreamState, res: Result<punct::Percent, Error>, after: StreamState, m: MatchResult)
    requires
        punct::Percent::parses(st, res, after),
        punct::Percent.matches(st, m),
    ensures
        res is Ok <==> (st.tokens.len() > 0 && (st.tokens[0] matches Tree::Punct { ch, .. } && ch == '%')),
        res is Ok ==> after == st.popped(),
        res is Err ==> after == st,
        m is Ok <==> (st.tokens.len() > 0 && (st.tokens[0] matches Tree::Punct { ch, .. } && ch == '%')),
        m is Ok ==> m == Ok::<usize, Option<String>>(1),
        st.tokens.len() == 0 ==> m == Err::<usize, Option<String>>(None),
        m is Err && st.tokens.len() > 0 ==> (m matches Err(Some(s)) && s@ == st.tokens[0].text()),
{
}

/// `Caret` parses and matches the next token exactly where it is the
/// punctuation character '^', joined to the next one or not; a parse consumes
/// it, a failure consumes nothing.
pub proof fn law_caret_punct(st: StreamState, res: Result<punct::Caret, Error>, after: StreamState, m: MatchResult)
    requires
        punct::Caret::parses(st, res, after),
        punct::Caret.matches(st, m),
    ensures
        res is Ok <==> (st.tokens.len() > 0 && (st.tokens[0] matches Tree::Punct { ch, .. } && ch == '^')),
        res is Ok ==> after == st.popped(),
        res is Err ==> after == st,
        m is Ok <==> (st.tokens.len() > 0 && (st.tokens[0] matches Tree::Punct { ch, .. } && ch == '^')),
        m is Ok ==> m == Ok::<usize, Option<String>>(1),
        st.tokens.len() == 0 ==> m == Err::<usize, Option<String>>(None),
        m is Err && st.tokens.len() > 0 ==> (m matches Err(Some(s)) && s@ == st.tokens[0].text()),
{
}

/// `Amp` parses and matches the next token exactly where it is the
/// punctuation character '&', joined to the next one or not; a parse consumes
/// it, a failure consumes nothing.
pub proof fn law_amp_punct(st: StreamState, res: Result<punct::Amp, Error>, after: StreamState, m: MatchResult)
    requires
        punct::Amp::parses(st, res, after),
        punct::Amp.matches(st, m),
    ensures
        res is Ok <==> (st.tokens.len() > 0 && (st.tokens[0] matches Tree::Punct { ch, .. } && ch == '&')),
        res is Ok ==> after == st.popped(),
        res is Err ==> after == st,
        m is Ok <==> (st.tokens.len() > 0 && (st.tokens[0] matches Tree::Punct { ch, .. } && ch == '&')),
        m is Ok ==> m == Ok::<usize, Option<String>>(1),
        st.tokens.len() == 0 ==> m == Err::<usize, Option<String>>(None),
        m is Err && st.tokens.len() > 0 ==> (m matches Err(Some(s)) && s@ == st.tokens[0].text()),
{
}

/// `Star` parses and matches the next token exactly where it is the
/// punctuation character '*', joined to the next one or not; a parse consumes
/// it, a failure consumes nothing.
pub proof fn law_star_punct(st: StreamState, res: Result<punct::Star, Error>, after: StreamState, m: MatchResult)
    requires
        punct::Star::parses(st, res, after),
        punct::Star.matches(st, m),
    ensures
        res is Ok <==> (st.tokens.len() > 0 && (st.tokens[0] matches Tree::Punct { ch, .. } && ch == '*')),
        res is Ok ==> after == st.popped(),
        res is Err ==> after == st,
        m is Ok <==> (st.tokens.len() > 0 && (st.tokens[0] matches Tree::Punct { ch, .. } && ch == '*')),
        m is Ok ==> m == Ok::<usize, Option<String>>(1),
        st.tokens.len() == 0 ==> m == Err::<usize, Option<String>>(None),
        m is Err && st.tokens.len() > 0 ==> (m matches Err(Some(s)) && s@ == st.tokens[0].text()),
{
}

/// `Dash` parses and matches the next token exactly where it is the
/// punctuation character '-', joined to the next one or not; a parse consumes
/// it, a failure consumes nothing.
pub proof fn law_dash_punct(st: StreamState, res: Result<punct::Dash, Error>, after: StreamState, m: MatchResult)
    requires
        punct::Dash::parses(st, res, after),
        punct::Dash.matches(st, m),
    ensures
        res is Ok <==> (st.tokens.len() > 0 && (st.tokens[0] matches Tree::Punct { ch, .. } && ch == '-')),
        res is Ok ==> after == st.popped(),
        res is Err ==> after == st,
        m is Ok <==> (st.tokens.len() > 0 && (st.tokens[0] matches Tree::Punct { ch, .. } && ch == '-')),
        m is Ok ==> m == Ok::<usize, Option<String>>(1),
        st.tokens.len() == 0 ==> m == Err::<usize, Option<String>>(None),
        m is Err && st.tokens.len() > 0 ==> (m matches Err(Some(s)) && s@ == st.tokens[0].text()),
{
}

/// `Underscore` parses and matches the next token exactly where it is the
/// punctuation character '_', joined to the next one or not; a parse consumes
/// it, a failure consumes nothing.
pub proof fn law_underscore_punct(st: StreamState, res: Result<punct::Underscore, Error>, after: StreamState, m: MatchResult)
    requires
        punct::Underscore::parses(st, res, after),
        punct::Underscore.matches(st, m),
    ensures
        res is Ok <==> (st.tokens.len() > 0 && (st.tokens[0] matches Tree::Punct { ch, .. } && ch == '_')),
        res is Ok ==> after == st.popped(),
        res is Err ==> after == st,
        m is Ok <==> (st.tokens.len() > 0 && (st.tokens[0] matches Tree::Punct { ch, .. } && ch == '_')),
        m is Ok ==> m == Ok::<usize, Option<String>>(1),
        st.tokens.len() == 0 ==> m == Err::<usize, Option<String>>(None),
        m is Err && st.tokens.len() > 0 ==> (m matches Err(Some(s)) && s@ == st.tokens[0].text()),
{
}

/// `Plus` parses and matches the next token exactly where it is the
/// punctuation character '+', joined to the next one or not; a parse consumes
/// it, a failure consumes nothing.
pub proof fn law_plus_punct(st: StreamState, res: Result<punct::Plus, Error>, after: StreamState, m: MatchResult)
    requires
        punct::Plus::parses(st, res, after),
        punct::Plus.matches(st, m),
    ensures
        res is Ok <==> (st.tokens.len() > 0 && (st.tokens[0] matches Tree::Punct { ch, .. } && ch == '+')),
        res is Ok ==> after == st.popped(),
        res is Err ==> after == st,
        m is Ok <==> (st.tokens.len() > 0 && (st.tokens[0] matches Tree::Punct { ch, .. } && ch == '+')),
        m is Ok ==> m == Ok::<usize, Option<String>>(1),
        st.tokens.len() == 0 ==> m == Err::<usize, Option<String>>(None),
        m is Err && st.tokens.len() > 0 ==> (m matches Err(Some(s)) && s@ == st.tokens[0].text()),
{
}

/// `Equals` parses and matches the next token exactly where it is the
/// punctuation character '=', joined to the next one or not; a parse consumes
/// it, a failure consumes nothing.
pub proof fn law_equals_punct(st: StreamState, res: Result<punct::Equals, Error>, after: StreamState, m: MatchResult)
    requires
        punct::Equals::parses(st, res, after),
        punct::Equals.matches(st, m),
    ensures
        res is Ok <==> (st.tokens.len() > 0 && (st.tokens[0] matches Tree::Punct { ch, .. } && ch == '=')),
        res is Ok ==> after == st.popped(),
        res is Err ==> after == st,
        m is Ok <==> (st.tokens.len() > 0 && (st.tokens[0] matches Tree::Punct { ch, .. } && ch == '=')),
        m is Ok ==> m == Ok::<usize, Option<String>>(1),
        st.tokens.len() == 0 ==> m == Err::<usize, Option<String>>(None),
        m is Err && st.tokens.len() > 0 ==> (m matches Err(Some(s)) && s@ == st.tokens[0].text()),
{
}

/// `Group` parses the next token exactly where it is a group, consuming it
/// and giving its delimiters, inner tokens and spans; else it fails and
/// consumes nothing.
pub proof fn law_group_parser(before: StreamState, res: Result<Group, Error>, after: StreamState)
    requires
        Group::parses(before, res, after),
    ensures
        res is Ok <==> (before.tokens.len() > 0 && before.tokens[0] is Group),
        res is Ok ==> after == before.popped(),
        res is Err ==> after == before,
        res matches Ok(g) ==> (before.tokens[0] matches Tree::Group { trees, inner_text, span, span_open, span_close, .. }
            && g.inner@ == (trees, inner_text) && g.span == span && g.span_open == span_open && g.span_close == span_close),
{
}

/// `Parens`, `Braces` and `Brackets` parse the next token exactly where it is
/// a group with their own delimiters, consuming it; a group with other
/// visible delimiters is consumed by the failure that reports it; anything
/// else fails and consumes nothing.
pub proof fn law_group_kind_parsers(
    before: StreamState,
    rp: Result<Group, Error>,
    ap: StreamState,
    rb: Result<Group, Error>,
    ab: StreamState,
    rk: Result<Group, Error>,
    ak: StreamState,
)
    requires
        Parens::parses(before, rp, ap),
        Braces::parses(before, rb, ab),
        Brackets::parses(before, rk, ak),
    ensures
        rp is Ok <==> (before.tokens.len() > 0 && (before.tokens[0] matches Tree::Group { delimiter, .. }
            && delimiter == Delimiter::Parenthesis)),
        rb is Ok <==> (before.tokens.len() > 0 && (before.tokens[0] matches Tree::Group { delimiter, .. }
            && delimiter == Delimiter::Brace)),
        rk is Ok <==> (before.tokens.len() > 0 && (before.tokens[0] matches Tree::Group { delimiter, .. }
            && delimiter == Delimiter::Bracket)),
        rp matches Ok(g) ==> g.kind == GroupKind::Paren,
        rb matches Ok(g) ==> g.kind == GroupKind::Brace,
        rk matches Ok(g) ==> g.kind == GroupKind::Bracket,
        (before.tokens.len() > 0 && (before.tokens[0] matches Tree::Group { delimiter, .. }
            && delimiter != Delimiter::Invisible)) ==> ap == before.popped() && ab == before.popped()
            && ak == before.popped(),
        (before.tokens.len() == 0 || !(before.tokens[0] matches Tree::Group { delimiter, .. }
            && delimiter != Delimiter::Invisible)) ==> ap == before && ab == before && ak == before,
{
}

} // verus!
