//! Helpers for parsing and matching specific [`Punct`](crate::Punct)s.
use crate::error::Error;
use crate::stream::{
    one_token_match, DiagDisplay, FromStream, MatchResult, MatchStream, StreamLike, StreamState,
    StreamView,
};
use crate::text::string_of_char;
use crate::tokens::Tree;
use crate::utils::puncts::{is_punct, match_punct, parse_punct, punct_parses};
use vstd::prelude::*;

verus! {

/// A helper for parsing a slash (`/`) into a [`Punct`](crate::Punct).
#[derive(Debug, Clone, Copy, PartialEq, Eq, Structural)]
pub struct Slash;

impl FromStream for Slash {
    type Output = Self;

    open spec fn parse_requires() -> bool {
        true
    }

    open spec fn productive() -> bool {
        true
    }

    open spec fn parses(before: StreamState, res: Result<Self, Error>, after: StreamState) -> bool {
        punct_parses('/', before, res, after)
    }

    fn from_stream<S: StreamLike>(stream: &mut S) -> (res: Result<Self, Error>) {
        match parse_punct('/', stream) {
            Ok(()) => Ok(Slash),
            Err(e) => Err(e),
        }
    }
}

impl MatchStream for Slash {
    open spec fn matches(&self, st: StreamState, res: MatchResult) -> bool {
        one_token_match(st, res, |t: Tree| is_punct(t, '/'))
    }

    fn match_stream<S: StreamLike>(&self, stream: StreamView<'_, S>) -> (res: MatchResult) {
        match_punct('/', stream)
    }
}

impl DiagDisplay for Slash {
    open spec fn diag(&self) -> Option<Seq<char>> {
        Some(seq!['/'])
    }

    fn diag_string(&self) -> (s: String) {
        string_of_char('/')
    }
}

/// A helper for parsing a pipe (`|`) into a [`Punct`](crate::Punct).
#[derive(Debug, Clone, Copy, PartialEq, Eq, Structural)]
pub struct Bar;

impl FromStream for Bar {
    type Output = Self;

    open spec fn parse_requires() -> bool {
        true
    }

    open spec fn productive() -> bool {
        true
    }

    open spec fn parses(before: StreamState, res: Result<Self, Error>, after: StreamState) -> bool {
        punct_parses('|', before, res, after)
    }

    fn from_stream<S: StreamLike>(stream: &mut S) -> (res: Result<Self, Error>) {
        match parse_punct('|', stream) {
            Ok(()) => Ok(Bar),
            Err(e) => Err(e),
        }
    }
}

impl MatchStream for Bar {
    open spec fn matches(&self, st: StreamState, res: MatchResult) -> bool {
        one_token_match(st, res, |t: Tree| is_punct(t, '|'))
    }

    fn match_stream<S: StreamLike>(&self, stream: StreamView<'_, S>) -> (res: MatchResult) {
        match_punct('|', stream)
    }
}

impl DiagDisplay for Bar {
    open spec fn diag(&self) -> Option<Seq<char>> {
        Some(seq!['|'])
    }

    fn diag_string(&self) -> (s: String) {
        string_of_char('|')
    }
}

/// A helper for parsing a colon (`:`) into a [`Punct`](crate::Punct).
#[derive(Debug, Clone, Copy, PartialEq, Eq, Structural)]
pub struct Colon;

impl FromStream for Colon {
    type Output = Self;

    open spec fn parse_requires() -> bool {
        true
    }

    open spec fn productive() -> bool {
        true
    }

    open spec fn parses(before: StreamState, res: Result<Self, Error>, after: StreamState) -> bool {
        punct_parses(':', before, res, after)
    }

    fn from_stream<S: StreamLike>(stream: &mut S) -> (res: Result<Self, Error>) {
        match parse_punct(':', stream) {
            Ok(()) => Ok(Colon),
            Err(e) => Err(e),
        }
    }
}

impl MatchStream for Colon {
    open spec fn matches(&self, st: StreamState, res: MatchResult) -> bool {
        one_token_match(st, res, |t: Tree| is_punct(t, ':'))
    }

    fn match_stream<S: StreamLike>(&self, stream: StreamView<'_, S>) -> (res: MatchResult) {
        match_punct(':', stream)
    }
}

impl DiagDisplay for Colon {
    open spec fn diag(&self) -> Option<Seq<char>> {
        Some(seq![':'])
    }

    fn diag_string(&self) -> (s: String) {
        string_of_char(':')
    }
}

/// A helper for parsing a semicolon (`;`) into a [`Punct`](crate::Punct).
#[derive(Debug, Clone, Copy, PartialEq, Eq, Structural)]
pub struct Semicolon;

impl FromStream for Semicolon {
    type Output = Self;

    open spec fn parse_requires() -> bool {
        true
    }

    open spec fn productive() -> bool {
        true
    }

    open spec fn parses(before: StreamState, res: Result<Self, Error>, after: StreamState) -> bool {
        punct_parses(';', before, res, after)
    }

    fn from_stream<S: StreamLike>(stream: &mut S) -> (res: Result<Self, Error>) {
        match parse_punct(';', stream) {
            Ok(()) => Ok(Semicolon),
            Err(e) => Err(e),
        }
    }
}

impl MatchStream for Semicolon {
    open spec fn matches(&self, st: StreamState, res: MatchResult) -> bool {
        one_token_match(st, res, |t: Tree| is_punct(t, ';'))
    }

    fn match_stream<S: StreamLike>(&self, stream: StreamView<'_, S>) -> (res: MatchResult) {
        match_punct(';', stream)
    }
}

impl DiagDisplay for Semicolon {
    open spec fn diag(&self) -> Option<Seq<char>> {
        Some(seq![';'])
    }

    fn diag_string(&self) -> (s: String) {
        string_of_char(';')
    }
}

/// A helper for parsing a quote (`"`) into a [`Punct`](crate::Punct).
#[derive(Debug, Clone, Copy, PartialEq, Eq, Structural)]
pub struct Quote;

impl FromStream for Quote {
    type Output = Self;

    open spec fn parse_requires() -> bool {
        true
    }

    open spec fn productive() -> bool {
        true
    }

    open spec fn parses(before: StreamState, res: Result<Self, Error>, after: StreamState) -> bool {
        punct_parses('"', before, res, after)
    }

    fn from_stream<S: StreamLike>(stream: &mut S) -> (res: Result<Self, Error>) {
        match parse_punct('"', stream) {
            Ok(()) => Ok(Quote),
            Err(e) => Err(e),
        }
    }
}

impl MatchStream for Quote {
    open spec fn matches(&self, st: StreamState, res: MatchResult) -> bool {
        one_token_match(st, res, |t: Tree| is_punct(t, '"'))
    }

    fn match_stream<S: StreamLike>(&self, stream: StreamView<'_, S>) -> (res: MatchResult) {
        match_punct('"', stream)
    }
}

impl DiagDisplay for Quote {
    open spec fn diag(&self) -> Option<Seq<char>> {
        Some(seq!['"'])
    }

    fn diag_string(&self) -> (s: String) {
        string_of_char('"')
    }
}

/// A helper for parsing an apostrophe (`'`) into a [`Punct`](crate::Punct).
#[derive(Debug, Clone, Copy, PartialEq, Eq, Structural)]
pub struct Apos;

impl FromStream for Apos {
    type Output = Self;

    open spec fn parse_requires() -> bool {
        true
    }

    open spec fn productive() -> bool {
        true
    }

    open spec fn parses(before: StreamState, res: Result<Self, Error>, after: StreamState) -> bool {
        punct_parses('\'', before, res, after)
    }

    fn from_stream<S: StreamLike>(stream: &mut S) -> (res: Result<Self, Error>) {
        match parse_punct('\'', stream) {
            Ok(()) => Ok(Apos),
            Err(e) => Err(e),
        }
    }
}

impl MatchStream for Apos {
    open spec fn matches(&self, st: StreamState, res: MatchResult) -> bool {
        one_token_match(st, res, |t: Tree| is_punct(t, '\''))
    }

    fn match_stream<S: StreamLike>(&self, stream: StreamView<'_, S>) -> (res: MatchResult) {
        match_punct('\'', stream)
    }
}

impl DiagDisplay for Apos {
    open spec fn diag(&self) -> Option<Seq<char>> {
        Some(seq!['\''])
    }

    fn diag_string(&self) -> (s: String) {
        string_of_char('\'')
    }
}

/// A helper for parsing a comma (`,`) into a [`Punct`](crate::Punct).
#[derive(Debug, Clone, Copy, PartialEq, Eq, Structural)]
pub struct Comma;

impl FromStream for Comma {
    type Output = Self;

    open spec fn parse_requires() -> bool {
        true
    }

    open spec fn productive() -> bool {
        true
    }

    open spec fn parses(before: StreamState, res: Result<Self, Error>, after: StreamState) -> bool {
        punct_parses(',', before, res, after)
    }

    fn from_stream<S: StreamLike>(stream: &mut S) -> (res: Result<Self, Error>) {
        match parse_punct(',', stream) {
            Ok(()) => Ok(Comma),
            Err(e) => Err(e),
        }
    }
}

impl MatchStream for Comma {
    open spec fn matches(&self, st: StreamState, res: MatchResult) -> bool {
        one_token_match(st, res, |t: Tree| is_punct(t, ','))
    }

    fn match_stream<S: StreamLike>(&self, stream: StreamView<'_, S>) -> (res: MatchResult) {
        match_punct(',', stream)
    }
}

impl DiagDisplay for Comma {
    open spec fn diag(&self) -> Option<Seq<char>> {
        Some(seq![','])
    }

    fn diag_string(&self) -> (s: String) {
        string_of_char(',')
    }
}

/// A helper for parsing a left angle bracket (`<`) into a [`Punct`](crate::Punct).
#[derive(Debug, Clone, Copy, PartialEq, Eq, Structural)]
pub struct Less;

impl FromStream for Less {
    type Output = Self;

    open spec fn parse_requires() -> bool {
        true
    }

    open spec fn productive() -> bool {
        true
    }

    open spec fn parses(before: StreamState, res: Result<Self, Error>, after: StreamState) -> bool {
        punct_parses('<', before, res, after)
    }

    fn from_stream<S: StreamLike>(stream: &mut S) -> (res: Result<Self, Error>) {
        match parse_punct('<', stream) {
            Ok(()) => Ok(Less),
            Err(e) => Err(e),
        }
    }
}

impl MatchStream for Less {
    open spec fn matches(&self, st: StreamState, res: MatchResult) -> bool {
        one_token_match(st, res, |t: Tree| is_punct(t, '<'))
    }

    fn match_stream<S: StreamLike>(&self, stream: StreamView<'_, S>) -> (res: MatchResult) {
        match_punct('<', stream)
    }
}

impl DiagDisplay for Less {
    open spec fn diag(&self) -> Option<Seq<char>> {
        Some(seq!['<'])
    }

    fn diag_string(&self) -> (s: String) {
        string_of_char('<')
    }
}

/// A helper for parsing a period (`.`) into a [`Punct`](crate::Punct).
#[derive(Debug, Clone, Copy, PartialEq, Eq, Structural)]
pub struct Period;

impl FromStream for Period {
    type Output = Self;

    open spec fn parse_requires() -> bool {
        true
    }

    open spec fn productive() -> bool {
        true
    }

    open spec fn parses(before: StreamState, res: Result<Self, Error>, after: StreamState) -> bool {
        punct_parses('.', before, res, after)
    }

    fn from_stream<S: StreamLike>(stream: &mut S) -> (res: Result<Self, Error>) {
        match parse_punct('.', stream) {
            Ok(()) => Ok(Period),
            Err(e) => Err(e),
        }
    }
}

impl MatchStream for Period {
    open spec fn matches(&self, st: StreamState, res: MatchResult) -> bool {
        one_token_match(st, res, |t: Tree| is_punct(t, '.'))
    }

    fn match_stream<S: StreamLike>(&self, stream: StreamView<'_, S>) -> (res: MatchResult) {
        match_punct('.', stream)
    }
}

impl DiagDisplay for Period {
    open spec fn diag(&self) -> Option<Seq<char>> {
        Some(seq!['.'])
    }

    fn diag_string(&self) -> (s: String) {
        string_of_char('.')
    }
}

/// A helper for parsing a right angle bracket (`>`) into a [`Punct`](crate::Punct).
#[derive(Debug, Clone, Copy, PartialEq, Eq, Structural)]
pub struct Greater;

impl FromStream for Greater {
    type Output = Self;

    open spec fn parse_requires() -> bool {
        true
    }

    open spec fn productive() -> bool {
        true
    }

    open spec fn parses(before: StreamState, res: Result<Self, Error>, after: StreamState) -> bool {
        punct_parses('>', before, res, after)
    }

    fn from_stream<S: StreamLike>(stream: &mut S) -> (res: Result<Self, Error>) {
        match parse_punct('>', stream) {
            Ok(()) => Ok(Greater),
            Err(e) => Err(e),
        }
    }
}

impl MatchStream for Greater {
    open spec fn matches(&self, st: StreamState, res: MatchResult) -> bool {
        one_token_match(st, res, |t: Tree| is_punct(t, '>'))
    }

    fn match_stream<S: StreamLike>(&self, stream: StreamView<'_, S>) -> (res: MatchResult) {
        match_punct('>', stream)
    }
}

impl DiagDisplay for Greater {
    open spec fn diag(&self) -> Option<Seq<char>> {
        Some(seq!['>'])
    }

    fn diag_string(&self) -> (s: String) {
        string_of_char('>')
    }
}

/// A helper for parsing a backslash (`\`) into a [`Punct`](crate::Punct).
#[derive(Debug, Clone, Copy, PartialEq, Eq, Structural)]
pub struct Backslash;

impl FromStream for Backslash {
    type Output = Self;

    open spec fn parse_requires() -> bool {
        true
    }

    open spec fn productive() -> bool {
        true
    }

    open spec fn parses(before: StreamState, res: Result<Self, Error>, after: StreamState) -> bool {
        punct_parses('\\', before, res, after)
    }

    fn from_stream<S: StreamLike>(stream: &mut S) -> (res: Result<Self, Error>) {
        match parse_punct('\\', stream) {
            Ok(()) => Ok(Backslash),
            Err(e) => Err(e),
        }
    }
}

impl MatchStream for Backslash {
    open spec fn matches(&self, st: StreamState, res: MatchResult) -> bool {
        one_token_match(st, res, |t: Tree| is_punct(t, '\\'))
    }

    fn match_stream<S: StreamLike>(&self, stream: StreamView<'_, S>) -> (res: MatchResult) {
        match_punct('\\', stream)
    }
}

impl DiagDisplay for Backslash {
    open spec fn diag(&self) -> Option<Seq<char>> {
        Some(seq!['\\'])
    }

    fn diag_string(&self) -> (s: String) {
        string_of_char('\\')
    }
}

/// A helper for parsing a question mark (`?`) into a [`Punct`](crate::Punct).
#[derive(Debug, Clone, Copy, PartialEq, Eq, Structural)]
pub struct Question;

impl FromStream for Question {
    type Output = Self;

    open spec fn parse_requires() -> bool {
        true
    }

    open spec fn productive() -> bool {
        true
    }

    open spec fn parses(before: StreamState, res: Result<Self, Error>, after: StreamState) -> bool {
        punct_parses('?', before, res, after)
    }

    fn from_stream<S: StreamLike>(stream: &mut S) -> (res: Result<Self, Error>) {
        match parse_punct('?', stream) {
            Ok(()) => Ok(Question),
            Err(e) => Err(e),
        }
    }
}

impl MatchStream for Question {
    open spec fn matches(&self, st: StreamState, res: MatchResult) -> bool {
        one_token_match(st, res, |t: Tree| is_punct(t, '?'))
    }

    fn match_stream<S: StreamLike>(&self, stream: StreamView<'_, S>) -> (res: MatchResult) {
        match_punct('?', stream)
    }
}

impl DiagDisplay for Question {
    open spec fn diag(&self) -> Option<Seq<char>> {
        Some(seq!['?'])
    }

    fn diag_string(&self) -> (s: String) {
        string_of_char('?')
    }
}

/// A helper for parsing a tilde (`~`) into a [`Punct`](crate::Punct).
#[derive(Debug, Clone, Copy, PartialEq, Eq, Structural)]
pub struct Tilde;

impl FromStream for Tilde {
    type Output = Self;

    open spec fn parse_requires() -> bool {
        true
    }

    open spec fn productive() -> bool {
        true
    }

    open spec fn parses(before: StreamState, res: Result<Self, Error>, after: StreamState) -> bool {
        punct_parses('~', before, res, after)
    }

    fn from_stream<S: StreamLike>(stream: &mut S) -> (res: Result<Self, Error>) {
        match parse_punct('~', stream) {
            Ok(()) => Ok(Tilde),
            Err(e) => Err(e),
        }
    }
}

impl MatchStream for Tilde {
    open spec fn matches(&self, st: StreamState, res: MatchResult) -> bool {
        one_token_match(st, res, |t: Tree| is_punct(t, '~'))
    }

    fn match_stream<S: StreamLike>(&self, stream: StreamView<'_, S>) -> (res: MatchResult) {
        match_punct('~', stream)
    }
}

impl DiagDisplay for Tilde {
    open spec fn diag(&self) -> Option<Seq<char>> {
        Some(seq!['~'])
    }

    fn diag_string(&self) -> (s: String) {
        string_of_char('~')
    }
}

/// A helper for parsing a backtick (`` ` ``) into a [`Punct`](crate::Punct).
#[derive(Debug, Clone, Copy, PartialEq, Eq, Structural)]
pub struct Backtick;

impl FromStream for Backtick {
    type Output = Self;

    open spec fn parse_requires() -> bool {
        true
    }

    open spec fn productive() -> bool {
        true
    }

    open spec fn parses(before: StreamState, res: Result<Self, Error>, after: StreamState) -> bool {
        punct_parses('`', before, res, after)
    }

    fn from_stream<S: StreamLike>(stream: &mut S) -> (res: Result<Self, Error>) {
        match parse_punct('`', stream) {
            Ok(()) => Ok(Backtick),
            Err(e) => Err(e),
        }
    }
}

impl MatchStream for Backtick {
    open spec fn matches(&self, st: StreamState, res: MatchResult) -> bool {
        one_token_match(st, res, |t: Tree| is_punct(t, '`'))
    }

    fn match_stream<S: StreamLike>(&self, stream: StreamView<'_, S>) -> (res: MatchResult) {
        match_punct('`', stream)
    }
}

impl DiagDisplay for Backtick {
    open spec fn diag(&self) -> Option<Seq<char>> {
        Some(seq!['`'])
    }

    fn diag_string(&self) -> (s: String) {
        string_of_char('`')
    }
}

/// A helper for parsing an exclamation mark (`!`) into a [`Punct`](crate::Punct).
#[derive(Debug, Clone, Copy, PartialEq, Eq, Structural)]
pub struct Bang;

impl FromStream for Bang {
    type Output = Self;

    open spec fn parse_requires() -> bool {
        true
    }

    open spec fn productive() -> bool {
        true
    }

    open spec fn parses(before: StreamState, res: Result<Self, Error>, after: StreamState) -> bool {
        punct_parses('!', before, res, after)
    }

    fn from_stream<S: StreamLike>(stream: &mut S) -> (res: Result<Self, Error>) {
        match parse_punct('!', stream) {
            Ok(()) => Ok(Bang),
            Err(e) => Err(e),
        }
    }
}

impl MatchStream for Bang {
    open spec fn matches(&self, st: StreamState, res: MatchResult) -> bool {
        one_token_match(st, res, |t: Tree| is_punct(t, '!'))
    }

    fn match_stream<S: StreamLike>(&self, stream: StreamView<'_, S>) -> (res: MatchResult) {
        match_punct('!', stream)
    }
}

impl DiagDisplay for Bang {
    open spec fn diag(&self) -> Option<Seq<char>> {
        Some(seq!['!'])
    }

    fn diag_string(&self) -> (s: String) {
        string_of_char('!')
    }
}

/// A helper for parsing an at symbol (`@`) into a [`Punct`](crate::Punct).
#[derive(Debug, Clone, Copy, PartialEq, Eq, Structural)]
pub struct At;

impl FromStream for At {
    type Output = Self;

    open spec fn parse_requires() -> bool {
        true
    }

    open spec fn productive() -> bool {
        true
    }

    open spec fn parses(before: StreamState, res: Result<Self, Error>, after: StreamState) -> bool {
        punct_parses('@', before, res, after)
    }

    fn from_stream<S: StreamLike>(stream: &mut S) -> (res: Result<Self, Error>) {
        match parse_punct('@', stream) {
            Ok(()) => Ok(At),
            Err(e) => Err(e),
        }
    }
}

impl MatchStream for At {
    open spec fn matches(&self, st: StreamState, res: MatchResult) -> bool {
        one_token_match(st, res, |t: Tree| is_punct(t, '@'))
    }

    fn match_stream<S: StreamLike>(&self, stream: StreamView<'_, S>) -> (res: MatchResult) {
        match_punct('@', stream)
    }
}

impl DiagDisplay for At {
    open spec fn diag(&self) -> Option<Seq<char>> {
        Some(seq!['@'])
    }

    fn diag_string(&self) -> (s: String) {
        string_of_char('@')
    }
}

/// A helper for parsing a pound sign (`#`) into a [`Punct`](crate::Punct).
#[derive(Debug, Clone, Copy, PartialEq, Eq, Structural)]
pub struct Hash;

impl FromStream for Hash {
    type Output = Self;

    open spec fn parse_requires() -> bool {
        true
    }

    open spec fn productive() -> bool {
        true
    }

    open spec fn parses(before: StreamState, res: Result<Self, Error>, after: StreamState) -> bool {
        punct_parses('#', before, res, after)
    }

    fn from_stream<S: StreamLike>(stream: &mut S) -> (res: Result<Self, Error>) {
        match parse_punct('#', stream) {
            Ok(()) => Ok(Hash),
            Err(e) => Err(e),
        }
    }
}

impl MatchStream for Hash {
    open spec fn matches(&self, st: StreamState, res: MatchResult) -> bool {
        one_token_match(st, res, |t: Tree| is_punct(t, '#'))
    }

    fn match_stream<S: StreamLike>(&self, stream: StreamView<'_, S>) -> (res: MatchResult) {
        match_punct('#', stream)
    }
}

impl DiagDisplay for Hash {
    open spec fn diag(&self) -> Option<Seq<char>> {
        Some(seq!['#'])
    }

    fn diag_string(&self) -> (s: String) {
        string_of_char('#')
    }
}

/// A helper for parsing a dollar sign (`$`) into a [`Punct`](crate::Punct).
#[derive(Debug, Clone, Copy, PartialEq, Eq, Structural)]
pub struct Dollar;

impl FromStream for Dollar {
    type Output = Self;

    open spec fn parse_requires() -> bool {
        true
    }

    open spec fn productive() -> bool {
        true
    }

    open spec fn parses(before: StreamState, res: Result<Self, Error>, after: StreamState) -> bool {
        punct_parses('$', before, res, after)
    }

    fn from_stream<S: StreamLike>(stream: &mut S) -> (res: Result<Self, Error>) {
        match parse_punct('$', stream) {
            Ok(()) => Ok(Dollar),
            Err(e) => Err(e),
        }
    }
}

impl MatchStream for Dollar {
    open spec fn matches(&self, st: StreamState, res: MatchResult) -> bool {
        one_token_match(st, res, |t: Tree| is_punct(t, '$'))
    }

    fn match_stream<S: StreamLike>(&self, stream: StreamView<'_, S>) -> (res: MatchResult) {
        match_punct('$', stream)
    }
}

impl DiagDisplay for Dollar {
    open spec fn diag(&self) -> Option<Seq<char>> {
        Some(seq!['$'])
    }

    fn diag_string(&self) -> (s: String) {
        string_of_char('$')
    }
}

/// A helper for parsing a percent sign (`%`) into a [`Punct`](crate::Punct).
#[derive(Debug, Clone, Copy, PartialEq, Eq, Structural)]
pub struct Percent;

impl FromStream for Percent {
    type Output = Self;

    open spec fn parse_requires() -> bool {
        true
    }

    open spec fn productive() -> bool {
        true
    }

    open spec fn parses(before: StreamState, res: Result<Self, Error>, after: StreamState) -> bool {
        punct_parses('%', before, res, after)
    }

    fn from_stream<S: StreamLike>(stream: &mut S) -> (res: Result<Self, Error>) {
        match parse_punct('%', stream) {
            Ok(()) => Ok(Percent),
            Err(e) => Err(e),
        }
    }
}

impl MatchStream for Percent {
    open spec fn matches(&self, st: StreamState, res: MatchResult) -> bool {
        one_token_match(st, res, |t: Tree| is_punct(t, '%'))
    }

    fn match_stream<S: StreamLike>(&self, stream: StreamView<'_, S>) -> (res: MatchResult) {
        match_punct('%', stream)
    }
}

impl DiagDisplay for Percent {
    open spec fn diag(&self) -> Option<Seq<char>> {
        Some(seq!['%'])
    }

    fn diag_string(&self) -> (s: String) {
        string_of_char('%')
    }
}

/// A helper for parsing a caret (`^`) into a [`Punct`](crate::Punct).
#[derive(Debug, Clone, Copy, PartialEq, Eq, Structural)]
pub struct Caret;

impl FromStream for Caret {
    type Output = Self;

    open spec fn parse_requires() -> bool {
        true
    }

    open spec fn productive() -> bool {
        true
    }

    open spec fn parses(before: StreamState, res: Result<Self, Error>, after: StreamState) -> bool {
        punct_parses('^', before, res, after)
    }

    fn from_stream<S: StreamLike>(stream: &mut S) -> (res: Result<Self, Error>) {
        match parse_punct('^', stream) {
            Ok(()) => Ok(Caret),
            Err(e) => Err(e),
        }
    }
}

impl MatchStream for Caret {
    open spec fn matches(&self, st: StreamState, res: MatchResult) -> bool {
        one_token_match(st, res, |t: Tree| is_punct(t, '^'))
    }

    fn match_stream<S: StreamLike>(&self, stream: StreamView<'_, S>) -> (res: MatchResult) {
        match_punct('^', stream)
    }
}

impl DiagDisplay for Caret {
    open spec fn diag(&self) -> Option<Seq<char>> {
        Some(seq!['^'])
    }

    fn diag_string(&self) -> (s: String) {
        string_of_char('^')
    }
}

/// A helper for parsing an ampersand (`&`) into a [`Punct`](crate::Punct).
#[derive(Debug, Clone, Copy, PartialEq, Eq, Structural)]
pub struct Amp;

impl FromStream for Amp {
    type Output = Self;

    open spec fn parse_requires() -> bool {
        true
    }

    open spec fn productive() -> bool {
        true
    }

    open spec fn parses(before: StreamState, res: Result<Self, Error>, after: StreamState) -> bool {
        punct_parses('&', before, res, after)
    }

    fn from_stream<S: StreamLike>(stream: &mut S) -> (res: Result<Self, Error>) {
        match parse_punct('&', stream) {
            Ok(()) => Ok(Amp),
            Err(e) => Err(e),
        }
    }
}

impl MatchStream for Amp {
    open spec fn matches(&self, st: StreamState, res: MatchResult) -> bool {
        one_token_match(st, res, |t: Tree| is_punct(t, '&'))
    }

    fn match_stream<S: StreamLike>(&self, stream: StreamView<'_, S>) -> (res: MatchResult) {
        match_punct('&', stream)
    }
}

impl DiagDisplay for Amp {
    open spec fn diag(&self) -> Option<Seq<char>> {
        Some(seq!['&'])
    }

    fn diag_string(&self) -> (s: String) {
        string_of_char('&')
    }
}

/// A helper for parsing an asterisk (`*`) into a [`Punct`](crate::Punct).
#[derive(Debug, Clone, Copy, PartialEq, Eq, Structural)]
pub struct Star;

impl FromStream for Star {
    type Output = Self;

    open spec fn parse_requires() -> bool {
        true
    }

    open spec fn productive() -> bool {
        true
    }

    open spec fn parses(before: StreamState, res: Result<Self, Error>, after: StreamState) -> bool {
        punct_parses('*', before, res, after)
    }

    fn from_stream<S: StreamLike>(stream: &mut S) -> (res: Result<Self, Error>) {
        match parse_punct('*', stream) {
            Ok(()) => Ok(Star),
            Err(e) => Err(e),
        }
    }
}

impl MatchStream for Star {
    open spec fn matches(&self, st: StreamState, res: MatchResult) -> bool {
        one_token_match(st, res, |t: Tree| is_punct(t, '*'))
    }

    fn match_stream<S: StreamLike>(&self, stream: StreamView<'_, S>) -> (res: MatchResult) {
        match_punct('*', stream)
    }
}

impl DiagDisplay for Star {
    open spec fn diag(&self) -> Option<Seq<char>> {
        Some(seq!['*'])
    }

    fn diag_string(&self) -> (s: String) {
        string_of_char('*')
    }
}

/// A helper for parsing a minus sign (`-`) into a [`Punct`](crate::Punct).
#[derive(Debug, Clone, Copy, PartialEq, Eq, Structural)]
pub struct Dash;

impl FromStream for Dash {
    type Output = Self;

    open spec fn parse_requires() -> bool {
        true
    }

    open spec fn productive() -> bool {
        true
    }

    open spec fn parses(before: StreamState, res: Result<Self, Error>, after: StreamState) -> bool {
        punct_parses('-', before, res, after)
    }

    fn from_stream<S: StreamLike>(stream: &mut S) -> (res: Result<Self, Error>) {
        match parse_punct('-', stream) {
            Ok(()) => Ok(Dash),
            Err(e) => Err(e),
        }
    }
}

impl MatchStream for Dash {
    open spec fn matches(&self, st: StreamState, res: MatchResult) -> bool {
        one_token_match(st, res, |t: Tree| is_punct(t, '-'))
    }

    fn match_stream<S: StreamLike>(&self, stream: StreamView<'_, S>) -> (res: MatchResult) {
        match_punct('-', stream)
    }
}

impl DiagDisplay for Dash {
    open spec fn diag(&self) -> Option<Seq<char>> {
        Some(seq!['-'])
    }

    fn diag_string(&self) -> (s: String) {
        string_of_char('-')
    }
}

/// A helper for parsing an underscore (`_`) into a [`Punct`](crate::Punct).
#[derive(Debug, Clone, Copy, PartialEq, Eq, Structural)]
pub struct Underscore;

impl FromStream for Underscore {
    type Output = Self;

    open spec fn parse_requires() -> bool {
        true
    }

    open spec fn productive() -> bool {
        true
    }

    open spec fn parses(before: StreamState, res: Result<Self, Error>, after: StreamState) -> bool {
        punct_parses('_', before, res, after)
    }

    fn from_stream<S: StreamLike>(stream: &mut S) -> (res: Result<Self, Error>) {
        match parse_punct('_', stream) {
            Ok(()) => Ok(Underscore),
            Err(e) => Err(e),
        }
    }
}

impl MatchStream for Underscore {
    open spec fn matches(&self, st: StreamState, res: MatchResult) -> bool {
        one_token_match(st, res, |t: Tree| is_punct(t, '_'))
    }

    fn match_stream<S: StreamLike>(&self, stream: StreamView<'_, S>) -> (res: MatchResult) {
        match_punct('_', stream)
    }
}

impl DiagDisplay for Underscore {
    open spec fn diag(&self) -> Option<Seq<char>> {
        Some(seq!['_'])
    }

    fn diag_string(&self) -> (s: String) {
        string_of_char('_')
    }
}

/// A helper for parsing a plus sign (`+`) into a [`Punct`](crate::Punct).
#[derive(Debug, Clone, Copy, PartialEq, Eq, Structural)]
pub struct Plus;

impl FromStream for Plus {
    type Output = Self;

    open spec fn parse_requires() -> bool {
        true
    }

    open spec fn productive() -> bool {
        true
    }

    open spec fn parses(before: StreamState, res: Result<Self, Error>, after: StreamState) -> bool {
        punct_parses('+', before, res, after)
    }

    fn from_stream<S: StreamLike>(stream: &mut S) -> (res: Result<Self, Error>) {
        match parse_punct('+', stream) {
            Ok(()) => Ok(Plus),
            Err(e) => Err(e),
        }
    }
}

impl MatchStream for Plus {
    open spec fn matches(&self, st: StreamState, res: MatchResult) -> bool {
        one_token_match(st, res, |t: Tree| is_punct(t, '+'))
    }

    fn match_stream<S: StreamLike>(&self, stream: StreamView<'_, S>) -> (res: MatchResult) {
        match_punct('+', stream)
    }
}

impl DiagDisplay for Plus {
    open spec fn diag(&self) -> Option<Seq<char>> {
        Some(seq!['+'])
    }

    fn diag_string(&self) -> (s: String) {
        string_of_char('+')
    }
}

/// A helper for parsing an equals sign (`=`) into a [`Punct`](crate::Punct).
#[derive(Debug, Clone, Copy, PartialEq, Eq, Structural)]
pub struct Equals;

impl FromStream for Equals {
    type Output = Self;

    open spec fn parse_requires() -> bool {
        true
    }

    open spec fn productive() -> bool {
        true
    }

    open spec fn parses(before: StreamState, res: Result<Self, Error>, after: StreamState) -> bool {
        punct_parses('=', before, res, after)
    }

    fn from_stream<S: StreamLike>(stream: &mut S) -> (res: Result<Self, Error>) {
        match parse_punct('=', stream) {
            Ok(()) => Ok(Equals),
            Err(e) => Err(e),
        }
    }
}

impl MatchStream for Equals {
    open spec fn matches(&self, st: StreamState, res: MatchResult) -> bool {
        one_token_match(st, res, |t: Tree| is_punct(t, '='))
    }

    fn match_stream<S: StreamLike>(&self, stream: StreamView<'_, S>) -> (res: MatchResult) {
        match_punct('=', stream)
    }
}

impl DiagDisplay for Equals {
    open spec fn diag(&self) -> Option<Seq<char>> {
        Some(seq!['='])
    }

    fn diag_string(&self) -> (s: String) {
        string_of_char('=')
    }
}

} // verus!
