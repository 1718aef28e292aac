//! Streams of tokens: the buffered [`Stream`], non-consuming [`StreamView`]s,
//! and the traits that parsers and patterns implement.
use crate::error::{error_is, Error, ErrorText, Text};
use crate::text::{join_trees, joined};
use crate::tokens::{lemma_trees_view, tree_view, trees_view, TokenStream, TokenTree, Tree};
use crate::utils::group::Group;
use proc_macro2::Span;
use vstd::prelude::*;
use vstd::std_specs::convert::FromSpecImpl;

verus! {

/// What a stream holds: the tokens that remain, and the span of its closing
/// delimiter as far as it is known.
pub struct StreamState {
    /// The tokens that remain, next one first.
    pub tokens: Seq<Tree>,
    /// See [`StreamLike::span_close`].
    pub span_close: Option<Span>,
}

/// `n` capped at `len`.
pub open spec fn cap(n: int, len: int) -> int {
    if n <= len {
        n
    } else {
        len
    }
}

impl StreamState {
    /// The state after skipping `n` tokens (all of them where fewer remain).
    pub open spec fn skipped(self, n: int) -> StreamState {
        StreamState {
            tokens: self.tokens.skip(cap(n, self.tokens.len() as int)),
            span_close: self.span_close,
        }
    }

    /// The state after popping the next token, if any. Popping records the
    /// popped token's span as the closing span where none is known yet.
    pub open spec fn popped(self) -> StreamState {
        if self.tokens.len() == 0 {
            self
        } else {
            StreamState {
                tokens: self.tokens.drop_first(),
                span_close: match self.span_close {
                    Some(s) => Some(s),
                    None => Some(self.tokens[0].span()),
                },
            }
        }
    }

    /// The `n`th token, if any.
    pub open spec fn nth(self, n: int) -> Option<Tree> {
        if 0 <= n < self.tokens.len() {
            Some(self.tokens[n])
        } else {
            None
        }
    }

    /// The location an error at the end of the stream points to, where it is
    /// known.
    pub open spec fn eos_at(self, at: Span) -> bool {
        self.span_close matches Some(s) ==> at == s
    }
}

/// `e` is a recoverable error at the end of the stream `st` that expected
/// `expected`.
pub open spec fn eos_error(e: Error, expected: Text, st: StreamState) -> bool {
    &&& e.expected@ == expected
    &&& e.got@ == Text::EndOfStream
    &&& !e.fatal
    &&& st.eos_at(e.at)
}

/// `e` is a recoverable error that expected `expected` and found the token
/// `t` instead.
pub open spec fn mismatch_error(e: Error, expected: Text, t: Tree) -> bool {
    error_is(e, expected, Text::Backticks(t.text()), t.span())
}

/// A pattern of one token, accepting the tokens `accepts` holds of, gives
/// `res` on a stream in state `st`: `Ok(1)` where the next token is
/// accepted, else the text of that token, or no text at the end of the
/// stream.
pub open spec fn one_token_match(st: StreamState, res: MatchResult, accepts: spec_fn(Tree) -> bool) -> bool {
    match st.nth(0) {
        None => res == Err::<usize, Option<String>>(None),
        Some(t) => if accepts(t) {
            res == Ok::<usize, Option<String>>(1)
        } else {
            res matches Err(s) && s matches Some(s) && s@ == t.text()
        },
    }
}

/// The tree an optional reference points to, as a value.
pub open spec fn opt_view(t: Option<&TokenTree>) -> Option<Tree> {
    match t {
        Some(t) => Some(tree_view(*t)),
        None => None,
    }
}

/// A type that can be viewed like a [`Stream`], but without popping tokens.
///
/// See [`StreamView`].
pub trait StreamLike: Sized {
    /// The representation invariant.
    spec fn inv(&self) -> bool;

    /// What the stream holds.
    spec fn state(&self) -> StreamState;

    /// The last token of the stream underneath: for a stream, its last
    /// remaining token; for a view, the last token of the stream it views,
    /// whether or not the view has run past it.
    spec fn last(&self) -> Option<Tree>;

    /// No stream holds more tokens than a `usize` counts, and where tokens
    /// remain, the last token underneath is the last of them.
    proof fn lemma_len_bound(&self)
        requires
            self.inv(),
        ensures
            self.state().tokens.len() <= usize::MAX,
            self.state().tokens.len() > 0 ==> self.last() == Some(self.state().tokens.last()),
    ;

    /// Consumes the next token in the stream, if any.
    ///
    /// Also updates [`Self::span_close`].
    fn pop(&mut self) -> (res: Option<TokenTree>)
        requires
            (*old(self)).inv(),
        ensures
            (*final(self)).inv(),
            (*final(self)).state() == (*old(self)).state().popped(),
            match res {
                Some(t) => (*old(self)).state().tokens.len() > 0 && t@ == (*old(self)).state().tokens[0],
                None => (*old(self)).state().tokens.len() == 0,
            },
    ;

    /// Returns the next token in the stream, if any.
    fn peek(&mut self) -> (res: Option<&TokenTree>)
        requires
            (*old(self)).inv(),
        ensures
            (*final(self)).inv(),
            (*final(self)).state() == (*old(self)).state(),
            opt_view(res) == (*old(self)).state().nth(0),
    ;

    /// Returns the `n`th token in the stream, if any.
    fn peek_nth(&mut self, n: usize) -> (res: Option<&TokenTree>)
        requires
            (*old(self)).inv(),
        ensures
            (*final(self)).inv(),
            (*final(self)).state() == (*old(self)).state(),
            opt_view(res) == (*old(self)).state().nth(n as int),
    ;

    /// Returns the last token in the stream, if any.
    ///
    /// Where tokens remain, that is the last of them; a view that has run
    /// past the end of its stream gives the last token of that stream.
    fn peek_last(&mut self) -> (res: Option<&TokenTree>)
        requires
            (*old(self)).inv(),
        ensures
            (*final(self)).inv(),
            (*final(self)).state() == (*old(self)).state(),
            opt_view(res) == (*old(self)).last(),
    ;

    /// Returns the next `n` tokens in the stream (fewer where fewer remain).
    fn peek_many(&mut self, n: usize) -> (res: &[TokenTree])
        requires
            (*old(self)).inv(),
        ensures
            (*final(self)).inv(),
            (*final(self)).state() == (*old(self)).state(),
            trees_view(res@) == (*old(self)).state().tokens.take(
                cap(n as int, (*old(self)).state().tokens.len() as int),
            ),
    ;

    /// Returns the next `n` tokens in the stream, starting at `at` (fewer
    /// where fewer remain).
    fn peek_many_at(&mut self, n: usize, at: usize) -> (res: &[TokenTree])
        requires
            (*old(self)).inv(),
        ensures
            (*final(self)).inv(),
            (*final(self)).state() == (*old(self)).state(),
            trees_view(res@) == (*old(self)).state().tokens.subrange(
                cap(at as int, (*old(self)).state().tokens.len() as int),
                cap(at + n, (*old(self)).state().tokens.len() as int),
            ),
    ;

    /// Returns the tokens in the stream from `at` on.
    fn peek_from(&mut self, at: usize) -> (res: &[TokenTree])
        requires
            (*old(self)).inv(),
        ensures
            (*final(self)).inv(),
            (*final(self)).state() == (*old(self)).state(),
            trees_view(res@) == (*old(self)).state().tokens.skip(
                cap(at as int, (*old(self)).state().tokens.len() as int),
            ),
    ;

    /// Skips the next `n` tokens.
    fn skip(&mut self, n: usize)
        requires
            (*old(self)).inv(),
        ensures
            (*final(self)).inv(),
            (*final(self)).state() == (*old(self)).state().skipped(n as int),
    ;

    /// Stringifies the remaining tokens in the stream.
    ///
    /// It's impossible to get the source of a token stream, so this is lossy:
    /// it simply concatenates all the remaining tokens with a space between
    /// each one. This is purely for diagnostic purposes.
    fn stringify(&mut self) -> (s: String)
        requires
            (*old(self)).inv(),
        ensures
            (*final(self)).inv(),
            (*final(self)).state() == (*old(self)).state(),
            s@ == joined((*old(self)).state().tokens),
    ;

    /// The span of the closing delimiter for this group.
    ///
    /// If there is no closing delimiter, points to the last token in the
    /// stream.
    ///
    /// ```txt
    /// `( ... )`
    ///        ^
    ///
    /// `let x = y;`
    ///           ^
    /// ```
    fn span_close(&self) -> (res: Option<Span>)
        ensures
            res == self.state().span_close,
    ;

    /// Creates a new [`Error`] with <code>got: [ErrorText::EndOfStream]</code>,
    /// at [`Self::span_close`] (or the call site, where that is not known).
    fn err_eos(&self, expected: ErrorText) -> (e: Error)
        ensures
            e.expected == expected,
            e.got@ == Text::EndOfStream,
            !e.fatal,
            self.state().eos_at(e.at),
    {
        let at = match self.span_close() {
            Some(s) => s,
            None => Span::call_site(),
        };
        Error { expected, got: ErrorText::EndOfStream, fatal: false, at }
    }

    /// Returns whether or not there are any more tokens in the stream.
    fn is_empty(&mut self) -> (res: bool)
        requires
            (*old(self)).inv(),
        ensures
            (*final(self)).inv(),
            (*final(self)).state() == (*old(self)).state(),
            res == ((*old(self)).state().tokens.len() == 0),
    {
        self.peek().is_none()
    }

    /// Returns the next token, or what a pattern reports when it finds the end
    /// of the stream: no text.
    fn peek_or(&mut self) -> (res: Result<&TokenTree, Option<String>>)
        requires
            (*old(self)).inv(),
        ensures
            (*final(self)).inv(),
            (*final(self)).state() == (*old(self)).state(),
            match res {
                Ok(t) => (*old(self)).state().nth(0) == Some(t@),
                Err(s) => (*old(self)).state().tokens.len() == 0 && s is None,
            },
    {
        match self.peek() {
            Some(t) => Ok(t),
            None => Err(None),
        }
    }

    /// Returns a new sub-view based on `self`.
    fn view(&mut self) -> (v: StreamView<'_, Self>)
        requires
            (*old(self)).inv(),
        ensures
            *v.stream == *old(self),
            v.skip == 0,
            *final(self) == *final(v.stream),
            v.span_close == (*old(self)).state().span_close,
    {
        let span_close = self.span_close();
        StreamView { stream: self, skip: 0, span_close }
    }

    /// Returns a new sub-view based on `self`, skipping the first `skip`
    /// tokens.
    fn view_from(&mut self, skip: usize) -> (v: StreamView<'_, Self>)
        requires
            (*old(self)).inv(),
        ensures
            *v.stream == *old(self),
            v.skip == skip,
            *final(self) == *final(v.stream),
            v.span_close == (*old(self)).state().span_close,
    {
        let span_close = self.span_close();
        StreamView { stream: self, skip, span_close }
    }
}

/// Parse a type out of a stream.
pub trait FromStream {
    /// The type to be produced.
    ///
    /// Need not be `Self`; see [`crate::Parens`] for an example.
    type Output;

    /// What the parser needs of its parts before it may run.
    open spec fn parse_requires() -> bool {
        true
    }

    /// Whether every successful parse consumes at least one token.
    open spec fn productive() -> bool {
        false
    }

    /// The parser, run on a stream in state `before`, may give `res` and
    /// leave the stream in state `after`. Where a parser does not say, any
    /// outcome may come.
    open spec fn parses(before: StreamState, res: Result<Self::Output, Error>, after: StreamState) -> bool {
        true
    }

    /// Attempt to parse the type from the stream.
    ///
    /// Note that you must respect [`Error::fatal`] from children. If a fatal
    /// error is encountered at any point, it must be bubbled up untouched.
    ///
    /// A parser never adds tokens to the stream, and a productive one consumes
    /// a token whenever it succeeds.
    fn from_stream<S: StreamLike>(stream: &mut S) -> (res: Result<Self::Output, Error>)
        requires
            Self::parse_requires(),
            (*old(stream)).inv(),
        ensures
            (*final(stream)).inv(),
            Self::parses((*old(stream)).state(), res, (*final(stream)).state()),
            (*final(stream)).state().tokens.len() <= (*old(stream)).state().tokens.len(),
            Self::productive() && res is Ok ==> (*final(stream)).state().tokens.len() < (
            *old(stream)).state().tokens.len(),
    ;
}

/// What a pattern gives: how many tokens it matched, or the text it found in
/// their place (none at the end of the stream).
pub type MatchResult = Result<usize, Option<String>>;

/// Two printed patterns one after the other, where both are said.
pub open spec fn join_diag(a: Option<Seq<char>>, b: Option<Seq<char>>) -> Option<Seq<char>> {
    match (a, b) {
        (Some(a), Some(b)) => Some(a + b),
        _ => None,
    }
}

/// Print a [`MatchStream`] pattern out, for use in diagnostics.
pub trait DiagDisplay {
    /// How the pattern prints, where that is said.
    open spec fn diag(&self) -> Option<Seq<char>> {
        None
    }

    /// The pattern as it prints.
    fn diag_string(&self) -> (s: String)
        ensures
            self.diag() matches Some(d) ==> s@ == d,
    ;
}

/// Test a pattern against a [`StreamView`].
pub trait MatchStream: DiagDisplay {
    /// Run on a stream in state `st`, the pattern may give `res`. Where a
    /// pattern does not say, any outcome may come.
    open spec fn matches(&self, st: StreamState, res: MatchResult) -> bool {
        true
    }

    /// Test the pattern against the stream.
    ///
    /// If it matches, returns `Ok(n)`, where `n` is how many tokens the pattern
    /// matched against; never more than the stream holds.
    ///
    /// If it fails, returns `Err(got)`. If `got` is `Some`, then it is the
    /// data that was found instead of itself; else, the end of the stream was
    /// found before the end of the pattern. The viewed stream is left as it
    /// was.
    fn match_stream<S: StreamLike>(&self, stream: StreamView<'_, S>) -> (res: MatchResult)
        requires
            stream.inv(),
        ensures
            self.matches(stream.state(), res),
            res matches Ok(n) ==> n <= stream.state().tokens.len(),
            (*final(stream.stream)).inv(),
            (*final(stream.stream)).state() == (*old(stream.stream)).state(),
    ;
}

/// A buffered stream of tokens.
///
/// Tokens are moved from the pending source into the look-ahead buffer as
/// far as they are peeked at.
pub struct Stream {
    /// Tokens not yet pulled into the buffer, the next one last.
    pending: Vec<TokenTree>,
    /// Tokens pulled for look-ahead, the next one first.
    buffer: Vec<TokenTree>,
    span_close: Option<Span>,
}

impl Stream {
    /// The remaining tokens, next one first.
    pub closed spec fn contents(&self) -> Seq<TokenTree> {
        self.buffer@ + self.pending@.reverse()
    }

    /// How many tokens the look-ahead buffer holds.
    pub closed spec fn buffered(&self) -> nat {
        self.buffer@.len()
    }

    /// A stream over the given tokens. With no closing delimiter, its
    /// closing span points to the last token, if any.
    pub fn new(ts: TokenStream) -> (s: Self)
        ensures
            s.inv(),
            s.state().tokens == ts@.0,
            s.state().span_close == (if ts@.0.len() == 0 {
                None
            } else {
                Some(ts@.0.last().span())
            }),
    {
        proof {
            lemma_trees_view(ts.trees@);
        }
        let len = ts.trees.len();
        let span_close = if len == 0 {
            None
        } else {
            Some(ts.trees[len - 1].span())
        };
        Self::from_trees(ts.trees, span_close)
    }

    /// A stream over the inner tokens of a group, whose closing span is that
    /// of the group.
    ///
    /// Prefer this to `Stream::new(group.inner)`: it improves diagnostics at
    /// the end of the group.
    pub fn from_group(group: Group) -> (s: Self)
        ensures
            s.inv(),
            s.state().tokens == group.inner@.0,
            s.state().span_close == Some(group.span_close),
    {
        Self::from_trees(group.inner.trees, Some(group.span_close))
    }

    fn from_trees(trees: Vec<TokenTree>, span_close: Option<Span>) -> (s: Self)
        ensures
            s.inv(),
            s.state().tokens == trees_view(trees@),
            s.state().span_close == span_close,
    {
        let mut trees = trees;
        let ghost all = trees@;
        let mut pending: Vec<TokenTree> = Vec::new();
        proof {
            assert(all.len() == trees.len());
        }
        while trees.len() > 0
            invariant
                all == trees@ + pending@.reverse(),
                all.len() <= usize::MAX,
            decreases trees.len(),
        {
            let ghost before = trees@;
            let t = trees.pop().unwrap();
            pending.push(t);
            proof {
                assert(pending@.reverse() =~= seq![t] + old_reverse(pending@));
                assert(before =~= trees@ + seq![t]);
                assert(all =~= trees@ + pending@.reverse());
            }
        }
        let s = Stream { pending, buffer: Vec::new(), span_close };
        proof {
            assert(s.contents() =~= all);
        }
        s
    }

    /// Overrides this stream's [closing span](StreamLike::span_close).
    pub fn set_span_close(&mut self, span_close: Span)
        ensures
            (*final(self)).inv() == (*old(self)).inv(),
            (*final(self)).state() == (StreamState { span_close: Some(span_close), ..(*old(self)).state() }),
            (*final(self)).buffered() == (*old(self)).buffered(),
    {
        self.span_close = Some(span_close);
    }

    /// Pulls up to `n` more tokens into the look-ahead buffer, unless it
    /// already holds `n`.
    fn pull(&mut self, n: usize)
        requires
            (*old(self)).inv(),
        ensures
            (*final(self)).inv(),
            (*final(self)).contents() == (*old(self)).contents(),
            final(self).span_close == old(self).span_close,
            (*final(self)).buffered() >= cap(n as int, (*old(self)).contents().len() as int),
            (*old(self)).buffered() >= n ==> (*final(self)).buffered() == (*old(self)).buffered(),
    {
        if self.buffer.len() >= n {
            return ;
        }
        let mut taken: usize = 0;
        while taken < n && self.pending.len() > 0
            invariant
                self.inv(),
                self.contents() == (*old(self)).contents(),
                self.span_close == old(self).span_close,
                taken <= n,
                self.buffer@.len() == old(self).buffer@.len() + taken,
                self.buffer@.len() + self.pending@.len() == (*old(self)).contents().len(),
            decreases self.pending.len(),
        {
            let ghost before = self.contents();
            let ghost p = self.pending@;
            let t = self.pending.pop().unwrap();
            self.buffer.push(t);
            taken += 1;
            proof {
                assert(p =~= self.pending@.push(t));
                assert(p.reverse() =~= seq![t] + self.pending@.reverse());
                assert(self.contents() =~= before);
            }
        }
    }

    /// How many tokens can be handed out as one slice.
    fn contiguous_len(&self) -> (n: usize)
        ensures
            n == self.buffered(),
    {
        self.buffer.len()
    }
}

impl StreamLike for Stream {
    closed spec fn inv(&self) -> bool {
        self.buffer@.len() + self.pending@.len() <= usize::MAX
    }

    closed spec fn state(&self) -> StreamState {
        StreamState { tokens: trees_view(self.contents()), span_close: self.span_close }
    }

    open spec fn last(&self) -> Option<Tree> {
        let t = self.state().tokens;
        if t.len() == 0 {
            None
        } else {
            Some(t.last())
        }
    }

    proof fn lemma_len_bound(&self) {
        lemma_trees_view(self.contents());
    }

    fn pop(&mut self) -> (res: Option<TokenTree>) {
        proof {
            lemma_trees_view(self.contents());
        }
        let ghost c = self.contents();
        let res = if self.buffer.len() > 0 {
            Some(self.buffer.remove(0))
        } else {
            self.pending.pop()
        };
        if let Some(t) = &res {
            if self.span_close.is_none() {
                self.span_close = Some(t.span());
            }
        }
        proof {
            lemma_trees_view(self.contents());
            if c.len() > 0 {
                assert(self.contents() =~= c.drop_first());
                assert(trees_view(self.contents()) =~= trees_view(c).drop_first());
            } else {
                assert(self.contents() =~= c);
            }
        }
        res
    }

    fn peek(&mut self) -> (res: Option<&TokenTree>) {
        self.peek_nth(0)
    }

    fn peek_nth(&mut self, n: usize) -> (res: Option<&TokenTree>) {
        if self.buffer.len() <= n {
            self.pull(n.saturating_add(1));
        }
        proof {
            lemma_trees_view(self.contents());
        }
        if n < self.buffer.len() {
            Some(&self.buffer[n])
        } else {
            None
        }
    }

    fn peek_last(&mut self) -> (res: Option<&TokenTree>)
        ensures
            opt_view(res) == (*old(self)).state().nth((*old(self)).state().tokens.len() - 1),
    {
        self.pull(usize::MAX);
        proof {
            lemma_trees_view(self.contents());
        }
        let len = self.buffer.len();
        if len > 0 {
            Some(&self.buffer[len - 1])
        } else {
            None
        }
    }

    fn peek_many(&mut self, n: usize) -> (res: &[TokenTree]) {
        self.peek_many_at(n, 0)
    }

    fn peek_many_at(&mut self, n: usize, at: usize) -> (res: &[TokenTree]) {
        let wanted = at.saturating_add(n);
        self.pull(wanted);
        let len = self.contiguous_len();
        let end = if wanted < len {
            wanted
        } else {
            len
        };
        let start = if at < end {
            at
        } else {
            end
        };
        proof {
            lemma_trees_view(self.contents());
            lemma_trees_view(self.buffer@.subrange(start as int, end as int));
            assert(trees_view(self.buffer@.subrange(start as int, end as int))
                =~= trees_view(self.contents()).subrange(start as int, end as int));
        }
        &self.buffer.as_slice()[start..end]
    }

    fn peek_from(&mut self, at: usize) -> (res: &[TokenTree]) {
        self.pull(usize::MAX);
        let len = self.contiguous_len();
        let start = if at < len {
            at
        } else {
            len
        };
        proof {
            lemma_trees_view(self.contents());
            lemma_trees_view(self.buffer@.subrange(start as int, len as int));
            assert(trees_view(self.buffer@.subrange(start as int, len as int))
                =~= trees_view(self.contents()).skip(start as int));
        }
        &self.buffer.as_slice()[start..len]
    }

    fn skip(&mut self, n: usize) {
        let ghost c = self.contents();
        if self.buffer.len() < n {
            let rest = n - self.buffer.len();
            self.buffer.clear();
            let mut i: usize = 0;
            while i < rest && self.pending.len() > 0
                invariant
                    self.buffer@.len() == 0,
                    self.inv(),
                    i <= rest,
                    rest == n - old(self).buffer@.len(),
                    c == (*old(self)).contents(),
                    self.span_close == old(self).span_close,
                    self.contents() == c.skip(old(self).buffer@.len() + i),
                    old(self).buffer@.len() + i <= c.len(),
                decreases self.pending.len(),
            {
                let ghost p = self.pending@;
                let ghost prev = self.contents();
                self.pending.pop();
                i += 1;
                proof {
                    assert(p.reverse() =~= seq![p.last()] + self.pending@.reverse());
                    assert(self.contents() =~= prev.drop_first());
                    assert(prev.drop_first() =~= c.skip(old(self).buffer@.len() + i));
                }
            }
        } else {
            let rest = self.buffer.split_off(n);
            self.buffer = rest;
            proof {
                assert(self.contents() =~= c.skip(n as int));
            }
        }
        proof {
            lemma_trees_view(c);
            lemma_trees_view(self.contents());
            assert(trees_view(self.contents()) =~= trees_view(c).skip(cap(n as int, c.len() as int)));
        }
    }

    fn stringify(&mut self) -> (s: String) {
        self.pull(usize::MAX);
        proof {
            assert(self.buffer@ =~= self.contents());
        }
        join_trees(self.buffer.as_slice())
    }

    fn span_close(&self) -> (res: Option<Span>) {
        self.span_close
    }
}

impl From<TokenStream> for Stream {
    /// A stream over the given tokens; see [`Stream::new`].
    fn from(ts: TokenStream) -> (s: Self)
        ensures
            s.inv(),
            s.state().tokens == ts@.0,
            s.state().span_close == (if ts@.0.len() == 0 {
                None
            } else {
                Some(ts@.0.last().span())
            }),
    {
        Stream::new(ts)
    }
}

impl From<Group> for Stream {
    /// A stream over the inner tokens of a group, preserving its closing
    /// span; see [`Stream::from_group`].
    fn from(group: Group) -> (s: Self)
        ensures
            s.inv(),
            s.state().tokens == group.inner@.0,
            s.state().span_close == Some(group.span_close),
    {
        Stream::from_group(group)
    }
}

/// Two streams over the same tokens may differ in how many are buffered, so
/// the conversion is described by the `ensures` of `from` (as by
/// [`Stream::new`]), not by a value.
impl FromSpecImpl<TokenStream> for Stream {
    open spec fn obeys_from_spec() -> bool {
        false
    }

    open spec fn from_spec(ts: TokenStream) -> Stream {
        arbitrary()
    }
}

/// See the conversion from [`TokenStream`]; it is described by the `ensures`
/// of `from` (as by [`Stream::from_group`]).
impl FromSpecImpl<Group> for Stream {
    open spec fn obeys_from_spec() -> bool {
        false
    }

    open spec fn from_spec(g: Group) -> Stream {
        arbitrary()
    }
}

/// `s.drop_last().reverse()`.
spec fn old_reverse<A>(s: Seq<A>) -> Seq<A> {
    s.drop_last().reverse()
}

/// `a + b`, or `usize::MAX` where that does not fit.
pub open spec fn sat_add(a: usize, b: usize) -> usize {
    if a + b <= usize::MAX {
        (a + b) as usize
    } else {
        usize::MAX
    }
}

/// A view into a stream that's allowed to pull into its buffer, but not
/// allowed to pop elements.
pub struct StreamView<'a, S> {
    /// The stream viewed.
    pub stream: &'a mut S,
    /// How many of its tokens the view has skipped.
    pub skip: usize,
    /// The view's own closing span.
    pub span_close: Option<Span>,
}

impl<'a, S: StreamLike> StreamView<'a, S> {
    /// The views `self` and `other` are of the same stream, which holds the
    /// same tokens in both.
    pub open spec fn same_base(&self, other: &Self) -> bool {
        &&& self.stream.state() == other.stream.state()
        &&& self.stream.inv() == other.stream.inv()
    }

    /// A view of the same stream as `self`, skipping `n` more tokens. It
    /// reads as `self` does after skipping `n` tokens.
    pub fn sub_view(&mut self, n: usize) -> (v: StreamView<'_, S>)
        requires
            (*old(self)).inv(),
        ensures
            *v.stream == *old(self).stream,
            v.inv(),
            v.state() == (*old(self)).state().skipped(n as int),
            final(self).skip == old(self).skip,
            final(self).span_close == old(self).span_close,
            *final(final(self).stream) == *final(old(self).stream),
            *final(self).stream == *final(v.stream),
    {
        proof {
            self.stream.lemma_len_bound();
            let t = self.stream.state().tokens;
            let k = cap(self.skip as int, t.len() as int);
            assert(t.skip(k).skip(cap(n as int, t.len() - k)) =~= t.skip(
                cap(self.skip.saturating_add(n) as int, t.len() as int),
            ));
        }
        StreamView { stream: &mut *self.stream, skip: self.skip.saturating_add(n), span_close: self.span_close }
    }

    /// Returns how many tokens have been skipped so far.
    pub fn skipped(&self) -> (n: usize)
        ensures
            n == self.skip,
    {
        self.skip
    }

    /// Un-skips any tokens that have been skipped.
    pub fn reset_skip(&mut self)
        ensures
            (*final(self)).same_base(old(self)),
            *final(final(self).stream) == *final(old(self).stream),
            final(self).skip == 0,
            (*final(self)).state() == (StreamState {
                tokens: old(self).stream.state().tokens,
                span_close: (*old(self)).state().span_close,
            }),
    {
        self.skip = 0;
        proof {
            let t = self.stream.state().tokens;
            assert(t.skip(0) =~= t);
        }
    }
}

impl<'a, S: StreamLike> StreamLike for StreamView<'a, S> {
    open spec fn inv(&self) -> bool {
        self.stream.inv()
    }

    open spec fn state(&self) -> StreamState {
        let t = self.stream.state().tokens;
        StreamState {
            tokens: t.skip(cap(self.skip as int, t.len() as int)),
            span_close: self.span_close,
        }
    }

    open spec fn last(&self) -> Option<Tree> {
        self.stream.last()
    }

    proof fn lemma_len_bound(&self) {
        self.stream.lemma_len_bound();
    }

    fn pop(&mut self) -> (res: Option<TokenTree>)
        ensures
            (*final(self)).same_base(old(self)),
            *final(final(self).stream) == *final(old(self).stream),
            final(self).skip == (if res is Some {
                sat_add(old(self).skip, 1)
            } else {
                old(self).skip
            }),
    {
        let t = match self.peek() {
            Some(t) => t.clone(),
            None => {
                return None;
            },
        };
        if self.span_close.is_none() {
            self.span_close = Some(t.span());
        }
        self.skip(1);
        Some(t)
    }

    fn skip(&mut self, n: usize)
        ensures
            (*final(self)).same_base(old(self)),
            *final(final(self).stream) == *final(old(self).stream),
            final(self).skip == sat_add(old(self).skip, n),
    {
        proof {
            self.stream.lemma_len_bound();
        }
        self.skip = self.skip.saturating_add(n);
        proof {
            let t = self.stream.state().tokens;
            let k = old(self).skip as int;
            assert(t.skip(cap(k, t.len() as int)).skip(
                cap(n as int, t.len() - cap(k, t.len() as int)),
            ) =~= t.skip(cap(self.skip as int, t.len() as int)));
        }
    }

    fn peek(&mut self) -> (res: Option<&TokenTree>)
        ensures
            (*final(self)).same_base(old(self)),
            *final(final(self).stream) == *final(old(self).stream),
            final(self).skip == old(self).skip,
    {
        self.peek_nth(0)
    }

    fn peek_nth(&mut self, n: usize) -> (res: Option<&TokenTree>)
        ensures
            (*final(self)).same_base(old(self)),
            *final(final(self).stream) == *final(old(self).stream),
            final(self).skip == old(self).skip,
    {
        proof {
            self.stream.lemma_len_bound();
        }
        self.stream.peek_nth(n.saturating_add(self.skip))
    }

    fn peek_last(&mut self) -> (res: Option<&TokenTree>)
        ensures
            (*final(self)).same_base(old(self)),
            *final(final(self).stream) == *final(old(self).stream),
            final(self).skip == old(self).skip,
    {
        self.stream.peek_last()
    }

    fn peek_many(&mut self, n: usize) -> (res: &[TokenTree])
        ensures
            (*final(self)).same_base(old(self)),
            *final(final(self).stream) == *final(old(self).stream),
            final(self).skip == old(self).skip,
    {
        self.peek_many_at(n, 0)
    }

    fn peek_many_at(&mut self, n: usize, at: usize) -> (res: &[TokenTree])
        ensures
            (*final(self)).same_base(old(self)),
            *final(final(self).stream) == *final(old(self).stream),
            final(self).skip == old(self).skip,
    {
        proof {
            self.stream.lemma_len_bound();
        }
        proof {
            let t = self.stream.state().tokens;
            let k = cap(self.skip as int, t.len() as int);
            let a = at.saturating_add(self.skip) as int;
            assert(t.subrange(cap(a, t.len() as int), cap(a + n, t.len() as int)) =~= t.skip(k).subrange(
                cap(at as int, t.len() - k),
                cap(at + n, t.len() - k),
            ));
        }
        self.stream.peek_many_at(n, at.saturating_add(self.skip))
    }

    fn peek_from(&mut self, at: usize) -> (res: &[TokenTree])
        ensures
            (*final(self)).same_base(old(self)),
            *final(final(self).stream) == *final(old(self).stream),
            final(self).skip == old(self).skip,
    {
        proof {
            self.stream.lemma_len_bound();
        }
        proof {
            let t = self.stream.state().tokens;
            let k = cap(self.skip as int, t.len() as int);
            let a = at.saturating_add(self.skip) as int;
            assert(t.skip(cap(a, t.len() as int)) =~= t.skip(k).skip(cap(at as int, t.len() - k)));
        }
        self.stream.peek_from(at.saturating_add(self.skip))
    }

    fn stringify(&mut self) -> (s: String)
        ensures
            (*final(self)).same_base(old(self)),
            *final(final(self).stream) == *final(old(self).stream),
            final(self).skip == old(self).skip,
    {
        proof {
            let t = self.state().tokens;
            assert(t.skip(0) =~= t);
        }
        let ts = self.peek_from(0);
        join_trees(ts)
    }

    fn span_close(&self) -> (res: Option<Span>) {
        self.span_close
    }

    fn is_empty(&mut self) -> (res: bool)
        ensures
            (*final(self)).same_base(old(self)),
            *final(final(self).stream) == *final(old(self).stream),
            final(self).skip == old(self).skip,
    {
        self.peek().is_none()
    }

    fn peek_or(&mut self) -> (res: Result<&TokenTree, Option<String>>)
        ensures
            (*final(self)).same_base(old(self)),
            *final(final(self).stream) == *final(old(self).stream),
            final(self).skip == old(self).skip,
    {
        match self.peek() {
            Some(t) => Ok(t),
            None => Err(None),
        }
    }
}

} // verus!
