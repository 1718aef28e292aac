//! Parsers and patterns for tokens, options, vectors, slices and strings.
use crate::error::{Error, ErrorText, Text};
use crate::stream::{
    eos_error, join_diag, one_token_match, DiagDisplay, FromStream, MatchResult, MatchStream, StreamLike,
    StreamState, StreamView,
};
use crate::tokens::{TokenTree, Tree};
use crate::utils::rep::{parse_rest, rest_outcome};
use vstd::prelude::*;
use vstd::string::*;

verus! {

/// Two tokens are alike: of the same kind, and printing the same.
pub open spec fn same_token(a: Tree, b: Tree) -> bool {
    &&& (a is Group <==> b is Group)
    &&& (a is Ident <==> b is Ident)
    &&& (a is Punct <==> b is Punct)
    &&& (a is Literal <==> b is Literal)
    &&& a.text() == b.text()
}

impl FromStream for TokenTree {
    type Output = Self;

    open spec fn parse_requires() -> bool {
        true
    }

    open spec fn productive() -> bool {
        true
    }

    open spec fn parses(before: StreamState, res: Result<Self, Error>, after: StreamState) -> bool {
        match before.nth(0) {
            None => {
                &&& after == before
                &&& res matches Err(e)
                &&& eos_error(e, Text::Token, before)
            },
            Some(t) => {
                &&& after == before.popped()
                &&& res matches Ok(tt)
                &&& tt@ == t
            },
        }
    }

    fn from_stream<S: StreamLike>(stream: &mut S) -> (res: Result<Self, Error>) {
        match stream.pop() {
            Some(t) => Ok(t),
            None => Err(stream.err_eos(ErrorText::Token)),
        }
    }
}

impl MatchStream for TokenTree {
    open spec fn matches(&self, st: StreamState, res: MatchResult) -> bool {
        one_token_match(st, res, |t: Tree| same_token(self@, t))
    }

    fn match_stream<S: StreamLike>(&self, stream: StreamView<'_, S>) -> (res: MatchResult) {
        let mut stream = stream;
        let tok = stream.peek_or()?;
        let same_kind = match (self, tok) {
            (TokenTree::Group(_), TokenTree::Group(_)) => true,
            (TokenTree::Ident(_), TokenTree::Ident(_)) => true,
            (TokenTree::Punct(_), TokenTree::Punct(_)) => true,
            (TokenTree::Literal(_), TokenTree::Literal(_)) => true,
            _ => false,
        };
        let text = tok.to_string();
        if same_kind && self.to_string() == text {
            Ok(1)
        } else {
            Err(Some(text))
        }
    }
}

impl DiagDisplay for TokenTree {
    open spec fn diag(&self) -> Option<Seq<char>> {
        Some(self@.text())
    }

    fn diag_string(&self) -> (s: String) {
        self.to_string()
    }
}

/// What an optional parser gives, where the parser it wraps gave `r`: its
/// value, nothing for a recoverable error, a fatal error as it is.
pub open spec fn optional<O>(r: Result<O, Error>, res: Result<Option<O>, Error>) -> bool {
    match r {
        Ok(v) => res == Ok::<Option<O>, Error>(Some(v)),
        Err(e) => if e.fatal {
            res == Err::<Option<O>, Error>(e)
        } else {
            res == Ok::<Option<O>, Error>(None)
        },
    }
}

impl<T: FromStream> FromStream for Option<T> {
    type Output = Option<T::Output>;

    open spec fn parse_requires() -> bool {
        T::parse_requires()
    }

    open spec fn productive() -> bool {
        false
    }

    open spec fn parses(before: StreamState, res: Result<Self::Output, Error>, after: StreamState) -> bool {
        exists|r: Result<T::Output, Error>| #[trigger] T::parses(before, r, after) && optional(r, res)
    }

    fn from_stream<S: StreamLike>(stream: &mut S) -> (res: Result<Self::Output, Error>) {
        let r = T::from_stream(stream);
        let ghost g = r;
        let res = match r {
            Ok(v) => Ok(Some(v)),
            Err(e) => if e.fatal {
                Err(e)
            } else {
                Ok(None)
            },
        };
        proof {
            assert(T::parses((*old(stream)).state(), g, stream.state()) && optional(g, res));
        }
        res
    }
}

impl<T: FromStream> FromStream for Vec<T> {
    type Output = Vec<T::Output>;

    open spec fn parse_requires() -> bool {
        T::parse_requires() && T::productive()
    }

    open spec fn productive() -> bool {
        false
    }

    /// Parses items until one fails; a fatal failure is the result, any
    /// other ends the items.
    open spec fn parses(before: StreamState, res: Result<Self::Output, Error>, after: StreamState) -> bool {
        rest_outcome::<T>(before, Seq::empty(), res, after)
    }

    fn from_stream<S: StreamLike>(stream: &mut S) -> (res: Result<Self::Output, Error>) {
        let items: Vec<T::Output> = Vec::new();
        proof {
            assert(items@ =~= Seq::empty());
        }
        parse_rest::<T, S>(stream, items)
    }
}

/// The first `k` of `items` matched one after the other, from a stream in
/// state `st`, `total` tokens in all.
pub open spec fn prefix_matches<T: MatchStream>(items: Seq<T>, st: StreamState, total: int) -> bool
    decreases items.len(),
{
    if items.len() == 0 {
        total == 0
    } else {
        exists|n: usize|
            #[trigger] items.last().matches(st.skipped(total - n), Ok(n)) && prefix_matches(
                items.drop_last(),
                st,
                total - n,
            )
    }
}

/// A sequence of patterns, matched one after the other from a stream in
/// state `st`, gives `res`: the sum of what they matched, or the failure of
/// the first that fails.
pub open spec fn seq_matches<T: MatchStream>(items: Seq<T>, st: StreamState, res: MatchResult) -> bool {
    exists|k: int, total: int|
        #![trigger prefix_matches(items.take(k), st, total)]
        {
            &&& 0 <= k <= items.len()
            &&& prefix_matches(items.take(k), st, total)
            &&& if k == items.len() {
                res == Ok::<usize, Option<String>>(total as usize)
            } else {
                res is Err && items[k].matches(st.skipped(total), res)
            }
        }
}

/// Matches each pattern of `items` in turn.
pub fn match_seq<T: MatchStream, S: StreamLike>(items: &[T], view: StreamView<'_, S>) -> (res: MatchResult)
    requires
        view.inv(),
    ensures
        seq_matches(items@, view.state(), res),
        res matches Ok(n) ==> n <= view.state().tokens.len(),
        (*final(view.stream)).inv(),
        (*final(view.stream)).state() == (*old(view.stream)).state(),
{
    let mut stream = view;
    let ghost st = stream.state();
    let mut total: usize = 0;
    let mut i: usize = 0;
    proof {
        assert(items@.take(0) =~= Seq::<T>::empty());
        assert(st.tokens.skip(0) =~= st.tokens);
        stream.lemma_len_bound();
    }
    while i < items.len()
        invariant
            stream.inv(),
            i <= items@.len(),
            stream.stream.state() == view.stream.state(),
            *final(stream.stream) == *final(view.stream),
            stream.span_close == view.span_close,
            st == view.state(),
            stream.state() == st.skipped(total as int),
            prefix_matches(items@.take(i as int), st, total as int),
            total <= st.tokens.len(),
            st.tokens.len() <= usize::MAX,
        decreases items.len() - i,
    {
        proof {
            stream.lemma_len_bound();
        }
        let ghost cur = stream.state();
        proof {
            assert(cur.tokens.skip(0) =~= cur.tokens);
        }
        let r = items[i].match_stream(stream.sub_view(0));
        let len = match r {
            Ok(len) => len,
            Err(x) => {
                proof {
                    assert(items@[i as int].matches(st.skipped(total as int), Err(x)));
                    assert(stream.stream.inv());
                    assert(stream.stream.state() == view.stream.state());
                    assert(prefix_matches(items@.take(i as int), st, total as int));
                }
                return Err(x);
            },
        };
        proof {
            let t = st.tokens;
            assert(cur.skipped(len as int).tokens =~= st.skipped(total + len).tokens);
            assert(items@.take(i + 1).drop_last() =~= items@.take(i as int));
            assert(items@.take(i + 1).last() == items@[i as int]);
            assert(items@.take(i + 1).last().matches(st.skipped((total + len) - len), Ok(len)));
        }
        total = total + len;
        stream.skip(len);
        i += 1;
    }
    proof {
        assert(items@.take(items@.len() as int) =~= items@);
    }
    Ok(total)
}

/// How a sequence of patterns prints: one after the other, where each is
/// said.
pub open spec fn seq_diag<T: DiagDisplay>(items: Seq<T>) -> Option<Seq<char>>
    decreases items.len(),
{
    if items.len() == 0 {
        Some(Seq::empty())
    } else {
        join_diag(seq_diag(items.drop_last()), items.last().diag())
    }
}

/// Prints each pattern of `items` in turn.
pub fn diag_seq<T: DiagDisplay>(items: &[T]) -> (s: String)
    ensures
        seq_diag(items@) matches Some(d) ==> s@ == d,
{
    let mut s = String::new();
    let mut i: usize = 0;
    proof {
        assert(items@.take(0) =~= Seq::<T>::empty());
    }
    while i < items.len()
        invariant
            i <= items@.len(),
            seq_diag(items@.take(i as int)) matches Some(d) ==> s@ == d,
        decreases items.len() - i,
    {
        let d = items[i].diag_string();
        s.append(d.as_str());
        proof {
            assert(items@.take(i + 1).drop_last() =~= items@.take(i as int));
            assert(items@.take(i + 1).last() == items@[i as int]);
        }
        i += 1;
    }
    proof {
        assert(items@.take(items@.len() as int) =~= items@);
    }
    s
}

impl<T: DiagDisplay> DiagDisplay for [T] {
    open spec fn diag(&self) -> Option<Seq<char>> {
        seq_diag(self@)
    }

    fn diag_string(&self) -> (s: String) {
        diag_seq(self)
    }
}

impl<T: MatchStream> MatchStream for [T] {
    open spec fn matches(&self, st: StreamState, res: MatchResult) -> bool {
        seq_matches(self@, st, res)
    }

    fn match_stream<S: StreamLike>(&self, stream: StreamView<'_, S>) -> (res: MatchResult) {
        match_seq(self, stream)
    }
}

impl<T: DiagDisplay, const N: usize> DiagDisplay for [T; N] {
    open spec fn diag(&self) -> Option<Seq<char>> {
        seq_diag(self@)
    }

    fn diag_string(&self) -> (s: String) {
        diag_seq(self.as_slice())
    }
}

impl<T: MatchStream, const N: usize> MatchStream for [T; N] {
    open spec fn matches(&self, st: StreamState, res: MatchResult) -> bool {
        seq_matches(self@, st, res)
    }

    fn match_stream<S: StreamLike>(&self, stream: StreamView<'_, S>) -> (res: MatchResult) {
        match_seq(self.as_slice(), stream)
    }
}

impl<T: DiagDisplay> DiagDisplay for Vec<T> {
    open spec fn diag(&self) -> Option<Seq<char>> {
        seq_diag(self@)
    }

    fn diag_string(&self) -> (s: String) {
        diag_seq(self.as_slice())
    }
}

impl<T: MatchStream> MatchStream for Vec<T> {
    open spec fn matches(&self, st: StreamState, res: MatchResult) -> bool {
        seq_matches(self@, st, res)
    }

    fn match_stream<S: StreamLike>(&self, stream: StreamView<'_, S>) -> (res: MatchResult) {
        match_seq(self.as_slice(), stream)
    }
}

impl<'a, T: DiagDisplay> DiagDisplay for &'a T {
    open spec fn diag(&self) -> Option<Seq<char>> {
        (**self).diag()
    }

    fn diag_string(&self) -> (s: String) {
        (**self).diag_string()
    }
}

impl<'s> DiagDisplay for &'s str {
    open spec fn diag(&self) -> Option<Seq<char>> {
        Some((*self)@)
    }

    fn diag_string(&self) -> (s: String) {
        String::from_str(*self)
    }
}

/// A string matches exactly one token: one that prints as the string.
impl<'s> MatchStream for &'s str {
    open spec fn matches(&self, st: StreamState, res: MatchResult) -> bool {
        one_token_match(st, res, |t: Tree| t.text() == (*self)@)
    }

    fn match_stream<S: StreamLike>(&self, stream: StreamView<'_, S>) -> (res: MatchResult) {
        let mut stream = stream;
        let tok = stream.peek_or()?;
        let text = tok.to_string();
        if text == String::from_str(*self) {
            Ok(1)
        } else {
            Err(Some(text))
        }
    }
}

} // verus!
