//! Laws of the library, stated over the parsers' and patterns' relations.
use crate::error::Error;
use crate::stream::{sat_add, FromStream, MatchResult, MatchStream, StreamLike, StreamState, StreamView};
use crate::utils::delimited::Delimited;
use crate::utils::cut::Cut;
use crate::utils::greedy::Greedy;
use crate::tokens::TokenTree;
use crate::utils::group::{delimiter_of, kind_of, Braces, Brackets, Group, GroupKind, Parens};
use crate::utils::ident::Ident;
use crate::utils::literal::Literal;
use crate::utils::punct::{
    Amp, Apos, At, Backslash, Backtick, Bang, Bar, Caret, Colon, Comma, Dash, Dollar, Equals,
    Greater, Less, Percent, Period, Plus, Question, Quote, Semicolon, Slash, Star, Tilde,
    Underscore,
};
use crate::utils::puncts::Punct;
use crate::utils::maybe::Maybe;
use crate::utils::neg::Neg;
use crate::utils::rep::{
    exactly_outcome, parses_many, rest_outcome, up_to_outcome, RepeatAtLeast, RepeatAtMost,
    RepeatPlus, RepeatRange,
};
use vstd::prelude::*;

verus! {

/// After `Cut`, every error is fatal, and a success is the inner parser's.
pub proof fn law_cut_commits<T: FromStream>(before: StreamState, res: Result<T::Output, Error>, after: StreamState)
    requires
        Cut::<T>::parses(before, res, after),
    ensures
        res matches Err(e) ==> e.fatal,
        res is Ok ==> T::parses(before, res, after),
{
}

/// `Option<T>` gives what `T` gives, made optional: a value as `Some`, a
/// recoverable error as `None`, and a fatal error untouched.
pub proof fn law_option_bubbles_fatal<T: FromStream>(before: StreamState, r: Result<T::Output, Error>, after: StreamState)
    requires
        T::parses(before, r, after),
    ensures
        r matches Ok(v) ==> Option::<T>::parses(before, Ok(Some(v)), after),
        r matches Err(e) ==> e.fatal ==> Option::<T>::parses(before, Err(e), after),
        r matches Err(e) ==> !e.fatal ==> Option::<T>::parses(before, Ok(None), after),
{
    match r {
        Ok(v) => {
            assert(crate::impls::optional::<T::Output>(r, Ok(Some(v))));
        },
        Err(e) => {
            if e.fatal {
                assert(crate::impls::optional::<T::Output>(r, Err(e)));
            } else {
                assert(crate::impls::optional::<T::Output>(r, Ok(None)));
            }
        },
    }
}

/// `Option<T>` fails only with a fatal error of `T`.
pub proof fn law_option_errors_are_fatal<T: FromStream>(before: StreamState, e: Error, after: StreamState)
    requires
        Option::<T>::parses(before, Err(e), after),
    ensures
        e.fatal,
        T::parses(before, Err(e), after),
{
}

/// `Vec<T>` fails only with a fatal error that `T` gave on some item.
pub proof fn law_vec_errors_are_fatal<T: FromStream>(before: StreamState, e: Error, after: StreamState)
    requires
        Vec::<T>::parses(before, Err(e), after),
    ensures
        e.fatal,
        exists|mid: StreamState| #[trigger] T::parses(mid, Err(e), after),
{
}

/// A fatal error of the first item of `Vec<T>` is its result, untouched.
pub proof fn law_vec_bubbles_fatal<T: FromStream>(before: StreamState, e: Error, after: StreamState)
    requires
        T::parses(before, Err(e), after),
        e.fatal,
    ensures
        Vec::<T>::parses(before, Err(e), after),
{
    assert(parses_many::<T>(before, Seq::empty(), before));
}

/// `Delimited<T, D>` fails only with a fatal error that `T` or `D` gave.
pub proof fn law_delimited_errors_are_fatal<T: FromStream, D: FromStream>(
    before: StreamState,
    e: Error,
    after: StreamState,
)
    requires
        Delimited::<T, D>::parses(before, Err(e), after),
    ensures
        e.fatal,
        (exists|mid: StreamState| #[trigger] T::parses(mid, Err(e), after)) || (exists|mid: StreamState|
            #[trigger] D::parses(mid, Err(e), after)),
{
}

/// A fresh view of a stream reads as the stream does.
pub proof fn law_fresh_view_reads_as_stream<S: StreamLike>(v: StreamView<'_, S>)
    requires
        v.skip == 0,
        v.span_close == (*old(v.stream)).state().span_close,
    ensures
        v.state() == (*old(v.stream)).state(),
{
    let t = (*old(v.stream)).state().tokens;
    assert(t.skip(0) =~= t);
}

/// `Greedy` succeeds only where no token is left.
pub proof fn law_greedy_consumes_all<T: FromStream>(before: StreamState, res: Result<T::Output, Error>, after: StreamState)
    requires
        Greedy::<T>::parses(before, res, after),
        res is Ok,
    ensures
        after.tokens.len() == 0,
{
}

/// Parsing items until one fails gives at least the items parsed already.
proof fn lemma_rest_len<T: FromStream>(before: StreamState, prefix: Seq<T::Output>, res: Result<Vec<T::Output>, Error>, after: StreamState)
    requires
        rest_outcome::<T>(before, prefix, res, after),
    ensures
        res matches Ok(v) ==> v@.len() >= prefix.len(),
{
}

/// Parsing up to `max` items gives at least the items parsed already, and no
/// more than `max` where there were no more already.
proof fn lemma_up_to_len<T: FromStream>(
    before: StreamState,
    prefix: Seq<T::Output>,
    max: int,
    res: Result<Vec<T::Output>, Error>,
    after: StreamState,
)
    requires
        up_to_outcome::<T>(before, prefix, max, res, after),
    ensures
        res matches Ok(v) ==> prefix.len() <= v@.len() <= max,
{
}

/// Parsing exactly `n` items gives `n` items.
proof fn lemma_exactly_len<T: FromStream>(before: StreamState, n: int, res: Result<Vec<T::Output>, Error>, after: StreamState)
    requires
        exactly_outcome::<T>(before, n, res, after),
    ensures
        res matches Ok(v) ==> v@.len() == n,
{
}

/// `RepeatPlus` gives at least one item.
pub proof fn law_repeat_plus_len<T: FromStream>(before: StreamState, res: Result<Vec<T::Output>, Error>, after: StreamState)
    requires
        RepeatPlus::<T>::parses(before, res, after),
    ensures
        res matches Ok(v) ==> v@.len() >= 1,
{
    let (r, mid) = choose|r: Result<T::Output, Error>, mid: StreamState|
        #![trigger T::parses(before, r, mid)]
        {
            &&& T::parses(before, r, mid)
            &&& match r {
                Err(e) => after == mid && res == Err::<Vec<T::Output>, Error>(e),
                Ok(x) => rest_outcome::<T>(mid, seq![x], res, after),
            }
        };
    if let Ok(x) = r {
        lemma_rest_len::<T>(mid, seq![x], res, after);
    }
}

/// `RepeatAtLeast<T, N>` gives at least `N` items.
pub proof fn law_repeat_at_least_len<T: FromStream, const N: usize>(
    before: StreamState,
    res: Result<Vec<T::Output>, Error>,
    after: StreamState,
)
    requires
        RepeatAtLeast::<T, N>::parses(before, res, after),
    ensures
        res matches Ok(v) ==> v@.len() >= N,
{
    let (r, mid) = choose|r: Result<Vec<T::Output>, Error>, mid: StreamState|
        #![trigger exactly_outcome::<T>(before, N as int, r, mid)]
        {
            &&& exactly_outcome::<T>(before, N as int, r, mid)
            &&& match r {
                Err(e) => after == mid && res == Err::<Vec<T::Output>, Error>(e),
                Ok(v) => rest_outcome::<T>(mid, v@, res, after),
            }
        };
    lemma_exactly_len::<T>(before, N as int, r, mid);
    if let Ok(v) = r {
        lemma_rest_len::<T>(mid, v@, res, after);
    }
}

/// `RepeatAtMost<T, N>` gives at most `N` items.
pub proof fn law_repeat_at_most_len<T: FromStream, const N: usize>(
    before: StreamState,
    res: Result<Vec<T::Output>, Error>,
    after: StreamState,
)
    requires
        RepeatAtMost::<T, N>::parses(before, res, after),
    ensures
        res matches Ok(v) ==> v@.len() <= N,
{
    lemma_up_to_len::<T>(before, Seq::empty(), N as int, res, after);
}

/// `RepeatRange<T, N, M>` gives from `N` to `M` items.
pub proof fn law_repeat_range_len<T: FromStream, const N: usize, const M: usize>(
    before: StreamState,
    res: Result<Vec<T::Output>, Error>,
    after: StreamState,
)
    requires
        RepeatRange::<T, N, M>::parses(before, res, after),
    ensures
        res matches Ok(v) ==> N <= v@.len() <= M,
{
    let (r, mid) = choose|r: Result<Vec<T::Output>, Error>, mid: StreamState|
        #![trigger exactly_outcome::<T>(before, N as int, r, mid)]
        {
            &&& exactly_outcome::<T>(before, N as int, r, mid)
            &&& match r {
                Err(e) => after == mid && res == Err::<Vec<T::Output>, Error>(e),
                Ok(v) => up_to_outcome::<T>(mid, v@, M as int, res, after),
            }
        };
    lemma_exactly_len::<T>(before, N as int, r, mid);
    if let Ok(v) = r {
        lemma_up_to_len::<T>(mid, v@, M as int, res, after);
    }
}

/// `Maybe` never fails to match.
pub proof fn law_maybe_never_fails<T: MatchStream>(p: Maybe<T>, st: StreamState, res: MatchResult)
    requires
        p.matches(st, res),
    ensures
        res is Ok,
{
}

/// `Neg` matches no tokens, and fails with no text; where whether the inner
/// pattern matches depends on the stream alone, `Neg` matches exactly where
/// it does not.
pub proof fn law_neg_inverts<T: MatchStream>(p: Neg<T>, st: StreamState, res: MatchResult, r: MatchResult)
    requires
        p.matches(st, res),
        p.0.matches(st, r),
    ensures
        res matches Ok(n) ==> n == 0,
        res is Err ==> res == Err::<usize, Option<String>>(None),
        match_decided(p.0) ==> (res is Ok <==> r is Err),
{
}

/// Turning a group kind into its delimiter and back gives the kind.
pub proof fn law_group_kind_roundtrip(k: GroupKind)
    ensures
        kind_of(delimiter_of(k)) == k,
{
}

/// Popping a token leaves the stream as skipping it does, but for the
/// closing span it records.
pub proof fn law_pop_skips_one(st: StreamState)
    ensures
        st.popped().tokens == st.skipped(1).tokens,
{
    if st.tokens.len() > 0 {
        assert(st.tokens.drop_first() =~= st.tokens.skip(1));
    } else {
        assert(st.tokens.skip(0) =~= st.tokens);
    }
}

/// A failed parse of `T` leaves the stream as it was.
pub open spec fn failures_consume_nothing<T: FromStream>() -> bool {
    forall|s: StreamState, e: Error, s2: StreamState|
        #[trigger] T::parses(s, Err::<T::Output, Error>(e), s2) ==> s2 == s
}

/// Whether `T` succeeds, and the stream it leaves, depend on the stream
/// alone.
pub open spec fn decided<T: FromStream>() -> bool {
    forall|s: StreamState, r1: Result<T::Output, Error>, s1: StreamState, r2: Result<T::Output, Error>, s2: StreamState|
        #![trigger T::parses(s, r1, s1), T::parses(s, r2, s2)]
        T::parses(s, r1, s1) && T::parses(s, r2, s2) ==> (r1 is Ok <==> r2 is Ok) && s1 == s2
}

/// Whether `p` matches, and how many tokens it matches, depend on the stream
/// alone.
pub open spec fn match_decided<T: MatchStream>(p: T) -> bool {
    forall|st: StreamState, r1: MatchResult, r2: MatchResult|
        #![trigger p.matches(st, r1), p.matches(st, r2)]
        p.matches(st, r1) && p.matches(st, r2) ==> (r1 is Ok <==> r2 is Ok) && (r1 is Ok ==> r1 == r2)
}

/// Items parsed one after the other, then more items after them, are the
/// items of both parsed one after the other.
proof fn lemma_parses_many_append<T: FromStream>(
    before: StreamState,
    a: Seq<T::Output>,
    mid: StreamState,
    b: Seq<T::Output>,
    after: StreamState,
)
    requires
        parses_many::<T>(before, a, mid),
        parses_many::<T>(mid, b, after),
    ensures
        parses_many::<T>(before, a + b, after),
    decreases b.len(),
{
    if b.len() == 0 {
        assert(a + b =~= a);
    } else {
        let m = choose|m: StreamState|
            #[trigger] T::parses(m, Ok(b.last()), after) && parses_many::<T>(mid, b.drop_last(), m);
        lemma_parses_many_append::<T>(before, a, mid, b.drop_last(), m);
        assert((a + b).drop_last() =~= a + b.drop_last());
        assert((a + b).last() == b.last());
        assert(T::parses(m, Ok((a + b).last()), after));
    }
}

/// `RepeatAtLeast<T, N>`, where failures of `T` consume nothing, takes every
/// item still available: it gives `N` or more items parsed one after the
/// other, after which `T` fails (and can give nothing else where whether
/// `T` succeeds depends on the stream alone); or it fails with the failure
/// of an item that failed before `N` were parsed, or with a fatal one.
pub proof fn law_repeat_at_least_takes_all<T: FromStream, const N: usize>(
    before: StreamState,
    res: Result<Vec<T::Output>, Error>,
    after: StreamState,
)
    requires
        RepeatAtLeast::<T, N>::parses(before, res, after),
        failures_consume_nothing::<T>(),
    ensures
        res matches Ok(v) ==> v@.len() >= N && parses_many::<T>(before, v@, after),
        res is Ok ==> exists|e: Error| !e.fatal && #[trigger] T::parses(after, Err::<T::Output, Error>(e), after),
        res is Ok && decided::<T>() ==> forall|r: Result<T::Output, Error>, s: StreamState|
            #[trigger] T::parses(after, r, s) ==> r is Err,
        res matches Err(e) ==> exists|items: Seq<T::Output>, mid: StreamState|
            #![trigger parses_many::<T>(before, items, mid)]
            parses_many::<T>(before, items, mid) && T::parses(mid, Err::<T::Output, Error>(e), after) && (items.len()
                < N || e.fatal),
{
    let (r, mid) = choose|r: Result<Vec<T::Output>, Error>, mid: StreamState|
        #![trigger exactly_outcome::<T>(before, N as int, r, mid)]
        {
            &&& exactly_outcome::<T>(before, N as int, r, mid)
            &&& match r {
                Err(e) => after == mid && res == Err::<Vec<T::Output>, Error>(e),
                Ok(v) => rest_outcome::<T>(mid, v@, res, after),
            }
        };
    let (items0, m0) = choose|items: Seq<T::Output>, m: StreamState|
        #![trigger parses_many::<T>(before, items, m)]
        {
            &&& parses_many::<T>(before, items, m)
            &&& if items.len() == N as int {
                &&& mid == m
                &&& r matches Ok(v)
                &&& v@ == items
            } else {
                &&& items.len() < N as int
                &&& exists|e: Error| #[trigger] T::parses(m, Err(e), mid) && r == Err::<Vec<T::Output>, Error>(e)
            }
        };
    match r {
        Err(e0) => {
            assert(items0.len() < N);
            assert(parses_many::<T>(before, items0, m0) && T::parses(m0, Err::<T::Output, Error>(e0), after));
        },
        Ok(v0) => {
            let (items1, m1, e) = choose|items: Seq<T::Output>, m: StreamState, e: Error|
                #![trigger parses_many::<T>(mid, items, m), T::parses(m, Err(e), after)]
                {
                    &&& parses_many::<T>(mid, items, m)
                    &&& T::parses(m, Err(e), after)
                    &&& if e.fatal {
                        res == Err::<Vec<T::Output>, Error>(e)
                    } else {
                        res matches Ok(v) && v@ == v0@ + items
                    }
                };
            lemma_parses_many_append::<T>(before, items0, mid, items1, m1);
            assert(m1 == after);
            if !e.fatal {
                assert(T::parses(after, Err::<T::Output, Error>(e), after));
            } else {
                assert(parses_many::<T>(before, items0 + items1, m1));
            }
        },
    }
}

/// `RepeatRange<T, N, M>`, where failures of `T` consume nothing, takes every
/// item still available up to `M`: it gives from `N` to `M` items parsed one
/// after the other, after which, where fewer than `M` were parsed, `T` fails
/// (and can give nothing else where whether `T` succeeds depends on the
/// stream alone); or it fails with the failure of an item that failed before
/// `N` were parsed, or with a fatal one.
pub proof fn law_repeat_range_takes_all<T: FromStream, const N: usize, const M: usize>(
    before: StreamState,
    res: Result<Vec<T::Output>, Error>,
    after: StreamState,
)
    requires
        RepeatRange::<T, N, M>::parses(before, res, after),
        failures_consume_nothing::<T>(),
    ensures
        res matches Ok(v) ==> N <= v@.len() <= M && parses_many::<T>(before, v@, after),
        res matches Ok(v) && v@.len() < M ==> exists|e: Error|
            !e.fatal && #[trigger] T::parses(after, Err::<T::Output, Error>(e), after),
        res matches Ok(v) && v@.len() < M && decided::<T>() ==> forall|r: Result<T::Output, Error>, s: StreamState|
            #[trigger] T::parses(after, r, s) ==> r is Err,
        res matches Err(e) ==> exists|items: Seq<T::Output>, mid: StreamState|
            #![trigger parses_many::<T>(before, items, mid)]
            parses_many::<T>(before, items, mid) && T::parses(mid, Err::<T::Output, Error>(e), after) && (items.len()
                < N || e.fatal),
{
    let (r, mid) = choose|r: Result<Vec<T::Output>, Error>, mid: StreamState|
        #![trigger exactly_outcome::<T>(before, N as int, r, mid)]
        {
            &&& exactly_outcome::<T>(before, N as int, r, mid)
            &&& match r {
                Err(e) => after == mid && res == Err::<Vec<T::Output>, Error>(e),
                Ok(v) => up_to_outcome::<T>(mid, v@, M as int, res, after),
            }
        };
    let (items0, m0) = choose|items: Seq<T::Output>, m: StreamState|
        #![trigger parses_many::<T>(before, items, m)]
        {
            &&& parses_many::<T>(before, items, m)
            &&& if items.len() == N as int {
                &&& mid == m
                &&& r matches Ok(v)
                &&& v@ == items
            } else {
                &&& items.len() < N as int
                &&& exists|e: Error| #[trigger] T::parses(m, Err(e), mid) && r == Err::<Vec<T::Output>, Error>(e)
            }
        };
    match r {
        Err(e0) => {
            assert(items0.len() < N);
            assert(parses_many::<T>(before, items0, m0) && T::parses(m0, Err::<T::Output, Error>(e0), after));
        },
        Ok(v0) => {
            let (items1, m1) = choose|items: Seq<T::Output>, m: StreamState|
                #![trigger parses_many::<T>(mid, items, m)]
                {
                    &&& parses_many::<T>(mid, items, m)
                    &&& if v0@.len() + items.len() == M as int {
                        &&& after == m
                        &&& res matches Ok(v)
                        &&& v@ == v0@ + items
                    } else {
                        &&& v0@.len() + items.len() < M as int
                        &&& exists|e: Error|
                            #[trigger] T::parses(m, Err(e), after) && if e.fatal {
                                res == Err::<Vec<T::Output>, Error>(e)
                            } else {
                                res matches Ok(v) && v@ == v0@ + items
                            }
                    }
                };
            lemma_parses_many_append::<T>(before, items0, mid, items1, m1);
            if v0@.len() + items1.len() != M as int {
                let e = choose|e: Error|
                    #[trigger] T::parses(m1, Err(e), after) && if e.fatal {
                        res == Err::<Vec<T::Output>, Error>(e)
                    } else {
                        res matches Ok(v) && v@ == v0@ + items1
                    };
                assert(m1 == after);
                if !e.fatal {
                    assert(T::parses(after, Err::<T::Output, Error>(e), after));
                } else {
                    assert(parses_many::<T>(before, items0 + items1, m1));
                }
            }
        },
    }
}

/// The single-token parsers `Ident`, `Literal`, `Punct`, `TokenTree` and
/// `Group` succeed or fail by the next token alone, consume nothing when they
/// fail, and their patterns match by the next token alone.
pub proof fn law_single_tokens_decided()
    ensures
        decided::<Ident>(),
        failures_consume_nothing::<Ident>(),
        forall|p: Ident| #[trigger] match_decided(p),
        decided::<Literal>(),
        failures_consume_nothing::<Literal>(),
        forall|p: Literal| #[trigger] match_decided(p),
        decided::<Punct>(),
        failures_consume_nothing::<Punct>(),
        forall|p: Punct| #[trigger] match_decided(p),
        decided::<TokenTree>(),
        failures_consume_nothing::<TokenTree>(),
        forall|p: TokenTree| #[trigger] match_decided(p),
        decided::<Group>(),
        failures_consume_nothing::<Group>(),
        forall|p: Group| #[trigger] match_decided(p),
        forall|p: &str| #[trigger] match_decided(p),
{
}

/// `Parens`, `Braces` and `Brackets` succeed or fail by the next token alone.
/// (A group of another kind is consumed by the failure that reports it.)
pub proof fn law_group_kinds_decided()
    ensures
        decided::<Parens>(),
        decided::<Braces>(),
        decided::<Brackets>(),
{
}

/// The named punctuation parsers succeed or fail by the next token alone,
/// consume nothing when they fail, and match by the next token alone.
pub proof fn law_named_puncts_decided()
    ensures
        decided::<Slash>(),
        failures_consume_nothing::<Slash>(),
        match_decided(Slash),
        decided::<Bar>(),
        failures_consume_nothing::<Bar>(),
        match_decided(Bar),
        decided::<Colon>(),
        failures_consume_nothing::<Colon>(),
        match_decided(Colon),
        decided::<Semicolon>(),
        failures_consume_nothing::<Semicolon>(),
        match_decided(Semicolon),
        decided::<Quote>(),
        failures_consume_nothing::<Quote>(),
        match_decided(Quote),
        decided::<Apos>(),
        failures_consume_nothing::<Apos>(),
        match_decided(Apos),
        decided::<Comma>(),
        failures_consume_nothing::<Comma>(),
        match_decided(Comma),
        decided::<Less>(),
        failures_consume_nothing::<Less>(),
        match_decided(Less),
        decided::<Period>(),
        failures_consume_nothing::<Period>(),
        match_decided(Period),
        decided::<Greater>(),
        failures_consume_nothing::<Greater>(),
        match_decided(Greater),
        decided::<Backslash>(),
        failures_consume_nothing::<Backslash>(),
        match_decided(Backslash),
        decided::<Question>(),
        failures_consume_nothing::<Question>(),
        match_decided(Question),
        decided::<Tilde>(),
        failures_consume_nothing::<Tilde>(),
        match_decided(Tilde),
        decided::<Backtick>(),
        failures_consume_nothing::<Backtick>(),
        match_decided(Backtick),
        decided::<Bang>(),
        failures_consume_nothing::<Bang>(),
        match_decided(Bang),
        decided::<At>(),
        failures_consume_nothing::<At>(),
        match_decided(At),
        decided::<crate::utils::punct::Hash>(),
        failures_consume_nothing::<crate::utils::punct::Hash>(),
        match_decided(crate::utils::punct::Hash),
        decided::<Dollar>(),
        failures_consume_nothing::<Dollar>(),
        match_decided(Dollar),
        decided::<Percent>(),
        failures_consume_nothing::<Percent>(),
        match_decided(Percent),
        decided::<Caret>(),
        failures_consume_nothing::<Caret>(),
        match_decided(Caret),
        decided::<Amp>(),
        failures_consume_nothing::<Amp>(),
        match_decided(Amp),
        decided::<Star>(),
        failures_consume_nothing::<Star>(),
        match_decided(Star),
        decided::<Dash>(),
        failures_consume_nothing::<Dash>(),
        match_decided(Dash),
        decided::<Underscore>(),
        failures_consume_nothing::<Underscore>(),
        match_decided(Underscore),
        decided::<Plus>(),
        failures_consume_nothing::<Plus>(),
        match_decided(Plus),
        decided::<Equals>(),
        failures_consume_nothing::<Equals>(),
        match_decided(Equals),
{
}

/// A view's count of skipped tokens adds up: skipping (or popping) `a`
/// tokens and then `b` counts as skipping `a + b`, all capped at
/// `usize::MAX`.
pub proof fn law_skips_add_up(k: usize, a: usize, b: usize)
    ensures
        sat_add(sat_add(k, a), b) == sat_add(k, sat_add(a, b)),
        k + a + b <= usize::MAX ==> sat_add(sat_add(k, a), b) == k + a + b,
{
}

/// One item parsed is a sequence of one item.
proof fn lemma_parses_many_one<T: FromStream>(before: StreamState, x: T::Output, after: StreamState)
    requires
        T::parses(before, Ok(x), after),
    ensures
        parses_many::<T>(before, seq![x], after),
{
    assert(seq![x].drop_last() =~= Seq::<T::Output>::empty());
    assert(parses_many::<T>(before, Seq::<T::Output>::empty(), before));
    assert(T::parses(before, Ok(seq![x].last()), after));
}

/// Items until one fails: a success is the items parsed one after the other
/// up to a recoverable failure; a failure is a fatal failure of an item.
proof fn lemma_rest_outcome<T: FromStream>(
    before: StreamState,
    prefix: Seq<T::Output>,
    start: StreamState,
    res: Result<Vec<T::Output>, Error>,
    after: StreamState,
)
    requires
        parses_many::<T>(before, prefix, start),
        rest_outcome::<T>(start, prefix, res, after),
    ensures
        res matches Ok(v) ==> v@.len() >= prefix.len() && exists|mid: StreamState, e: Error|
            #![trigger parses_many::<T>(before, v@, mid), T::parses(mid, Err::<T::Output, Error>(e), after)]
            parses_many::<T>(before, v@, mid) && T::parses(mid, Err::<T::Output, Error>(e), after) && !e.fatal,
        res matches Err(e) ==> e.fatal && exists|items: Seq<T::Output>, mid: StreamState|
            #![trigger parses_many::<T>(before, items, mid)]
            parses_many::<T>(before, items, mid) && T::parses(mid, Err::<T::Output, Error>(e), after) && (items.len() >= prefix.len()),
{
    let (items, m, e) = choose|items: Seq<T::Output>, m: StreamState, e: Error|
        #![trigger parses_many::<T>(start, items, m), T::parses(m, Err(e), after)]
        {
            &&& parses_many::<T>(start, items, m)
            &&& T::parses(m, Err(e), after)
            &&& if e.fatal {
                res == Err::<Vec<T::Output>, Error>(e)
            } else {
                res matches Ok(v) && v@ == prefix + items
            }
        };
    lemma_parses_many_append::<T>(before, prefix, start, items, m);
}

/// `Vec<T>` parses items until one fails: a success is the items parsed one
/// after the other up to a recoverable failure of `T`; a failure is a fatal
/// failure of `T` on some item, untouched.
pub proof fn law_vec_outcome<T: FromStream>(before: StreamState, res: Result<Vec<T::Output>, Error>, after: StreamState)
    requires
        Vec::<T>::parses(before, res, after),
    ensures
        res matches Ok(v) ==> exists|mid: StreamState, e: Error|
            #![trigger parses_many::<T>(before, v@, mid), T::parses(mid, Err::<T::Output, Error>(e), after)]
            parses_many::<T>(before, v@, mid) && T::parses(mid, Err::<T::Output, Error>(e), after) && !e.fatal,
        res matches Err(e) ==> e.fatal && exists|items: Seq<T::Output>, mid: StreamState|
            #![trigger parses_many::<T>(before, items, mid)]
            parses_many::<T>(before, items, mid) && T::parses(mid, Err::<T::Output, Error>(e), after) && (true),
{
    assert(parses_many::<T>(before, Seq::<T::Output>::empty(), before));
    lemma_rest_outcome::<T>(before, Seq::empty(), before, res, after);
}

/// `RepeatPlus<T>` gives one or more items parsed one after the other up to a
/// recoverable failure of `T`; it fails with the failure of the first item,
/// or with a fatal failure of `T` on any later item, untouched.
pub proof fn law_repeat_plus_outcome<T: FromStream>(before: StreamState, res: Result<Vec<T::Output>, Error>, after: StreamState)
    requires
        RepeatPlus::<T>::parses(before, res, after),
    ensures
        res matches Ok(v) ==> v@.len() >= 1 && exists|mid: StreamState, e: Error|
            #![trigger parses_many::<T>(before, v@, mid), T::parses(mid, Err::<T::Output, Error>(e), after)]
            parses_many::<T>(before, v@, mid) && T::parses(mid, Err::<T::Output, Error>(e), after) && !e.fatal,
        res matches Err(e) ==> T::parses(before, Err::<T::Output, Error>(e), after) || (e.fatal && exists|items: Seq<T::Output>, mid: StreamState|
            #![trigger parses_many::<T>(before, items, mid)]
            parses_many::<T>(before, items, mid) && T::parses(mid, Err::<T::Output, Error>(e), after) && (items.len() >= 1)),
{
    let (r, mid) = choose|r: Result<T::Output, Error>, mid: StreamState|
        #![trigger T::parses(before, r, mid)]
        {
            &&& T::parses(before, r, mid)
            &&& match r {
                Err(e) => after == mid && res == Err::<Vec<T::Output>, Error>(e),
                Ok(x) => rest_outcome::<T>(mid, seq![x], res, after),
            }
        };
    if let Ok(x) = r {
        lemma_parses_many_one::<T>(before, x, mid);
        lemma_rest_outcome::<T>(before, seq![x], mid, res, after);
    }
}

/// `RepeatAtLeast<T, N>` gives `N` or more items parsed one after the other
/// up to a recoverable failure of `T`; it fails with the failure of an item
/// before the `N`th, or with a fatal failure of `T` on any later item.
pub proof fn law_repeat_at_least_outcome<T: FromStream, const N: usize>(
    before: StreamState,
    res: Result<Vec<T::Output>, Error>,
    after: StreamState,
)
    requires
        RepeatAtLeast::<T, N>::parses(before, res, after),
    ensures
        res matches Ok(v) ==> v@.len() >= N && exists|mid: StreamState, e: Error|
            #![trigger parses_many::<T>(before, v@, mid), T::parses(mid, Err::<T::Output, Error>(e), after)]
            parses_many::<T>(before, v@, mid) && T::parses(mid, Err::<T::Output, Error>(e), after) && !e.fatal,
        res matches Err(e) ==> exists|items: Seq<T::Output>, mid: StreamState|
            #![trigger parses_many::<T>(before, items, mid)]
            parses_many::<T>(before, items, mid) && T::parses(mid, Err::<T::Output, Error>(e), after) && (items.len() < N || e.fatal),
{
    let (r, mid) = choose|r: Result<Vec<T::Output>, Error>, mid: StreamState|
        #![trigger exactly_outcome::<T>(before, N as int, r, mid)]
        {
            &&& exactly_outcome::<T>(before, N as int, r, mid)
            &&& match r {
                Err(e) => after == mid && res == Err::<Vec<T::Output>, Error>(e),
                Ok(v) => rest_outcome::<T>(mid, v@, res, after),
            }
        };
    let (items0, m0) = choose|items: Seq<T::Output>, m: StreamState|
        #![trigger parses_many::<T>(before, items, m)]
        {
            &&& parses_many::<T>(before, items, m)
            &&& if items.len() == N as int {
                &&& mid == m
                &&& r matches Ok(v)
                &&& v@ == items
            } else {
                &&& items.len() < N as int
                &&& exists|e: Error| #[trigger] T::parses(m, Err(e), mid) && r == Err::<Vec<T::Output>, Error>(e)
            }
        };
    if let Ok(v0) = r {
        lemma_rest_outcome::<T>(before, v0@, mid, res, after);
    }
}

/// `RepeatAtMost<T, N>` gives items parsed one after the other: `N` of them,
/// or fewer up to a recoverable failure of `T`; it fails only with a fatal
/// failure of `T`, untouched.
pub proof fn law_repeat_at_most_outcome<T: FromStream, const N: usize>(
    before: StreamState,
    res: Result<Vec<T::Output>, Error>,
    after: StreamState,
)
    requires
        RepeatAtMost::<T, N>::parses(before, res, after),
    ensures
        res matches Ok(v) ==> (v@.len() == N && parses_many::<T>(before, v@, after)) || (v@.len() < N && exists|mid: StreamState, e: Error|
            #![trigger parses_many::<T>(before, v@, mid), T::parses(mid, Err::<T::Output, Error>(e), after)]
            parses_many::<T>(before, v@, mid) && T::parses(mid, Err::<T::Output, Error>(e), after) && !e.fatal),
        res matches Err(e) ==> e.fatal && exists|items: Seq<T::Output>, mid: StreamState|
            #![trigger parses_many::<T>(before, items, mid)]
            parses_many::<T>(before, items, mid) && T::parses(mid, Err::<T::Output, Error>(e), after) && (items.len() < N),
{
    let (items, m) = choose|items: Seq<T::Output>, m: StreamState|
        #![trigger parses_many::<T>(before, items, m)]
        {
            &&& parses_many::<T>(before, items, m)
            &&& if Seq::<T::Output>::empty().len() + items.len() == N as int {
                &&& after == m
                &&& res matches Ok(v)
                &&& v@ == Seq::<T::Output>::empty() + items
            } else {
                &&& Seq::<T::Output>::empty().len() + items.len() < N as int
                &&& exists|e: Error|
                    #[trigger] T::parses(m, Err(e), after) && if e.fatal {
                        res == Err::<Vec<T::Output>, Error>(e)
                    } else {
                        res matches Ok(v) && v@ == Seq::<T::Output>::empty() + items
                    }
            }
        };
    assert(Seq::<T::Output>::empty() + items =~= items);
}

/// `RepeatRange<T, N, M>` gives from `N` to `M` items parsed one after the
/// other: `M` of them, or fewer up to a recoverable failure of `T`; it fails
/// with the failure of an item before the `N`th, or with a fatal failure of
/// `T` on a later one.
pub proof fn law_repeat_range_outcome<T: FromStream, const N: usize, const M: usize>(
    before: StreamState,
    res: Result<Vec<T::Output>, Error>,
    after: StreamState,
)
    requires
        RepeatRange::<T, N, M>::parses(before, res, after),
    ensures
        res matches Ok(v) ==> N <= v@.len() <= M && ((v@.len() == M && parses_many::<T>(before, v@, after)) || (v@.len() < M
            && exists|mid: StreamState, e: Error|
            #![trigger parses_many::<T>(before, v@, mid), T::parses(mid, Err::<T::Output, Error>(e), after)]
            parses_many::<T>(before, v@, mid) && T::parses(mid, Err::<T::Output, Error>(e), after) && !e.fatal)),
        res matches Err(e) ==> exists|items: Seq<T::Output>, mid: StreamState|
            #![trigger parses_many::<T>(before, items, mid)]
            parses_many::<T>(before, items, mid) && T::parses(mid, Err::<T::Output, Error>(e), after) && (items.len() < N || (e.fatal && items.len() < M)),
{
    law_repeat_range_len::<T, N, M>(before, res, after);
    let (r, mid) = choose|r: Result<Vec<T::Output>, Error>, mid: StreamState|
        #![trigger exactly_outcome::<T>(before, N as int, r, mid)]
        {
            &&& exactly_outcome::<T>(before, N as int, r, mid)
            &&& match r {
                Err(e) => after == mid && res == Err::<Vec<T::Output>, Error>(e),
                Ok(v) => up_to_outcome::<T>(mid, v@, M as int, res, after),
            }
        };
    let (items0, m0) = choose|items: Seq<T::Output>, m: StreamState|
        #![trigger parses_many::<T>(before, items, m)]
        {
            &&& parses_many::<T>(before, items, m)
            &&& if items.len() == N as int {
                &&& mid == m
                &&& r matches Ok(v)
                &&& v@ == items
            } else {
                &&& items.len() < N as int
                &&& exists|e: Error| #[trigger] T::parses(m, Err(e), mid) && r == Err::<Vec<T::Output>, Error>(e)
            }
        };
    if let Ok(v0) = r {
        let (items1, m1) = choose|items: Seq<T::Output>, m: StreamState|
            #![trigger parses_many::<T>(mid, items, m)]
            {
                &&& parses_many::<T>(mid, items, m)
                &&& if v0@.len() + items.len() == M as int {
                    &&& after == m
                    &&& res matches Ok(v)
                    &&& v@ == v0@ + items
                } else {
                    &&& v0@.len() + items.len() < M as int
                    &&& exists|e: Error|
                        #[trigger] T::parses(m, Err(e), after) && if e.fatal {
                            res == Err::<Vec<T::Output>, Error>(e)
                        } else {
                            res matches Ok(v) && v@ == v0@ + items
                        }
                }
            };
        lemma_parses_many_append::<T>(before, items0, mid, items1, m1);
    }
}

} // verus!
