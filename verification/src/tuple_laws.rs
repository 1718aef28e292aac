//! Laws of sequences: a tuple of parsers parses its parts one after the
//! other, and a tuple of patterns (of up to eight parts), a slice, an array or
//! a vector of patterns matches its parts one after the other.
use crate::error::Error;
use crate::stream::{FromStream, MatchResult, MatchStream, StreamState};
use crate::impls::{prefix_matches, seq_matches};
use crate::tuples::then_parses;
use vstd::prelude::*;

verus! {

/// A tuple of 1 pattern that matches does so as the sequence of its
/// parts: each part matches on the stream after the tokens that all earlier
/// parts matched, and the tuple matches their total.
pub proof fn law_tuple1_matches_in_turn<A: MatchStream>(p: (A,), st: StreamState, res: MatchResult)
    requires
        p.matches(st, res),
    ensures
        res matches Ok(n) ==> exists|n0: usize|
            #![trigger p.0.matches(st, Ok::<usize, Option<String>>(n0))]
            p.0.matches(st, Ok::<usize, Option<String>>(n0)) && n == (n0) as usize,
{
    assert(st.tokens.skip(0) =~= st.tokens);
    assert(st.skipped(0) == st);
}

/// A tuple of 1 pattern that fails does so as the first of its parts
/// that fails, matched on the stream after the tokens that all earlier parts
/// matched.
pub proof fn law_tuple1_fails_in_turn<A: MatchStream>(p: (A,), st: StreamState, res: MatchResult)
    requires
        p.matches(st, res),
    ensures
        res matches Err(x) ==> (p.0.matches(st, Err::<usize, Option<String>>(x))),
{
    assert(st.tokens.skip(0) =~= st.tokens);
    assert(st.skipped(0) == st);
}

/// A tuple of 2 patterns that matches does so as the sequence of its
/// parts: each part matches on the stream after the tokens that all earlier
/// parts matched, and the tuple matches their total.
pub proof fn law_tuple2_matches_in_turn<A: MatchStream, B: MatchStream>(p: (A, B), st: StreamState, res: MatchResult)
    requires
        p.matches(st, res),
    ensures
        res matches Ok(n) ==> exists|n0: usize, n1: usize, t1: int|
            #![trigger p.0.matches(st, Ok::<usize, Option<String>>(n0)), p.1.matches(st.skipped(t1), Ok::<usize, Option<String>>(n1))]
            p.0.matches(st, Ok::<usize, Option<String>>(n0)) && p.1.matches(st.skipped(t1), Ok::<usize, Option<String>>(n1)) && t1 == n0 && n == (t1 + n1) as usize,
{
    assert(st.tokens.skip(0) =~= st.tokens);
    assert(st.skipped(0) == st);
}

/// A tuple of 2 patterns that fails does so as the first of its parts
/// that fails, matched on the stream after the tokens that all earlier parts
/// matched.
pub proof fn law_tuple2_fails_in_turn<A: MatchStream, B: MatchStream>(p: (A, B), st: StreamState, res: MatchResult)
    requires
        p.matches(st, res),
    ensures
        res matches Err(x) ==>
            (p.0.matches(st, Err::<usize, Option<String>>(x)))
            || (exists|n0: usize, t1: int|
                #![trigger p.0.matches(st, Ok::<usize, Option<String>>(n0)), p.1.matches(st.skipped(t1), Err::<usize, Option<String>>(x))]
                p.0.matches(st, Ok::<usize, Option<String>>(n0)) && t1 == n0 && p.1.matches(st.skipped(t1), Err::<usize, Option<String>>(x))),
{
    assert(st.tokens.skip(0) =~= st.tokens);
    assert(st.skipped(0) == st);
}

/// A tuple of 3 patterns that matches does so as the sequence of its
/// parts: each part matches on the stream after the tokens that all earlier
/// parts matched, and the tuple matches their total.
pub proof fn law_tuple3_matches_in_turn<A: MatchStream, B: MatchStream, C: MatchStream>(p: (A, B, C), st: StreamState, res: MatchResult)
    requires
        p.matches(st, res),
    ensures
        res matches Ok(n) ==> exists|n0: usize, n1: usize, n2: usize, t1: int, t2: int|
            #![trigger p.0.matches(st, Ok::<usize, Option<String>>(n0)), p.1.matches(st.skipped(t1), Ok::<usize, Option<String>>(n1)), p.2.matches(st.skipped(t2), Ok::<usize, Option<String>>(n2))]
            p.0.matches(st, Ok::<usize, Option<String>>(n0)) && p.1.matches(st.skipped(t1), Ok::<usize, Option<String>>(n1)) && p.2.matches(st.skipped(t2), Ok::<usize, Option<String>>(n2)) && t1 == n0 && t2 == t1 + n1 && n == (t2 + n2) as usize,
{
    assert(st.tokens.skip(0) =~= st.tokens);
    assert(st.skipped(0) == st);
}

/// A tuple of 3 patterns that fails does so as the first of its parts
/// that fails, matched on the stream after the tokens that all earlier parts
/// matched.
pub proof fn law_tuple3_fails_in_turn<A: MatchStream, B: MatchStream, C: MatchStream>(p: (A, B, C), st: StreamState, res: MatchResult)
    requires
        p.matches(st, res),
    ensures
        res matches Err(x) ==>
            (p.0.matches(st, Err::<usize, Option<String>>(x)))
            || (exists|n0: usize, t1: int|
                #![trigger p.0.matches(st, Ok::<usize, Option<String>>(n0)), p.1.matches(st.skipped(t1), Err::<usize, Option<String>>(x))]
                p.0.matches(st, Ok::<usize, Option<String>>(n0)) && t1 == n0 && p.1.matches(st.skipped(t1), Err::<usize, Option<String>>(x)))
            || (exists|n0: usize, n1: usize, t1: int, t2: int|
                #![trigger p.0.matches(st, Ok::<usize, Option<String>>(n0)), p.1.matches(st.skipped(t1), Ok::<usize, Option<String>>(n1)), p.2.matches(st.skipped(t2), Err::<usize, Option<String>>(x))]
                p.0.matches(st, Ok::<usize, Option<String>>(n0)) && p.1.matches(st.skipped(t1), Ok::<usize, Option<String>>(n1)) && t1 == n0 && t2 == t1 + n1 && p.2.matches(st.skipped(t2), Err::<usize, Option<String>>(x))),
{
    assert(st.tokens.skip(0) =~= st.tokens);
    assert(st.skipped(0) == st);
}

/// A tuple of 4 patterns that matches does so as the sequence of its
/// parts: each part matches on the stream after the tokens that all earlier
/// parts matched, and the tuple matches their total.
pub proof fn law_tuple4_matches_in_turn<A: MatchStream, B: MatchStream, C: MatchStream, D: MatchStream>(p: (A, B, C, D), st: StreamState, res: MatchResult)
    requires
        p.matches(st, res),
    ensures
        res matches Ok(n) ==> exists|n0: usize, n1: usize, n2: usize, n3: usize, t1: int, t2: int, t3: int|
            #![trigger p.0.matches(st, Ok::<usize, Option<String>>(n0)), p.1.matches(st.skipped(t1), Ok::<usize, Option<String>>(n1)), p.2.matches(st.skipped(t2), Ok::<usize, Option<String>>(n2)), p.3.matches(st.skipped(t3), Ok::<usize, Option<String>>(n3))]
            p.0.matches(st, Ok::<usize, Option<String>>(n0)) && p.1.matches(st.skipped(t1), Ok::<usize, Option<String>>(n1)) && p.2.matches(st.skipped(t2), Ok::<usize, Option<String>>(n2)) && p.3.matches(st.skipped(t3), Ok::<usize, Option<String>>(n3)) && t1 == n0 && t2 == t1 + n1 && t3 == t2 + n2 && n == (t3 + n3) as usize,
{
    assert(st.tokens.skip(0) =~= st.tokens);
    assert(st.skipped(0) == st);
}

/// A tuple of 4 patterns that fails does so as the first of its parts
/// that fails, matched on the stream after the tokens that all earlier parts
/// matched.
pub proof fn law_tuple4_fails_in_turn<A: MatchStream, B: MatchStream, C: MatchStream, D: MatchStream>(p: (A, B, C, D), st: StreamState, res: MatchResult)
    requires
        p.matches(st, res),
    ensures
        res matches Err(x) ==>
            (p.0.matches(st, Err::<usize, Option<String>>(x)))
            || (exists|n0: usize, t1: int|
                #![trigger p.0.matches(st, Ok::<usize, Option<String>>(n0)), p.1.matches(st.skipped(t1), Err::<usize, Option<String>>(x))]
                p.0.matches(st, Ok::<usize, Option<String>>(n0)) && t1 == n0 && p.1.matches(st.skipped(t1), Err::<usize, Option<String>>(x)))
            || (exists|n0: usize, n1: usize, t1: int, t2: int|
                #![trigger p.0.matches(st, Ok::<usize, Option<String>>(n0)), p.1.matches(st.skipped(t1), Ok::<usize, Option<String>>(n1)), p.2.matches(st.skipped(t2), Err::<usize, Option<String>>(x))]
                p.0.matches(st, Ok::<usize, Option<String>>(n0)) && p.1.matches(st.skipped(t1), Ok::<usize, Option<String>>(n1)) && t1 == n0 && t2 == t1 + n1 && p.2.matches(st.skipped(t2), Err::<usize, Option<String>>(x)))
            || (exists|n0: usize, n1: usize, n2: usize, t1: int, t2: int, t3: int|
                #![trigger p.0.matches(st, Ok::<usize, Option<String>>(n0)), p.1.matches(st.skipped(t1), Ok::<usize, Option<String>>(n1)), p.2.matches(st.skipped(t2), Ok::<usize, Option<String>>(n2)), p.3.matches(st.skipped(t3), Err::<usize, Option<String>>(x))]
                p.0.matches(st, Ok::<usize, Option<String>>(n0)) && p.1.matches(st.skipped(t1), Ok::<usize, Option<String>>(n1)) && p.2.matches(st.skipped(t2), Ok::<usize, Option<String>>(n2)) && t1 == n0 && t2 == t1 + n1 && t3 == t2 + n2 && p.3.matches(st.skipped(t3), Err::<usize, Option<String>>(x))),
{
    assert(st.tokens.skip(0) =~= st.tokens);
    assert(st.skipped(0) == st);
}

/// A tuple of 5 patterns that matches does so as the sequence of its
/// parts: each part matches on the stream after the tokens that all earlier
/// parts matched, and the tuple matches their total.
#[verifier::spinoff_prover]
pub proof fn law_tuple5_matches_in_turn<A: MatchStream, B: MatchStream, C: MatchStream, D: MatchStream, E: MatchStream>(p: (A, B, C, D, E), st: StreamState, res: MatchResult)
    requires
        p.matches(st, res),
    ensures
        res matches Ok(n) ==> exists|n0: usize, n1: usize, n2: usize, n3: usize, n4: usize, t1: int, t2: int, t3: int, t4: int|
            #![trigger p.0.matches(st, Ok::<usize, Option<String>>(n0)), p.1.matches(st.skipped(t1), Ok::<usize, Option<String>>(n1)), p.2.matches(st.skipped(t2), Ok::<usize, Option<String>>(n2)), p.3.matches(st.skipped(t3), Ok::<usize, Option<String>>(n3)), p.4.matches(st.skipped(t4), Ok::<usize, Option<String>>(n4))]
            p.0.matches(st, Ok::<usize, Option<String>>(n0)) && p.1.matches(st.skipped(t1), Ok::<usize, Option<String>>(n1)) && p.2.matches(st.skipped(t2), Ok::<usize, Option<String>>(n2)) && p.3.matches(st.skipped(t3), Ok::<usize, Option<String>>(n3)) && p.4.matches(st.skipped(t4), Ok::<usize, Option<String>>(n4)) && t1 == n0 && t2 == t1 + n1 && t3 == t2 + n2 && t4 == t3 + n3 && n == (t4 + n4) as usize,
{
    assert(st.tokens.skip(0) =~= st.tokens);
    assert(st.skipped(0) == st);
}

/// A tuple of 5 patterns that fails does so as the first of its parts
/// that fails, matched on the stream after the tokens that all earlier parts
/// matched.
#[verifier::spinoff_prover]
pub proof fn law_tuple5_fails_in_turn<A: MatchStream, B: MatchStream, C: MatchStream, D: MatchStream, E: MatchStream>(p: (A, B, C, D, E), st: StreamState, res: MatchResult)
    requires
        p.matches(st, res),
    ensures
        res matches Err(x) ==>
            (p.0.matches(st, Err::<usize, Option<String>>(x)))
            || (exists|n0: usize, t1: int|
                #![trigger p.0.matches(st, Ok::<usize, Option<String>>(n0)), p.1.matches(st.skipped(t1), Err::<usize, Option<String>>(x))]
                p.0.matches(st, Ok::<usize, Option<String>>(n0)) && t1 == n0 && p.1.matches(st.skipped(t1), Err::<usize, Option<String>>(x)))
            || (exists|n0: usize, n1: usize, t1: int, t2: int|
                #![trigger p.0.matches(st, Ok::<usize, Option<String>>(n0)), p.1.matches(st.skipped(t1), Ok::<usize, Option<String>>(n1)), p.2.matches(st.skipped(t2), Err::<usize, Option<String>>(x))]
                p.0.matches(st, Ok::<usize, Option<String>>(n0)) && p.1.matches(st.skipped(t1), Ok::<usize, Option<String>>(n1)) && t1 == n0 && t2 == t1 + n1 && p.2.matches(st.skipped(t2), Err::<usize, Option<String>>(x)))
            || (exists|n0: usize, n1: usize, n2: usize, t1: int, t2: int, t3: int|
                #![trigger p.0.matches(st, Ok::<usize, Option<String>>(n0)), p.1.matches(st.skipped(t1), Ok::<usize, Option<String>>(n1)), p.2.matches(st.skipped(t2), Ok::<usize, Option<String>>(n2)), p.3.matches(st.skipped(t3), Err::<usize, Option<String>>(x))]
                p.0.matches(st, Ok::<usize, Option<String>>(n0)) && p.1.matches(st.skipped(t1), Ok::<usize, Option<String>>(n1)) && p.2.matches(st.skipped(t2), Ok::<usize, Option<String>>(n2)) && t1 == n0 && t2 == t1 + n1 && t3 == t2 + n2 && p.3.matches(st.skipped(t3), Err::<usize, Option<String>>(x)))
            || (exists|n0: usize, n1: usize, n2: usize, n3: usize, t1: int, t2: int, t3: int, t4: int|
                #![trigger p.0.matches(st, Ok::<usize, Option<String>>(n0)), p.1.matches(st.skipped(t1), Ok::<usize, Option<String>>(n1)), p.2.matches(st.skipped(t2), Ok::<usize, Option<String>>(n2)), p.3.matches(st.skipped(t3), Ok::<usize, Option<String>>(n3)), p.4.matches(st.skipped(t4), Err::<usize, Option<String>>(x))]
                p.0.matches(st, Ok::<usize, Option<String>>(n0)) && p.1.matches(st.skipped(t1), Ok::<usize, Option<String>>(n1)) && p.2.matches(st.skipped(t2), Ok::<usize, Option<String>>(n2)) && p.3.matches(st.skipped(t3), Ok::<usize, Option<String>>(n3)) && t1 == n0 && t2 == t1 + n1 && t3 == t2 + n2 && t4 == t3 + n3 && p.4.matches(st.skipped(t4), Err::<usize, Option<String>>(x))),
{
    assert(st.tokens.skip(0) =~= st.tokens);
    assert(st.skipped(0) == st);
}

/// A tuple of 6 patterns that matches does so as the sequence of its
/// parts: each part matches on the stream after the tokens that all earlier
/// parts matched, and the tuple matches their total.
#[verifier::spinoff_prover]
pub proof fn law_tuple6_matches_in_turn<A: MatchStream, B: MatchStream, C: MatchStream, D: MatchStream, E: MatchStream, F: MatchStream>(p: (A, B, C, D, E, F), st: StreamState, res: MatchResult)
    requires
        p.matches(st, res),
    ensures
        res matches Ok(n) ==> exists|n0: usize, n1: usize, n2: usize, n3: usize, n4: usize, n5: usize, t1: int, t2: int, t3: int, t4: int, t5: int|
            #![trigger p.0.matches(st, Ok::<usize, Option<String>>(n0)), p.1.matches(st.skipped(t1), Ok::<usize, Option<String>>(n1)), p.2.matches(st.skipped(t2), Ok::<usize, Option<String>>(n2)), p.3.matches(st.skipped(t3), Ok::<usize, Option<String>>(n3)), p.4.matches(st.skipped(t4), Ok::<usize, Option<String>>(n4)), p.5.matches(st.skipped(t5), Ok::<usize, Option<String>>(n5))]
            p.0.matches(st, Ok::<usize, Option<String>>(n0)) && p.1.matches(st.skipped(t1), Ok::<usize, Option<String>>(n1)) && p.2.matches(st.skipped(t2), Ok::<usize, Option<String>>(n2)) && p.3.matches(st.skipped(t3), Ok::<usize, Option<String>>(n3)) && p.4.matches(st.skipped(t4), Ok::<usize, Option<String>>(n4)) && p.5.matches(st.skipped(t5), Ok::<usize, Option<String>>(n5)) && t1 == n0 && t2 == t1 + n1 && t3 == t2 + n2 && t4 == t3 + n3 && t5 == t4 + n4 && n == (t5 + n5) as usize,
{
    assert(st.tokens.skip(0) =~= st.tokens);
    assert(st.skipped(0) == st);
}

/// A tuple of 6 patterns that fails does so as the first of its parts
/// that fails, matched on the stream after the tokens that all earlier parts
/// matched.
#[verifier::spinoff_prover]
pub proof fn law_tuple6_fails_in_turn<A: MatchStream, B: MatchStream, C: MatchStream, D: MatchStream, E: MatchStream, F: MatchStream>(p: (A, B, C, D, E, F), st: StreamState, res: MatchResult)
    requires
        p.matches(st, res),
    ensures
        res matches Err(x) ==>
            (p.0.matches(st, Err::<usize, Option<String>>(x)))
            || (exists|n0: usize, t1: int|
                #![trigger p.0.matches(st, Ok::<usize, Option<String>>(n0)), p.1.matches(st.skipped(t1), Err::<usize, Option<String>>(x))]
                p.0.matches(st, Ok::<usize, Option<String>>(n0)) && t1 == n0 && p.1.matches(st.skipped(t1), Err::<usize, Option<String>>(x)))
            || (exists|n0: usize, n1: usize, t1: int, t2: int|
                #![trigger p.0.matches(st, Ok::<usize, Option<String>>(n0)), p.1.matches(st.skipped(t1), Ok::<usize, Option<String>>(n1)), p.2.matches(st.skipped(t2), Err::<usize, Option<String>>(x))]
                p.0.matches(st, Ok::<usize, Option<String>>(n0)) && p.1.matches(st.skipped(t1), Ok::<usize, Option<String>>(n1)) && t1 == n0 && t2 == t1 + n1 && p.2.matches(st.skipped(t2), Err::<usize, Option<String>>(x)))
            || (exists|n0: usize, n1: usize, n2: usize, t1: int, t2: int, t3: int|
                #![trigger p.0.matches(st, Ok::<usize, Option<String>>(n0)), p.1.matches(st.skipped(t1), Ok::<usize, Option<String>>(n1)), p.2.matches(st.skipped(t2), Ok::<usize, Option<String>>(n2)), p.3.matches(st.skipped(t3), Err::<usize, Option<String>>(x))]
                p.0.matches(st, Ok::<usize, Option<String>>(n0)) && p.1.matches(st.skipped(t1), Ok::<usize, Option<String>>(n1)) && p.2.matches(st.skipped(t2), Ok::<usize, Option<String>>(n2)) && t1 == n0 && t2 == t1 + n1 && t3 == t2 + n2 && p.3.matches(st.skipped(t3), Err::<usize, Option<String>>(x)))
            || (exists|n0: usize, n1: usize, n2: usize, n3: usize, t1: int, t2: int, t3: int, t4: int|
                #![trigger p.0.matches(st, Ok::<usize, Option<String>>(n0)), p.1.matches(st.skipped(t1), Ok::<usize, Option<String>>(n1)), p.2.matches(st.skipped(t2), Ok::<usize, Option<String>>(n2)), p.3.matches(st.skipped(t3), Ok::<usize, Option<String>>(n3)), p.4.matches(st.skipped(t4), Err::<usize, Option<String>>(x))]
                p.0.matches(st, Ok::<usize, Option<String>>(n0)) && p.1.matches(st.skipped(t1), Ok::<usize, Option<String>>(n1)) && p.2.matches(st.skipped(t2), Ok::<usize, Option<String>>(n2)) && p.3.matches(st.skipped(t3), Ok::<usize, Option<String>>(n3)) && t1 == n0 && t2 == t1 + n1 && t3 == t2 + n2 && t4 == t3 + n3 && p.4.matches(st.skipped(t4), Err::<usize, Option<String>>(x)))
            || (exists|n0: usize, n1: usize, n2: usize, n3: usize, n4: usize, t1: int, t2: int, t3: int, t4: int, t5: int|
                #![trigger p.0.matches(st, Ok::<usize, Option<String>>(n0)), p.1.matches(st.skipped(t1), Ok::<usize, Option<String>>(n1)), p.2.matches(st.skipped(t2), Ok::<usize, Option<String>>(n2)), p.3.matches(st.skipped(t3), Ok::<usize, Option<String>>(n3)), p.4.matches(st.skipped(t4), Ok::<usize, Option<String>>(n4)), p.5.matches(st.skipped(t5), Err::<usize, Option<String>>(x))]
                p.0.matches(st, Ok::<usize, Option<String>>(n0)) && p.1.matches(st.skipped(t1), Ok::<usize, Option<String>>(n1)) && p.2.matches(st.skipped(t2), Ok::<usize, Option<String>>(n2)) && p.3.matches(st.skipped(t3), Ok::<usize, Option<String>>(n3)) && p.4.matches(st.skipped(t4), Ok::<usize, Option<String>>(n4)) && t1 == n0 && t2 == t1 + n1 && t3 == t2 + n2 && t4 == t3 + n3 && t5 == t4 + n4 && p.5.matches(st.skipped(t5), Err::<usize, Option<String>>(x))),
{
    assert(st.tokens.skip(0) =~= st.tokens);
    assert(st.skipped(0) == st);
}

/// A tuple of 7 patterns that matches does so as the sequence of its
/// parts: each part matches on the stream after the tokens that all earlier
/// parts matched, and the tuple matches their total.
#[verifier::spinoff_prover]
pub proof fn law_tuple7_matches_in_turn<A: MatchStream, B: MatchStream, C: MatchStream, D: MatchStream, E: MatchStream, F: MatchStream, G: MatchStream>(p: (A, B, C, D, E, F, G), st: StreamState, res: MatchResult)
    requires
        p.matches(st, res),
    ensures
        res matches Ok(n) ==> exists|n0: usize, n1: usize, n2: usize, n3: usize, n4: usize, n5: usize, n6: usize, t1: int, t2: int, t3: int, t4: int, t5: int, t6: int|
            #![trigger p.0.matches(st, Ok::<usize, Option<String>>(n0)), p.1.matches(st.skipped(t1), Ok::<usize, Option<String>>(n1)), p.2.matches(st.skipped(t2), Ok::<usize, Option<String>>(n2)), p.3.matches(st.skipped(t3), Ok::<usize, Option<String>>(n3)), p.4.matches(st.skipped(t4), Ok::<usize, Option<String>>(n4)), p.5.matches(st.skipped(t5), Ok::<usize, Option<String>>(n5)), p.6.matches(st.skipped(t6), Ok::<usize, Option<String>>(n6))]
            p.0.matches(st, Ok::<usize, Option<String>>(n0)) && p.1.matches(st.skipped(t1), Ok::<usize, Option<String>>(n1)) && p.2.matches(st.skipped(t2), Ok::<usize, Option<String>>(n2)) && p.3.matches(st.skipped(t3), Ok::<usize, Option<String>>(n3)) && p.4.matches(st.skipped(t4), Ok::<usize, Option<String>>(n4)) && p.5.matches(st.skipped(t5), Ok::<usize, Option<String>>(n5)) && p.6.matches(st.skipped(t6), Ok::<usize, Option<String>>(n6)) && t1 == n0 && t2 == t1 + n1 && t3 == t2 + n2 && t4 == t3 + n3 && t5 == t4 + n4 && t6 == t5 + n5 && n == (t6 + n6) as usize,
{
    assert(st.tokens.skip(0) =~= st.tokens);
    assert(st.skipped(0) == st);
}

/// A tuple of 7 patterns that fails does so as the first of its parts
/// that fails, matched on the stream after the tokens that all earlier parts
/// matched.
#[verifier::spinoff_prover]
pub proof fn law_tuple7_fails_in_turn<A: MatchStream, B: MatchStream, C: MatchStream, D: MatchStream, E: MatchStream, F: MatchStream, G: MatchStream>(p: (A, B, C, D, E, F, G), st: StreamState, res: MatchResult)
    requires
        p.matches(st, res),
    ensures
        res matches Err(x) ==>
            (p.0.matches(st, Err::<usize, Option<String>>(x)))
            || (exists|n0: usize, t1: int|
                #![trigger p.0.matches(st, Ok::<usize, Option<String>>(n0)), p.1.matches(st.skipped(t1), Err::<usize, Option<String>>(x))]
                p.0.matches(st, Ok::<usize, Option<String>>(n0)) && t1 == n0 && p.1.matches(st.skipped(t1), Err::<usize, Option<String>>(x)))
            || (exists|n0: usize, n1: usize, t1: int, t2: int|
                #![trigger p.0.matches(st, Ok::<usize, Option<String>>(n0)), p.1.matches(st.skipped(t1), Ok::<usize, Option<String>>(n1)), p.2.matches(st.skipped(t2), Err::<usize, Option<String>>(x))]
                p.0.matches(st, Ok::<usize, Option<String>>(n0)) && p.1.matches(st.skipped(t1), Ok::<usize, Option<String>>(n1)) && t1 == n0 && t2 == t1 + n1 && p.2.matches(st.skipped(t2), Err::<usize, Option<String>>(x)))
            || (exists|n0: usize, n1: usize, n2: usize, t1: int, t2: int, t3: int|
                #![trigger p.0.matches(st, Ok::<usize, Option<String>>(n0)), p.1.matches(st.skipped(t1), Ok::<usize, Option<String>>(n1)), p.2.matches(st.skipped(t2), Ok::<usize, Option<String>>(n2)), p.3.matches(st.skipped(t3), Err::<usize, Option<String>>(x))]
                p.0.matches(st, Ok::<usize, Option<String>>(n0)) && p.1.matches(st.skipped(t1), Ok::<usize, Option<String>>(n1)) && p.2.matches(st.skipped(t2), Ok::<usize, Option<String>>(n2)) && t1 == n0 && t2 == t1 + n1 && t3 == t2 + n2 && p.3.matches(st.skipped(t3), Err::<usize, Option<String>>(x)))
            || (exists|n0: usize, n1: usize, n2: usize, n3: usize, t1: int, t2: int, t3: int, t4: int|
                #![trigger p.0.matches(st, Ok::<usize, Option<String>>(n0)), p.1.matches(st.skipped(t1), Ok::<usize, Option<String>>(n1)), p.2.matches(st.skipped(t2), Ok::<usize, Option<String>>(n2)), p.3.matches(st.skipped(t3), Ok::<usize, Option<String>>(n3)), p.4.matches(st.skipped(t4), Err::<usize, Option<String>>(x))]
                p.0.matches(st, Ok::<usize, Option<String>>(n0)) && p.1.matches(st.skipped(t1), Ok::<usize, Option<String>>(n1)) && p.2.matches(st.skipped(t2), Ok::<usize, Option<String>>(n2)) && p.3.matches(st.skipped(t3), Ok::<usize, Option<String>>(n3)) && t1 == n0 && t2 == t1 + n1 && t3 == t2 + n2 && t4 == t3 + n3 && p.4.matches(st.skipped(t4), Err::<usize, Option<String>>(x)))
            || (exists|n0: usize, n1: usize, n2: usize, n3: usize, n4: usize, t1: int, t2: int, t3: int, t4: int, t5: int|
                #![trigger p.0.matches(st, Ok::<usize, Option<String>>(n0)), p.1.matches(st.skipped(t1), Ok::<usize, Option<String>>(n1)), p.2.matches(st.skipped(t2), Ok::<usize, Option<String>>(n2)), p.3.matches(st.skipped(t3), Ok::<usize, Option<String>>(n3)), p.4.matches(st.skipped(t4), Ok::<usize, Option<String>>(n4)), p.5.matches(st.skipped(t5), Err::<usize, Option<String>>(x))]
                p.0.matches(st, Ok::<usize, Option<String>>(n0)) && p.1.matches(st.skipped(t1), Ok::<usize, Option<String>>(n1)) && p.2.matches(st.skipped(t2), Ok::<usize, Option<String>>(n2)) && p.3.matches(st.skipped(t3), Ok::<usize, Option<String>>(n3)) && p.4.matches(st.skipped(t4), Ok::<usize, Option<String>>(n4)) && t1 == n0 && t2 == t1 + n1 && t3 == t2 + n2 && t4 == t3 + n3 && t5 == t4 + n4 && p.5.matches(st.skipped(t5), Err::<usize, Option<String>>(x)))
            || (exists|n0: usize, n1: usize, n2: usize, n3: usize, n4: usize, n5: usize, t1: int, t2: int, t3: int, t4: int, t5: int, t6: int|
                #![trigger p.0.matches(st, Ok::<usize, Option<String>>(n0)), p.1.matches(st.skipped(t1), Ok::<usize, Option<String>>(n1)), p.2.matches(st.skipped(t2), Ok::<usize, Option<String>>(n2)), p.3.matches(st.skipped(t3), Ok::<usize, Option<String>>(n3)), p.4.matches(st.skipped(t4), Ok::<usize, Option<String>>(n4)), p.5.matches(st.skipped(t5), Ok::<usize, Option<String>>(n5)), p.6.matches(st.skipped(t6), Err::<usize, Option<String>>(x))]
                p.0.matches(st, Ok::<usize, Option<String>>(n0)) && p.1.matches(st.skipped(t1), Ok::<usize, Option<String>>(n1)) && p.2.matches(st.skipped(t2), Ok::<usize, Option<String>>(n2)) && p.3.matches(st.skipped(t3), Ok::<usize, Option<String>>(n3)) && p.4.matches(st.skipped(t4), Ok::<usize, Option<String>>(n4)) && p.5.matches(st.skipped(t5), Ok::<usize, Option<String>>(n5)) && t1 == n0 && t2 == t1 + n1 && t3 == t2 + n2 && t4 == t3 + n3 && t5 == t4 + n4 && t6 == t5 + n5 && p.6.matches(st.skipped(t6), Err::<usize, Option<String>>(x))),
{
    assert(st.tokens.skip(0) =~= st.tokens);
    assert(st.skipped(0) == st);
}

/// A tuple of 8 patterns that matches does so as the sequence of its
/// parts: each part matches on the stream after the tokens that all earlier
/// parts matched, and the tuple matches their total.
#[verifier::spinoff_prover]
#[verifier::rlimit(100)]
pub proof fn law_tuple8_matches_in_turn<A: MatchStream, B: MatchStream, C: MatchStream, D: MatchStream, E: MatchStream, F: MatchStream, G: MatchStream, H: MatchStream>(p: (A, B, C, D, E, F, G, H), st: StreamState, res: MatchResult)
    requires
        p.matches(st, res),
    ensures
        res matches Ok(n) ==> exists|n0: usize, n1: usize, n2: usize, n3: usize, n4: usize, n5: usize, n6: usize, n7: usize, t1: int, t2: int, t3: int, t4: int, t5: int, t6: int, t7: int|
            #![trigger p.0.matches(st, Ok::<usize, Option<String>>(n0)), p.1.matches(st.skipped(t1), Ok::<usize, Option<String>>(n1)), p.2.matches(st.skipped(t2), Ok::<usize, Option<String>>(n2)), p.3.matches(st.skipped(t3), Ok::<usize, Option<String>>(n3)), p.4.matches(st.skipped(t4), Ok::<usize, Option<String>>(n4)), p.5.matches(st.skipped(t5), Ok::<usize, Option<String>>(n5)), p.6.matches(st.skipped(t6), Ok::<usize, Option<String>>(n6)), p.7.matches(st.skipped(t7), Ok::<usize, Option<String>>(n7))]
            p.0.matches(st, Ok::<usize, Option<String>>(n0)) && p.1.matches(st.skipped(t1), Ok::<usize, Option<String>>(n1)) && p.2.matches(st.skipped(t2), Ok::<usize, Option<String>>(n2)) && p.3.matches(st.skipped(t3), Ok::<usize, Option<String>>(n3)) && p.4.matches(st.skipped(t4), Ok::<usize, Option<String>>(n4)) && p.5.matches(st.skipped(t5), Ok::<usize, Option<String>>(n5)) && p.6.matches(st.skipped(t6), Ok::<usize, Option<String>>(n6)) && p.7.matches(st.skipped(t7), Ok::<usize, Option<String>>(n7)) && t1 == n0 && t2 == t1 + n1 && t3 == t2 + n2 && t4 == t3 + n3 && t5 == t4 + n4 && t6 == t5 + n5 && t7 == t6 + n6 && n == (t7 + n7) as usize,
{
    assert(st.tokens.skip(0) =~= st.tokens);
    assert(st.skipped(0) == st);
}

/// A tuple of 8 patterns that fails does so as the first of its parts
/// that fails, matched on the stream after the tokens that all earlier parts
/// matched.
#[verifier::spinoff_prover]
#[verifier::rlimit(100)]
pub proof fn law_tuple8_fails_in_turn<A: MatchStream, B: MatchStream, C: MatchStream, D: MatchStream, E: MatchStream, F: MatchStream, G: MatchStream, H: MatchStream>(p: (A, B, C, D, E, F, G, H), st: StreamState, res: MatchResult)
    requires
        p.matches(st, res),
    ensures
        res matches Err(x) ==>
            (p.0.matches(st, Err::<usize, Option<String>>(x)))
            || (exists|n0: usize, t1: int|
                #![trigger p.0.matches(st, Ok::<usize, Option<String>>(n0)), p.1.matches(st.skipped(t1), Err::<usize, Option<String>>(x))]
                p.0.matches(st, Ok::<usize, Option<String>>(n0)) && t1 == n0 && p.1.matches(st.skipped(t1), Err::<usize, Option<String>>(x)))
            || (exists|n0: usize, n1: usize, t1: int, t2: int|
                #![trigger p.0.matches(st, Ok::<usize, Option<String>>(n0)), p.1.matches(st.skipped(t1), Ok::<usize, Option<String>>(n1)), p.2.matches(st.skipped(t2), Err::<usize, Option<String>>(x))]
                p.0.matches(st, Ok::<usize, Option<String>>(n0)) && p.1.matches(st.skipped(t1), Ok::<usize, Option<String>>(n1)) && t1 == n0 && t2 == t1 + n1 && p.2.matches(st.skipped(t2), Err::<usize, Option<String>>(x)))
            || (exists|n0: usize, n1: usize, n2: usize, t1: int, t2: int, t3: int|
                #![trigger p.0.matches(st, Ok::<usize, Option<String>>(n0)), p.1.matches(st.skipped(t1), Ok::<usize, Option<String>>(n1)), p.2.matches(st.skipped(t2), Ok::<usize, Option<String>>(n2)), p.3.matches(st.skipped(t3), Err::<usize, Option<String>>(x))]
                p.0.matches(st, Ok::<usize, Option<String>>(n0)) && p.1.matches(st.skipped(t1), Ok::<usize, Option<String>>(n1)) && p.2.matches(st.skipped(t2), Ok::<usize, Option<String>>(n2)) && t1 == n0 && t2 == t1 + n1 && t3 == t2 + n2 && p.3.matches(st.skipped(t3), Err::<usize, Option<String>>(x)))
            || (exists|n0: usize, n1: usize, n2: usize, n3: usize, t1: int, t2: int, t3: int, t4: int|
                #![trigger p.0.matches(st, Ok::<usize, Option<String>>(n0)), p.1.matches(st.skipped(t1), Ok::<usize, Option<String>>(n1)), p.2.matches(st.skipped(t2), Ok::<usize, Option<String>>(n2)), p.3.matches(st.skipped(t3), Ok::<usize, Option<String>>(n3)), p.4.matches(st.skipped(t4), Err::<usize, Option<String>>(x))]
                p.0.matches(st, Ok::<usize, Option<String>>(n0)) && p.1.matches(st.skipped(t1), Ok::<usize, Option<String>>(n1)) && p.2.matches(st.skipped(t2), Ok::<usize, Option<String>>(n2)) && p.3.matches(st.skipped(t3), Ok::<usize, Option<String>>(n3)) && t1 == n0 && t2 == t1 + n1 && t3 == t2 + n2 && t4 == t3 + n3 && p.4.matches(st.skipped(t4), Err::<usize, Option<String>>(x)))
            || (exists|n0: usize, n1: usize, n2: usize, n3: usize, n4: usize, t1: int, t2: int, t3: int, t4: int, t5: int|
                #![trigger p.0.matches(st, Ok::<usize, Option<String>>(n0)), p.1.matches(st.skipped(t1), Ok::<usize, Option<String>>(n1)), p.2.matches(st.skipped(t2), Ok::<usize, Option<String>>(n2)), p.3.matches(st.skipped(t3), Ok::<usize, Option<String>>(n3)), p.4.matches(st.skipped(t4), Ok::<usize, Option<String>>(n4)), p.5.matches(st.skipped(t5), Err::<usize, Option<String>>(x))]
                p.0.matches(st, Ok::<usize, Option<String>>(n0)) && p.1.matches(st.skipped(t1), Ok::<usize, Option<String>>(n1)) && p.2.matches(st.skipped(t2), Ok::<usize, Option<String>>(n2)) && p.3.matches(st.skipped(t3), Ok::<usize, Option<String>>(n3)) && p.4.matches(st.skipped(t4), Ok::<usize, Option<String>>(n4)) && t1 == n0 && t2 == t1 + n1 && t3 == t2 + n2 && t4 == t3 + n3 && t5 == t4 + n4 && p.5.matches(st.skipped(t5), Err::<usize, Option<String>>(x)))
            || (exists|n0: usize, n1: usize, n2: usize, n3: usize, n4: usize, n5: usize, t1: int, t2: int, t3: int, t4: int, t5: int, t6: int|
                #![trigger p.0.matches(st, Ok::<usize, Option<String>>(n0)), p.1.matches(st.skipped(t1), Ok::<usize, Option<String>>(n1)), p.2.matches(st.skipped(t2), Ok::<usize, Option<String>>(n2)), p.3.matches(st.skipped(t3), Ok::<usize, Option<String>>(n3)), p.4.matches(st.skipped(t4), Ok::<usize, Option<String>>(n4)), p.5.matches(st.skipped(t5), Ok::<usize, Option<String>>(n5)), p.6.matches(st.skipped(t6), Err::<usize, Option<String>>(x))]
                p.0.matches(st, Ok::<usize, Option<String>>(n0)) && p.1.matches(st.skipped(t1), Ok::<usize, Option<String>>(n1)) && p.2.matches(st.skipped(t2), Ok::<usize, Option<String>>(n2)) && p.3.matches(st.skipped(t3), Ok::<usize, Option<String>>(n3)) && p.4.matches(st.skipped(t4), Ok::<usize, Option<String>>(n4)) && p.5.matches(st.skipped(t5), Ok::<usize, Option<String>>(n5)) && t1 == n0 && t2 == t1 + n1 && t3 == t2 + n2 && t4 == t3 + n3 && t5 == t4 + n4 && t6 == t5 + n5 && p.6.matches(st.skipped(t6), Err::<usize, Option<String>>(x)))
            || (exists|n0: usize, n1: usize, n2: usize, n3: usize, n4: usize, n5: usize, n6: usize, t1: int, t2: int, t3: int, t4: int, t5: int, t6: int, t7: int|
                #![trigger p.0.matches(st, Ok::<usize, Option<String>>(n0)), p.1.matches(st.skipped(t1), Ok::<usize, Option<String>>(n1)), p.2.matches(st.skipped(t2), Ok::<usize, Option<String>>(n2)), p.3.matches(st.skipped(t3), Ok::<usize, Option<String>>(n3)), p.4.matches(st.skipped(t4), Ok::<usize, Option<String>>(n4)), p.5.matches(st.skipped(t5), Ok::<usize, Option<String>>(n5)), p.6.matches(st.skipped(t6), Ok::<usize, Option<String>>(n6)), p.7.matches(st.skipped(t7), Err::<usize, Option<String>>(x))]
                p.0.matches(st, Ok::<usize, Option<String>>(n0)) && p.1.matches(st.skipped(t1), Ok::<usize, Option<String>>(n1)) && p.2.matches(st.skipped(t2), Ok::<usize, Option<String>>(n2)) && p.3.matches(st.skipped(t3), Ok::<usize, Option<String>>(n3)) && p.4.matches(st.skipped(t4), Ok::<usize, Option<String>>(n4)) && p.5.matches(st.skipped(t5), Ok::<usize, Option<String>>(n5)) && p.6.matches(st.skipped(t6), Ok::<usize, Option<String>>(n6)) && t1 == n0 && t2 == t1 + n1 && t3 == t2 + n2 && t4 == t3 + n3 && t5 == t4 + n4 && t6 == t5 + n5 && t7 == t6 + n6 && p.7.matches(st.skipped(t7), Err::<usize, Option<String>>(x))),
{
    assert(st.tokens.skip(0) =~= st.tokens);
    assert(st.skipped(0) == st);
}

/// A tuple of 1 parser parses its parts one after the other: each part
/// parses from where the part before it left the stream, and the tuple gives
/// all their values; or it fails as the first part that fails, leaving the
/// stream where that part left it.
pub proof fn law_tuple1_parses_in_turn<A: FromStream>(before: StreamState, res: Result<<(A,) as FromStream>::Output, Error>, after: StreamState)
    requires
        <(A,) as FromStream>::parses(before, res, after),
    ensures
        res matches Ok(v) ==> A::parses(before, Ok::<A::Output, Error>(v.0), after),
        res matches Err(e) ==> (A::parses(before, Err::<A::Output, Error>(e), after)),
{
}

/// A tuple of 2 parsers parses its parts one after the other: each part
/// parses from where the part before it left the stream, and the tuple gives
/// all their values; or it fails as the first part that fails, leaving the
/// stream where that part left it.
pub proof fn law_tuple2_parses_in_turn<A: FromStream, B: FromStream>(before: StreamState, res: Result<<(A, B) as FromStream>::Output, Error>, after: StreamState)
    requires
        <(A, B) as FromStream>::parses(before, res, after),
    ensures
        res matches Ok(v) ==> exists|m1: StreamState|
            #![trigger A::parses(before, Ok::<A::Output, Error>(v.0), m1), B::parses(m1, Ok::<B::Output, Error>(v.1), after)]
            A::parses(before, Ok::<A::Output, Error>(v.0), m1) && B::parses(m1, Ok::<B::Output, Error>(v.1), after),
        res matches Err(e) ==>
            (A::parses(before, Err::<A::Output, Error>(e), after))
            || (exists|x0: A::Output, m1: StreamState|
                #![trigger A::parses(before, Ok::<A::Output, Error>(x0), m1), B::parses(m1, Err::<B::Output, Error>(e), after)]
                A::parses(before, Ok::<A::Output, Error>(x0), m1) && B::parses(m1, Err::<B::Output, Error>(e), after)),
{
    let (r, mid) = choose|r: Result<(A::Output,), Error>, mid: StreamState|
        #[trigger] <(A,) as FromStream>::parses(before, r, mid) && then_parses::<(A::Output,), B, (A::Output, B::Output)>(
            r,
            mid,
            res,
            after,
            |p: (A::Output,), l: B::Output| (p.0, l),
        );
    law_tuple1_parses_in_turn::<A>(before, r, mid);
    if let Ok(p) = r {
        let rl = choose|rl: Result<B::Output, Error>|
            #[trigger] B::parses(mid, rl, after) && match rl {
                Err(e) => res == Err::<(A::Output, B::Output), Error>(e),
                Ok(l) => res == Ok::<(A::Output, B::Output), Error>((|p: (A::Output,), l: B::Output| (p.0, l))(p, l)),
            };
        if let Ok(l) = rl {
            if let Ok(v) = res {
                assert(v.0 == p.0 && v.1 == l);
                assert(A::parses(before, Ok::<A::Output, Error>(v.0), mid) && B::parses(mid, Ok::<B::Output, Error>(v.1), after));
            }
        }
        if let Err(e) = rl {
            assert(A::parses(before, Ok::<A::Output, Error>(p.0), mid) && B::parses(mid, Err::<B::Output, Error>(e), after));
        }
    }
}

/// A tuple of 3 parsers parses its parts one after the other: each part
/// parses from where the part before it left the stream, and the tuple gives
/// all their values; or it fails as the first part that fails, leaving the
/// stream where that part left it.
pub proof fn law_tuple3_parses_in_turn<A: FromStream, B: FromStream, C: FromStream>(before: StreamState, res: Result<<(A, B, C) as FromStream>::Output, Error>, after: StreamState)
    requires
        <(A, B, C) as FromStream>::parses(before, res, after),
    ensures
        res matches Ok(v) ==> exists|m1: StreamState, m2: StreamState|
            #![trigger A::parses(before, Ok::<A::Output, Error>(v.0), m1), B::parses(m1, Ok::<B::Output, Error>(v.1), m2), C::parses(m2, Ok::<C::Output, Error>(v.2), after)]
            A::parses(before, Ok::<A::Output, Error>(v.0), m1) && B::parses(m1, Ok::<B::Output, Error>(v.1), m2) && C::parses(m2, Ok::<C::Output, Error>(v.2), after),
        res matches Err(e) ==>
            (A::parses(before, Err::<A::Output, Error>(e), after))
            || (exists|x0: A::Output, m1: StreamState|
                #![trigger A::parses(before, Ok::<A::Output, Error>(x0), m1), B::parses(m1, Err::<B::Output, Error>(e), after)]
                A::parses(before, Ok::<A::Output, Error>(x0), m1) && B::parses(m1, Err::<B::Output, Error>(e), after))
            || (exists|x0: A::Output, m1: StreamState, x1: B::Output, m2: StreamState|
                #![trigger A::parses(before, Ok::<A::Output, Error>(x0), m1), B::parses(m1, Ok::<B::Output, Error>(x1), m2), C::parses(m2, Err::<C::Output, Error>(e), after)]
                A::parses(before, Ok::<A::Output, Error>(x0), m1) && B::parses(m1, Ok::<B::Output, Error>(x1), m2) && C::parses(m2, Err::<C::Output, Error>(e), after)),
{
    let (r, mid) = choose|r: Result<(A::Output, B::Output), Error>, mid: StreamState|
        #[trigger] <(A, B) as FromStream>::parses(before, r, mid) && then_parses::<(A::Output, B::Output), C, (A::Output, B::Output, C::Output)>(
            r,
            mid,
            res,
            after,
            |p: (A::Output, B::Output), l: C::Output| (p.0, p.1, l),
        );
    law_tuple2_parses_in_turn::<A, B>(before, r, mid);
    if let Ok(p) = r {
        let rl = choose|rl: Result<C::Output, Error>|
            #[trigger] C::parses(mid, rl, after) && match rl {
                Err(e) => res == Err::<(A::Output, B::Output, C::Output), Error>(e),
                Ok(l) => res == Ok::<(A::Output, B::Output, C::Output), Error>((|p: (A::Output, B::Output), l: C::Output| (p.0, p.1, l))(p, l)),
            };
        if let Ok(l) = rl {
            let m1 = choose|m1: StreamState| A::parses(before, Ok::<A::Output, Error>(p.0), m1) && B::parses(m1, Ok::<B::Output, Error>(p.1), mid);
            if let Ok(v) = res {
                assert(v.0 == p.0 && v.1 == p.1 && v.2 == l);
                assert(A::parses(before, Ok::<A::Output, Error>(v.0), m1) && B::parses(m1, Ok::<B::Output, Error>(v.1), mid) && C::parses(mid, Ok::<C::Output, Error>(v.2), after));
            }
        }
        if let Err(e) = rl {
            let m1 = choose|m1: StreamState| A::parses(before, Ok::<A::Output, Error>(p.0), m1) && B::parses(m1, Ok::<B::Output, Error>(p.1), mid);
            assert(A::parses(before, Ok::<A::Output, Error>(p.0), m1) && B::parses(m1, Ok::<B::Output, Error>(p.1), mid) && C::parses(mid, Err::<C::Output, Error>(e), after));
        }
    }
}

/// A tuple of 4 parsers parses its parts one after the other: each part
/// parses from where the part before it left the stream, and the tuple gives
/// all their values; or it fails as the first part that fails, leaving the
/// stream where that part left it.
pub proof fn law_tuple4_parses_in_turn<A: FromStream, B: FromStream, C: FromStream, D: FromStream>(before: StreamState, res: Result<<(A, B, C, D) as FromStream>::Output, Error>, after: StreamState)
    requires
        <(A, B, C, D) as FromStream>::parses(before, res, after),
    ensures
        res matches Ok(v) ==> exists|m1: StreamState, m2: StreamState, m3: StreamState|
            #![trigger A::parses(before, Ok::<A::Output, Error>(v.0), m1), B::parses(m1, Ok::<B::Output, Error>(v.1), m2), C::parses(m2, Ok::<C::Output, Error>(v.2), m3), D::parses(m3, Ok::<D::Output, Error>(v.3), after)]
            A::parses(before, Ok::<A::Output, Error>(v.0), m1) && B::parses(m1, Ok::<B::Output, Error>(v.1), m2) && C::parses(m2, Ok::<C::Output, Error>(v.2), m3) && D::parses(m3, Ok::<D::Output, Error>(v.3), after),
        res matches Err(e) ==>
            (A::parses(before, Err::<A::Output, Error>(e), after))
            || (exists|x0: A::Output, m1: StreamState|
                #![trigger A::parses(before, Ok::<A::Output, Error>(x0), m1), B::parses(m1, Err::<B::Output, Error>(e), after)]
                A::parses(before, Ok::<A::Output, Error>(x0), m1) && B::parses(m1, Err::<B::Output, Error>(e), after))
            || (exists|x0: A::Output, m1: StreamState, x1: B::Output, m2: StreamState|
                #![trigger A::parses(before, Ok::<A::Output, Error>(x0), m1), B::parses(m1, Ok::<B::Output, Error>(x1), m2), C::parses(m2, Err::<C::Output, Error>(e), after)]
                A::parses(before, Ok::<A::Output, Error>(x0), m1) && B::parses(m1, Ok::<B::Output, Error>(x1), m2) && C::parses(m2, Err::<C::Output, Error>(e), after))
            || (exists|x0: A::Output, m1: StreamState, x1: B::Output, m2: StreamState, x2: C::Output, m3: StreamState|
                #![trigger A::parses(before, Ok::<A::Output, Error>(x0), m1), B::parses(m1, Ok::<B::Output, Error>(x1), m2), C::parses(m2, Ok::<C::Output, Error>(x2), m3), D::parses(m3, Err::<D::Output, Error>(e), after)]
                A::parses(before, Ok::<A::Output, Error>(x0), m1) && B::parses(m1, Ok::<B::Output, Error>(x1), m2) && C::parses(m2, Ok::<C::Output, Error>(x2), m3) && D::parses(m3, Err::<D::Output, Error>(e), after)),
{
    let (r, mid) = choose|r: Result<(A::Output, B::Output, C::Output), Error>, mid: StreamState|
        #[trigger] <(A, B, C) as FromStream>::parses(before, r, mid) && then_parses::<(A::Output, B::Output, C::Output), D, (A::Output, B::Output, C::Output, D::Output)>(
            r,
            mid,
            res,
            after,
            |p: (A::Output, B::Output, C::Output), l: D::Output| (p.0, p.1, p.2, l),
        );
    law_tuple3_parses_in_turn::<A, B, C>(before, r, mid);
    if let Ok(p) = r {
        let rl = choose|rl: Result<D::Output, Error>|
            #[trigger] D::parses(mid, rl, after) && match rl {
                Err(e) => res == Err::<(A::Output, B::Output, C::Output, D::Output), Error>(e),
                Ok(l) => res == Ok::<(A::Output, B::Output, C::Output, D::Output), Error>((|p: (A::Output, B::Output, C::Output), l: D::Output| (p.0, p.1, p.2, l))(p, l)),
            };
        if let Ok(l) = rl {
            let (m1, m2) = choose|m1: StreamState, m2: StreamState| A::parses(before, Ok::<A::Output, Error>(p.0), m1) && B::parses(m1, Ok::<B::Output, Error>(p.1), m2) && C::parses(m2, Ok::<C::Output, Error>(p.2), mid);
            if let Ok(v) = res {
                assert(v.0 == p.0 && v.1 == p.1 && v.2 == p.2 && v.3 == l);
                assert(A::parses(before, Ok::<A::Output, Error>(v.0), m1) && B::parses(m1, Ok::<B::Output, Error>(v.1), m2) && C::parses(m2, Ok::<C::Output, Error>(v.2), mid) && D::parses(mid, Ok::<D::Output, Error>(v.3), after));
            }
        }
        if let Err(e) = rl {
            let (m1, m2) = choose|m1: StreamState, m2: StreamState| A::parses(before, Ok::<A::Output, Error>(p.0), m1) && B::parses(m1, Ok::<B::Output, Error>(p.1), m2) && C::parses(m2, Ok::<C::Output, Error>(p.2), mid);
            assert(A::parses(before, Ok::<A::Output, Error>(p.0), m1) && B::parses(m1, Ok::<B::Output, Error>(p.1), m2) && C::parses(m2, Ok::<C::Output, Error>(p.2), mid) && D::parses(mid, Err::<D::Output, Error>(e), after));
        }
    }
}

/// A tuple of 5 parsers parses its parts one after the other: each part
/// parses from where the part before it left the stream, and the tuple gives
/// all their values; or it fails as the first part that fails, leaving the
/// stream where that part left it.
#[verifier::spinoff_prover]
pub proof fn law_tuple5_parses_in_turn<A: FromStream, B: FromStream, C: FromStream, D: FromStream, E: FromStream>(before: StreamState, res: Result<<(A, B, C, D, E) as FromStream>::Output, Error>, after: StreamState)
    requires
        <(A, B, C, D, E) as FromStream>::parses(before, res, after),
    ensures
        res matches Ok(v) ==> exists|m1: StreamState, m2: StreamState, m3: StreamState, m4: StreamState|
            #![trigger A::parses(before, Ok::<A::Output, Error>(v.0), m1), B::parses(m1, Ok::<B::Output, Error>(v.1), m2), C::parses(m2, Ok::<C::Output, Error>(v.2), m3), D::parses(m3, Ok::<D::Output, Error>(v.3), m4), E::parses(m4, Ok::<E::Output, Error>(v.4), after)]
            A::parses(before, Ok::<A::Output, Error>(v.0), m1) && B::parses(m1, Ok::<B::Output, Error>(v.1), m2) && C::parses(m2, Ok::<C::Output, Error>(v.2), m3) && D::parses(m3, Ok::<D::Output, Error>(v.3), m4) && E::parses(m4, Ok::<E::Output, Error>(v.4), after),
        res matches Err(e) ==>
            (A::parses(before, Err::<A::Output, Error>(e), after))
            || (exists|x0: A::Output, m1: StreamState|
                #![trigger A::parses(before, Ok::<A::Output, Error>(x0), m1), B::parses(m1, Err::<B::Output, Error>(e), after)]
                A::parses(before, Ok::<A::Output, Error>(x0), m1) && B::parses(m1, Err::<B::Output, Error>(e), after))
            || (exists|x0: A::Output, m1: StreamState, x1: B::Output, m2: StreamState|
                #![trigger A::parses(before, Ok::<A::Output, Error>(x0), m1), B::parses(m1, Ok::<B::Output, Error>(x1), m2), C::parses(m2, Err::<C::Output, Error>(e), after)]
                A::parses(before, Ok::<A::Output, Error>(x0), m1) && B::parses(m1, Ok::<B::Output, Error>(x1), m2) && C::parses(m2, Err::<C::Output, Error>(e), after))
            || (exists|x0: A::Output, m1: StreamState, x1: B::Output, m2: StreamState, x2: C::Output, m3: StreamState|
                #![trigger A::parses(before, Ok::<A::Output, Error>(x0), m1), B::parses(m1, Ok::<B::Output, Error>(x1), m2), C::parses(m2, Ok::<C::Output, Error>(x2), m3), D::parses(m3, Err::<D::Output, Error>(e), after)]
                A::parses(before, Ok::<A::Output, Error>(x0), m1) && B::parses(m1, Ok::<B::Output, Error>(x1), m2) && C::parses(m2, Ok::<C::Output, Error>(x2), m3) && D::parses(m3, Err::<D::Output, Error>(e), after))
            || (exists|x0: A::Output, m1: StreamState, x1: B::Output, m2: StreamState, x2: C::Output, m3: StreamState, x3: D::Output, m4: StreamState|
                #![trigger A::parses(before, Ok::<A::Output, Error>(x0), m1), B::parses(m1, Ok::<B::Output, Error>(x1), m2), C::parses(m2, Ok::<C::Output, Error>(x2), m3), D::parses(m3, Ok::<D::Output, Error>(x3), m4), E::parses(m4, Err::<E::Output, Error>(e), after)]
                A::parses(before, Ok::<A::Output, Error>(x0), m1) && B::parses(m1, Ok::<B::Output, Error>(x1), m2) && C::parses(m2, Ok::<C::Output, Error>(x2), m3) && D::parses(m3, Ok::<D::Output, Error>(x3), m4) && E::parses(m4, Err::<E::Output, Error>(e), after)),
{
    let (r, mid) = choose|r: Result<(A::Output, B::Output, C::Output, D::Output), Error>, mid: StreamState|
        #[trigger] <(A, B, C, D) as FromStream>::parses(before, r, mid) && then_parses::<(A::Output, B::Output, C::Output, D::Output), E, (A::Output, B::Output, C::Output, D::Output, E::Output)>(
            r,
            mid,
            res,
            after,
            |p: (A::Output, B::Output, C::Output, D::Output), l: E::Output| (p.0, p.1, p.2, p.3, l),
        );
    law_tuple4_parses_in_turn::<A, B, C, D>(before, r, mid);
    if let Ok(p) = r {
        let rl = choose|rl: Result<E::Output, Error>|
            #[trigger] E::parses(mid, rl, after) && match rl {
                Err(e) => res == Err::<(A::Output, B::Output, C::Output, D::Output, E::Output), Error>(e),
                Ok(l) => res == Ok::<(A::Output, B::Output, C::Output, D::Output, E::Output), Error>((|p: (A::Output, B::Output, C::Output, D::Output), l: E::Output| (p.0, p.1, p.2, p.3, l))(p, l)),
            };
        if let Ok(l) = rl {
            let (m1, m2, m3) = choose|m1: StreamState, m2: StreamState, m3: StreamState| A::parses(before, Ok::<A::Output, Error>(p.0), m1) && B::parses(m1, Ok::<B::Output, Error>(p.1), m2) && C::parses(m2, Ok::<C::Output, Error>(p.2), m3) && D::parses(m3, Ok::<D::Output, Error>(p.3), mid);
            if let Ok(v) = res {
                assert(v.0 == p.0 && v.1 == p.1 && v.2 == p.2 && v.3 == p.3 && v.4 == l);
                assert(A::parses(before, Ok::<A::Output, Error>(v.0), m1) && B::parses(m1, Ok::<B::Output, Error>(v.1), m2) && C::parses(m2, Ok::<C::Output, Error>(v.2), m3) && D::parses(m3, Ok::<D::Output, Error>(v.3), mid) && E::parses(mid, Ok::<E::Output, Error>(v.4), after));
            }
        }
        if let Err(e) = rl {
            let (m1, m2, m3) = choose|m1: StreamState, m2: StreamState, m3: StreamState| A::parses(before, Ok::<A::Output, Error>(p.0), m1) && B::parses(m1, Ok::<B::Output, Error>(p.1), m2) && C::parses(m2, Ok::<C::Output, Error>(p.2), m3) && D::parses(m3, Ok::<D::Output, Error>(p.3), mid);
            assert(A::parses(before, Ok::<A::Output, Error>(p.0), m1) && B::parses(m1, Ok::<B::Output, Error>(p.1), m2) && C::parses(m2, Ok::<C::Output, Error>(p.2), m3) && D::parses(m3, Ok::<D::Output, Error>(p.3), mid) && E::parses(mid, Err::<E::Output, Error>(e), after));
        }
    }
}

/// A tuple of 6 parsers parses its parts one after the other: each part
/// parses from where the part before it left the stream, and the tuple gives
/// all their values; or it fails as the first part that fails, leaving the
/// stream where that part left it.
#[verifier::spinoff_prover]
pub proof fn law_tuple6_parses_in_turn<A: FromStream, B: FromStream, C: FromStream, D: FromStream, E: FromStream, F: FromStream>(before: StreamState, res: Result<<(A, B, C, D, E, F) as FromStream>::Output, Error>, after: StreamState)
    requires
        <(A, B, C, D, E, F) as FromStream>::parses(before, res, after),
    ensures
        res matches Ok(v) ==> exists|m1: StreamState, m2: StreamState, m3: StreamState, m4: StreamState, m5: StreamState|
            #![trigger A::parses(before, Ok::<A::Output, Error>(v.0), m1), B::parses(m1, Ok::<B::Output, Error>(v.1), m2), C::parses(m2, Ok::<C::Output, Error>(v.2), m3), D::parses(m3, Ok::<D::Output, Error>(v.3), m4), E::parses(m4, Ok::<E::Output, Error>(v.4), m5), F::parses(m5, Ok::<F::Output, Error>(v.5), after)]
            A::parses(before, Ok::<A::Output, Error>(v.0), m1) && B::parses(m1, Ok::<B::Output, Error>(v.1), m2) && C::parses(m2, Ok::<C::Output, Error>(v.2), m3) && D::parses(m3, Ok::<D::Output, Error>(v.3), m4) && E::parses(m4, Ok::<E::Output, Error>(v.4), m5) && F::parses(m5, Ok::<F::Output, Error>(v.5), after),
        res matches Err(e) ==>
            (A::parses(before, Err::<A::Output, Error>(e), after))
            || (exists|x0: A::Output, m1: StreamState|
                #![trigger A::parses(before, Ok::<A::Output, Error>(x0), m1), B::parses(m1, Err::<B::Output, Error>(e), after)]
                A::parses(before, Ok::<A::Output, Error>(x0), m1) && B::parses(m1, Err::<B::Output, Error>(e), after))
            || (exists|x0: A::Output, m1: StreamState, x1: B::Output, m2: StreamState|
                #![trigger A::parses(before, Ok::<A::Output, Error>(x0), m1), B::parses(m1, Ok::<B::Output, Error>(x1), m2), C::parses(m2, Err::<C::Output, Error>(e), after)]
                A::parses(before, Ok::<A::Output, Error>(x0), m1) && B::parses(m1, Ok::<B::Output, Error>(x1), m2) && C::parses(m2, Err::<C::Output, Error>(e), after))
            || (exists|x0: A::Output, m1: StreamState, x1: B::Output, m2: StreamState, x2: C::Output, m3: StreamState|
                #![trigger A::parses(before, Ok::<A::Output, Error>(x0), m1), B::parses(m1, Ok::<B::Output, Error>(x1), m2), C::parses(m2, Ok::<C::Output, Error>(x2), m3), D::parses(m3, Err::<D::Output, Error>(e), after)]
                A::parses(before, Ok::<A::Output, Error>(x0), m1) && B::parses(m1, Ok::<B::Output, Error>(x1), m2) && C::parses(m2, Ok::<C::Output, Error>(x2), m3) && D::parses(m3, Err::<D::Output, Error>(e), after))
            || (exists|x0: A::Output, m1: StreamState, x1: B::Output, m2: StreamState, x2: C::Output, m3: StreamState, x3: D::Output, m4: StreamState|
                #![trigger A::parses(before, Ok::<A::Output, Error>(x0), m1), B::parses(m1, Ok::<B::Output, Error>(x1), m2), C::parses(m2, Ok::<C::Output, Error>(x2), m3), D::parses(m3, Ok::<D::Output, Error>(x3), m4), E::parses(m4, Err::<E::Output, Error>(e), after)]
                A::parses(before, Ok::<A::Output, Error>(x0), m1) && B::parses(m1, Ok::<B::Output, Error>(x1), m2) && C::parses(m2, Ok::<C::Output, Error>(x2), m3) && D::parses(m3, Ok::<D::Output, Error>(x3), m4) && E::parses(m4, Err::<E::Output, Error>(e), after))
            || (exists|x0: A::Output, m1: StreamState, x1: B::Output, m2: StreamState, x2: C::Output, m3: StreamState, x3: D::Output, m4: StreamState, x4: E::Output, m5: StreamState|
                #![trigger A::parses(before, Ok::<A::Output, Error>(x0), m1), B::parses(m1, Ok::<B::Output, Error>(x1), m2), C::parses(m2, Ok::<C::Output, Error>(x2), m3), D::parses(m3, Ok::<D::Output, Error>(x3), m4), E::parses(m4, Ok::<E::Output, Error>(x4), m5), F::parses(m5, Err::<F::Output, Error>(e), after)]
                A::parses(before, Ok::<A::Output, Error>(x0), m1) && B::parses(m1, Ok::<B::Output, Error>(x1), m2) && C::parses(m2, Ok::<C::Output, Error>(x2), m3) && D::parses(m3, Ok::<D::Output, Error>(x3), m4) && E::parses(m4, Ok::<E::Output, Error>(x4), m5) && F::parses(m5, Err::<F::Output, Error>(e), after)),
{
    let (r, mid) = choose|r: Result<(A::Output, B::Output, C::Output, D::Output, E::Output), Error>, mid: StreamState|
        #[trigger] <(A, B, C, D, E) as FromStream>::parses(before, r, mid) && then_parses::<(A::Output, B::Output, C::Output, D::Output, E::Output), F, (A::Output, B::Output, C::Output, D::Output, E::Output, F::Output)>(
            r,
            mid,
            res,
            after,
            |p: (A::Output, B::Output, C::Output, D::Output, E::Output), l: F::Output| (p.0, p.1, p.2, p.3, p.4, l),
        );
    law_tuple5_parses_in_turn::<A, B, C, D, E>(before, r, mid);
    if let Ok(p) = r {
        let rl = choose|rl: Result<F::Output, Error>|
            #[trigger] F::parses(mid, rl, after) && match rl {
                Err(e) => res == Err::<(A::Output, B::Output, C::Output, D::Output, E::Output, F::Output), Error>(e),
                Ok(l) => res == Ok::<(A::Output, B::Output, C::Output, D::Output, E::Output, F::Output), Error>((|p: (A::Output, B::Output, C::Output, D::Output, E::Output), l: F::Output| (p.0, p.1, p.2, p.3, p.4, l))(p, l)),
            };
        if let Ok(l) = rl {
            let (m1, m2, m3, m4) = choose|m1: StreamState, m2: StreamState, m3: StreamState, m4: StreamState| A::parses(before, Ok::<A::Output, Error>(p.0), m1) && B::parses(m1, Ok::<B::Output, Error>(p.1), m2) && C::parses(m2, Ok::<C::Output, Error>(p.2), m3) && D::parses(m3, Ok::<D::Output, Error>(p.3), m4) && E::parses(m4, Ok::<E::Output, Error>(p.4), mid);
            if let Ok(v) = res {
                assert(v.0 == p.0 && v.1 == p.1 && v.2 == p.2 && v.3 == p.3 && v.4 == p.4 && v.5 == l);
                assert(A::parses(before, Ok::<A::Output, Error>(v.0), m1) && B::parses(m1, Ok::<B::Output, Error>(v.1), m2) && C::parses(m2, Ok::<C::Output, Error>(v.2), m3) && D::parses(m3, Ok::<D::Output, Error>(v.3), m4) && E::parses(m4, Ok::<E::Output, Error>(v.4), mid) && F::parses(mid, Ok::<F::Output, Error>(v.5), after));
            }
        }
        if let Err(e) = rl {
            let (m1, m2, m3, m4) = choose|m1: StreamState, m2: StreamState, m3: StreamState, m4: StreamState| A::parses(before, Ok::<A::Output, Error>(p.0), m1) && B::parses(m1, Ok::<B::Output, Error>(p.1), m2) && C::parses(m2, Ok::<C::Output, Error>(p.2), m3) && D::parses(m3, Ok::<D::Output, Error>(p.3), m4) && E::parses(m4, Ok::<E::Output, Error>(p.4), mid);
            assert(A::parses(before, Ok::<A::Output, Error>(p.0), m1) && B::parses(m1, Ok::<B::Output, Error>(p.1), m2) && C::parses(m2, Ok::<C::Output, Error>(p.2), m3) && D::parses(m3, Ok::<D::Output, Error>(p.3), m4) && E::parses(m4, Ok::<E::Output, Error>(p.4), mid) && F::parses(mid, Err::<F::Output, Error>(e), after));
        }
    }
}

/// A tuple of 7 parsers parses its parts one after the other: each part
/// parses from where the part before it left the stream, and the tuple gives
/// all their values; or it fails as the first part that fails, leaving the
/// stream where that part left it.
#[verifier::spinoff_prover]
pub proof fn law_tuple7_parses_in_turn<A: FromStream, B: FromStream, C: FromStream, D: FromStream, E: FromStream, F: FromStream, G: FromStream>(before: StreamState, res: Result<<(A, B, C, D, E, F, G) as FromStream>::Output, Error>, after: StreamState)
    requires
        <(A, B, C, D, E, F, G) as FromStream>::parses(before, res, after),
    ensures
        res matches Ok(v) ==> exists|m1: StreamState, m2: StreamState, m3: StreamState, m4: StreamState, m5: StreamState, m6: StreamState|
            #![trigger A::parses(before, Ok::<A::Output, Error>(v.0), m1), B::parses(m1, Ok::<B::Output, Error>(v.1), m2), C::parses(m2, Ok::<C::Output, Error>(v.2), m3), D::parses(m3, Ok::<D::Output, Error>(v.3), m4), E::parses(m4, Ok::<E::Output, Error>(v.4), m5), F::parses(m5, Ok::<F::Output, Error>(v.5), m6), G::parses(m6, Ok::<G::Output, Error>(v.6), after)]
            A::parses(before, Ok::<A::Output, Error>(v.0), m1) && B::parses(m1, Ok::<B::Output, Error>(v.1), m2) && C::parses(m2, Ok::<C::Output, Error>(v.2), m3) && D::parses(m3, Ok::<D::Output, Error>(v.3), m4) && E::parses(m4, Ok::<E::Output, Error>(v.4), m5) && F::parses(m5, Ok::<F::Output, Error>(v.5), m6) && G::parses(m6, Ok::<G::Output, Error>(v.6), after),
        res matches Err(e) ==>
            (A::parses(before, Err::<A::Output, Error>(e), after))
            || (exists|x0: A::Output, m1: StreamState|
                #![trigger A::parses(before, Ok::<A::Output, Error>(x0), m1), B::parses(m1, Err::<B::Output, Error>(e), after)]
                A::parses(before, Ok::<A::Output, Error>(x0), m1) && B::parses(m1, Err::<B::Output, Error>(e), after))
            || (exists|x0: A::Output, m1: StreamState, x1: B::Output, m2: StreamState|
                #![trigger A::parses(before, Ok::<A::Output, Error>(x0), m1), B::parses(m1, Ok::<B::Output, Error>(x1), m2), C::parses(m2, Err::<C::Output, Error>(e), after)]
                A::parses(before, Ok::<A::Output, Error>(x0), m1) && B::parses(m1, Ok::<B::Output, Error>(x1), m2) && C::parses(m2, Err::<C::Output, Error>(e), after))
            || (exists|x0: A::Output, m1: StreamState, x1: B::Output, m2: StreamState, x2: C::Output, m3: StreamState|
                #![trigger A::parses(before, Ok::<A::Output, Error>(x0), m1), B::parses(m1, Ok::<B::Output, Error>(x1), m2), C::parses(m2, Ok::<C::Output, Error>(x2), m3), D::parses(m3, Err::<D::Output, Error>(e), after)]
                A::parses(before, Ok::<A::Output, Error>(x0), m1) && B::parses(m1, Ok::<B::Output, Error>(x1), m2) && C::parses(m2, Ok::<C::Output, Error>(x2), m3) && D::parses(m3, Err::<D::Output, Error>(e), after))
            || (exists|x0: A::Output, m1: StreamState, x1: B::Output, m2: StreamState, x2: C::Output, m3: StreamState, x3: D::Output, m4: StreamState|
                #![trigger A::parses(before, Ok::<A::Output, Error>(x0), m1), B::parses(m1, Ok::<B::Output, Error>(x1), m2), C::parses(m2, Ok::<C::Output, Error>(x2), m3), D::parses(m3, Ok::<D::Output, Error>(x3), m4), E::parses(m4, Err::<E::Output, Error>(e), after)]
                A::parses(before, Ok::<A::Output, Error>(x0), m1) && B::parses(m1, Ok::<B::Output, Error>(x1), m2) && C::parses(m2, Ok::<C::Output, Error>(x2), m3) && D::parses(m3, Ok::<D::Output, Error>(x3), m4) && E::parses(m4, Err::<E::Output, Error>(e), after))
            || (exists|x0: A::Output, m1: StreamState, x1: B::Output, m2: StreamState, x2: C::Output, m3: StreamState, x3: D::Output, m4: StreamState, x4: E::Output, m5: StreamState|
                #![trigger A::parses(before, Ok::<A::Output, Error>(x0), m1), B::parses(m1, Ok::<B::Output, Error>(x1), m2), C::parses(m2, Ok::<C::Output, Error>(x2), m3), D::parses(m3, Ok::<D::Output, Error>(x3), m4), E::parses(m4, Ok::<E::Output, Error>(x4), m5), F::parses(m5, Err::<F::Output, Error>(e), after)]
                A::parses(before, Ok::<A::Output, Error>(x0), m1) && B::parses(m1, Ok::<B::Output, Error>(x1), m2) && C::parses(m2, Ok::<C::Output, Error>(x2), m3) && D::parses(m3, Ok::<D::Output, Error>(x3), m4) && E::parses(m4, Ok::<E::Output, Error>(x4), m5) && F::parses(m5, Err::<F::Output, Error>(e), after))
            || (exists|x0: A::Output, m1: StreamState, x1: B::Output, m2: StreamState, x2: C::Output, m3: StreamState, x3: D::Output, m4: StreamState, x4: E::Output, m5: StreamState, x5: F::Output, m6: StreamState|
                #![trigger A::parses(before, Ok::<A::Output, Error>(x0), m1), B::parses(m1, Ok::<B::Output, Error>(x1), m2), C::parses(m2, Ok::<C::Output, Error>(x2), m3), D::parses(m3, Ok::<D::Output, Error>(x3), m4), E::parses(m4, Ok::<E::Output, Error>(x4), m5), F::parses(m5, Ok::<F::Output, Error>(x5), m6), G::parses(m6, Err::<G::Output, Error>(e), after)]
                A::parses(before, Ok::<A::Output, Error>(x0), m1) && B::parses(m1, Ok::<B::Output, Error>(x1), m2) && C::parses(m2, Ok::<C::Output, Error>(x2), m3) && D::parses(m3, Ok::<D::Output, Error>(x3), m4) && E::parses(m4, Ok::<E::Output, Error>(x4), m5) && F::parses(m5, Ok::<F::Output, Error>(x5), m6) && G::parses(m6, Err::<G::Output, Error>(e), after)),
{
    let (r, mid) = choose|r: Result<(A::Output, B::Output, C::Output, D::Output, E::Output, F::Output), Error>, mid: StreamState|
        #[trigger] <(A, B, C, D, E, F) as FromStream>::parses(before, r, mid) && then_parses::<(A::Output, B::Output, C::Output, D::Output, E::Output, F::Output), G, (A::Output, B::Output, C::Output, D::Output, E::Output, F::Output, G::Output)>(
            r,
            mid,
            res,
            after,
            |p: (A::Output, B::Output, C::Output, D::Output, E::Output, F::Output), l: G::Output| (p.0, p.1, p.2, p.3, p.4, p.5, l),
        );
    law_tuple6_parses_in_turn::<A, B, C, D, E, F>(before, r, mid);
    if let Ok(p) = r {
        let rl = choose|rl: Result<G::Output, Error>|
            #[trigger] G::parses(mid, rl, after) && match rl {
                Err(e) => res == Err::<(A::Output, B::Output, C::Output, D::Output, E::Output, F::Output, G::Output), Error>(e),
                Ok(l) => res == Ok::<(A::Output, B::Output, C::Output, D::Output, E::Output, F::Output, G::Output), Error>((|p: (A::Output, B::Output, C::Output, D::Output, E::Output, F::Output), l: G::Output| (p.0, p.1, p.2, p.3, p.4, p.5, l))(p, l)),
            };
        if let Ok(l) = rl {
            let (m1, m2, m3, m4, m5) = choose|m1: StreamState, m2: StreamState, m3: StreamState, m4: StreamState, m5: StreamState| A::parses(before, Ok::<A::Output, Error>(p.0), m1) && B::parses(m1, Ok::<B::Output, Error>(p.1), m2) && C::parses(m2, Ok::<C::Output, Error>(p.2), m3) && D::parses(m3, Ok::<D::Output, Error>(p.3), m4) && E::parses(m4, Ok::<E::Output, Error>(p.4), m5) && F::parses(m5, Ok::<F::Output, Error>(p.5), mid);
            if let Ok(v) = res {
                assert(v.0 == p.0 && v.1 == p.1 && v.2 == p.2 && v.3 == p.3 && v.4 == p.4 && v.5 == p.5 && v.6 == l);
                assert(A::parses(before, Ok::<A::Output, Error>(v.0), m1) && B::parses(m1, Ok::<B::Output, Error>(v.1), m2) && C::parses(m2, Ok::<C::Output, Error>(v.2), m3) && D::parses(m3, Ok::<D::Output, Error>(v.3), m4) && E::parses(m4, Ok::<E::Output, Error>(v.4), m5) && F::parses(m5, Ok::<F::Output, Error>(v.5), mid) && G::parses(mid, Ok::<G::Output, Error>(v.6), after));
            }
        }
        if let Err(e) = rl {
            let (m1, m2, m3, m4, m5) = choose|m1: StreamState, m2: StreamState, m3: StreamState, m4: StreamState, m5: StreamState| A::parses(before, Ok::<A::Output, Error>(p.0), m1) && B::parses(m1, Ok::<B::Output, Error>(p.1), m2) && C::parses(m2, Ok::<C::Output, Error>(p.2), m3) && D::parses(m3, Ok::<D::Output, Error>(p.3), m4) && E::parses(m4, Ok::<E::Output, Error>(p.4), m5) && F::parses(m5, Ok::<F::Output, Error>(p.5), mid);
            assert(A::parses(before, Ok::<A::Output, Error>(p.0), m1) && B::parses(m1, Ok::<B::Output, Error>(p.1), m2) && C::parses(m2, Ok::<C::Output, Error>(p.2), m3) && D::parses(m3, Ok::<D::Output, Error>(p.3), m4) && E::parses(m4, Ok::<E::Output, Error>(p.4), m5) && F::parses(m5, Ok::<F::Output, Error>(p.5), mid) && G::parses(mid, Err::<G::Output, Error>(e), after));
        }
    }
}

/// A tuple of 8 parsers parses its parts one after the other: each part
/// parses from where the part before it left the stream, and the tuple gives
/// all their values; or it fails as the first part that fails, leaving the
/// stream where that part left it.
#[verifier::spinoff_prover]
pub proof fn law_tuple8_parses_in_turn<A: FromStream, B: FromStream, C: FromStream, D: FromStream, E: FromStream, F: FromStream, G: FromStream, H: FromStream>(before: StreamState, res: Result<<(A, B, C, D, E, F, G, H) as FromStream>::Output, Error>, after: StreamState)
    requires
        <(A, B, C, D, E, F, G, H) as FromStream>::parses(before, res, after),
    ensures
        res matches Ok(v) ==> exists|m1: StreamState, m2: StreamState, m3: StreamState, m4: StreamState, m5: StreamState, m6: StreamState, m7: StreamState|
            #![trigger A::parses(before, Ok::<A::Output, Error>(v.0), m1), B::parses(m1, Ok::<B::Output, Error>(v.1), m2), C::parses(m2, Ok::<C::Output, Error>(v.2), m3), D::parses(m3, Ok::<D::Output, Error>(v.3), m4), E::parses(m4, Ok::<E::Output, Error>(v.4), m5), F::parses(m5, Ok::<F::Output, Error>(v.5), m6), G::parses(m6, Ok::<G::Output, Error>(v.6), m7), H::parses(m7, Ok::<H::Output, Error>(v.7), after)]
            A::parses(before, Ok::<A::Output, Error>(v.0), m1) && B::parses(m1, Ok::<B::Output, Error>(v.1), m2) && C::parses(m2, Ok::<C::Output, Error>(v.2), m3) && D::parses(m3, Ok::<D::Output, Error>(v.3), m4) && E::parses(m4, Ok::<E::Output, Error>(v.4), m5) && F::parses(m5, Ok::<F::Output, Error>(v.5), m6) && G::parses(m6, Ok::<G::Output, Error>(v.6), m7) && H::parses(m7, Ok::<H::Output, Error>(v.7), after),
        res matches Err(e) ==>
            (A::parses(before, Err::<A::Output, Error>(e), after))
            || (exists|x0: A::Output, m1: StreamState|
                #![trigger A::parses(before, Ok::<A::Output, Error>(x0), m1), B::parses(m1, Err::<B::Output, Error>(e), after)]
                A::parses(before, Ok::<A::Output, Error>(x0), m1) && B::parses(m1, Err::<B::Output, Error>(e), after))
            || (exists|x0: A::Output, m1: StreamState, x1: B::Output, m2: StreamState|
                #![trigger A::parses(before, Ok::<A::Output, Error>(x0), m1), B::parses(m1, Ok::<B::Output, Error>(x1), m2), C::parses(m2, Err::<C::Output, Error>(e), after)]
                A::parses(before, Ok::<A::Output, Error>(x0), m1) && B::parses(m1, Ok::<B::Output, Error>(x1), m2) && C::parses(m2, Err::<C::Output, Error>(e), after))
            || (exists|x0: A::Output, m1: StreamState, x1: B::Output, m2: StreamState, x2: C::Output, m3: StreamState|
                #![trigger A::parses(before, Ok::<A::Output, Error>(x0), m1), B::parses(m1, Ok::<B::Output, Error>(x1), m2), C::parses(m2, Ok::<C::Output, Error>(x2), m3), D::parses(m3, Err::<D::Output, Error>(e), after)]
                A::parses(before, Ok::<A::Output, Error>(x0), m1) && B::parses(m1, Ok::<B::Output, Error>(x1), m2) && C::parses(m2, Ok::<C::Output, Error>(x2), m3) && D::parses(m3, Err::<D::Output, Error>(e), after))
            || (exists|x0: A::Output, m1: StreamState, x1: B::Output, m2: StreamState, x2: C::Output, m3: StreamState, x3: D::Output, m4: StreamState|
                #![trigger A::parses(before, Ok::<A::Output, Error>(x0), m1), B::parses(m1, Ok::<B::Output, Error>(x1), m2), C::parses(m2, Ok::<C::Output, Error>(x2), m3), D::parses(m3, Ok::<D::Output, Error>(x3), m4), E::parses(m4, Err::<E::Output, Error>(e), after)]
                A::parses(before, Ok::<A::Output, Error>(x0), m1) && B::parses(m1, Ok::<B::Output, Error>(x1), m2) && C::parses(m2, Ok::<C::Output, Error>(x2), m3) && D::parses(m3, Ok::<D::Output, Error>(x3), m4) && E::parses(m4, Err::<E::Output, Error>(e), after))
            || (exists|x0: A::Output, m1: StreamState, x1: B::Output, m2: StreamState, x2: C::Output, m3: StreamState, x3: D::Output, m4: StreamState, x4: E::Output, m5: StreamState|
                #![trigger A::parses(before, Ok::<A::Output, Error>(x0), m1), B::parses(m1, Ok::<B::Output, Error>(x1), m2), C::parses(m2, Ok::<C::Output, Error>(x2), m3), D::parses(m3, Ok::<D::Output, Error>(x3), m4), E::parses(m4, Ok::<E::Output, Error>(x4), m5), F::parses(m5, Err::<F::Output, Error>(e), after)]
                A::parses(before, Ok::<A::Output, Error>(x0), m1) && B::parses(m1, Ok::<B::Output, Error>(x1), m2) && C::parses(m2, Ok::<C::Output, Error>(x2), m3) && D::parses(m3, Ok::<D::Output, Error>(x3), m4) && E::parses(m4, Ok::<E::Output, Error>(x4), m5) && F::parses(m5, Err::<F::Output, Error>(e), after))
            || (exists|x0: A::Output, m1: StreamState, x1: B::Output, m2: StreamState, x2: C::Output, m3: StreamState, x3: D::Output, m4: StreamState, x4: E::Output, m5: StreamState, x5: F::Output, m6: StreamState|
                #![trigger A::parses(before, Ok::<A::Output, Error>(x0), m1), B::parses(m1, Ok::<B::Output, Error>(x1), m2), C::parses(m2, Ok::<C::Output, Error>(x2), m3), D::parses(m3, Ok::<D::Output, Error>(x3), m4), E::parses(m4, Ok::<E::Output, Error>(x4), m5), F::parses(m5, Ok::<F::Output, Error>(x5), m6), G::parses(m6, Err::<G::Output, Error>(e), after)]
                A::parses(before, Ok::<A::Output, Error>(x0), m1) && B::parses(m1, Ok::<B::Output, Error>(x1), m2) && C::parses(m2, Ok::<C::Output, Error>(x2), m3) && D::parses(m3, Ok::<D::Output, Error>(x3), m4) && E::parses(m4, Ok::<E::Output, Error>(x4), m5) && F::parses(m5, Ok::<F::Output, Error>(x5), m6) && G::parses(m6, Err::<G::Output, Error>(e), after))
            || (exists|x0: A::Output, m1: StreamState, x1: B::Output, m2: StreamState, x2: C::Output, m3: StreamState, x3: D::Output, m4: StreamState, x4: E::Output, m5: StreamState, x5: F::Output, m6: StreamState, x6: G::Output, m7: StreamState|
                #![trigger A::parses(before, Ok::<A::Output, Error>(x0), m1), B::parses(m1, Ok::<B::Output, Error>(x1), m2), C::parses(m2, Ok::<C::Output, Error>(x2), m3), D::parses(m3, Ok::<D::Output, Error>(x3), m4), E::parses(m4, Ok::<E::Output, Error>(x4), m5), F::parses(m5, Ok::<F::Output, Error>(x5), m6), G::parses(m6, Ok::<G::Output, Error>(x6), m7), H::parses(m7, Err::<H::Output, Error>(e), after)]
                A::parses(before, Ok::<A::Output, Error>(x0), m1) && B::parses(m1, Ok::<B::Output, Error>(x1), m2) && C::parses(m2, Ok::<C::Output, Error>(x2), m3) && D::parses(m3, Ok::<D::Output, Error>(x3), m4) && E::parses(m4, Ok::<E::Output, Error>(x4), m5) && F::parses(m5, Ok::<F::Output, Error>(x5), m6) && G::parses(m6, Ok::<G::Output, Error>(x6), m7) && H::parses(m7, Err::<H::Output, Error>(e), after)),
{
    let (r, mid) = choose|r: Result<(A::Output, B::Output, C::Output, D::Output, E::Output, F::Output, G::Output), Error>, mid: StreamState|
        #[trigger] <(A, B, C, D, E, F, G) as FromStream>::parses(before, r, mid) && then_parses::<(A::Output, B::Output, C::Output, D::Output, E::Output, F::Output, G::Output), H, (A::Output, B::Output, C::Output, D::Output, E::Output, F::Output, G::Output, H::Output)>(
            r,
            mid,
            res,
            after,
            |p: (A::Output, B::Output, C::Output, D::Output, E::Output, F::Output, G::Output), l: H::Output| (p.0, p.1, p.2, p.3, p.4, p.5, p.6, l),
        );
    law_tuple7_parses_in_turn::<A, B, C, D, E, F, G>(before, r, mid);
    if let Ok(p) = r {
        let rl = choose|rl: Result<H::Output, Error>|
            #[trigger] H::parses(mid, rl, after) && match rl {
                Err(e) => res == Err::<(A::Output, B::Output, C::Output, D::Output, E::Output, F::Output, G::Output, H::Output), Error>(e),
                Ok(l) => res == Ok::<(A::Output, B::Output, C::Output, D::Output, E::Output, F::Output, G::Output, H::Output), Error>((|p: (A::Output, B::Output, C::Output, D::Output, E::Output, F::Output, G::Output), l: H::Output| (p.0, p.1, p.2, p.3, p.4, p.5, p.6, l))(p, l)),
            };
        if let Ok(l) = rl {
            let (m1, m2, m3, m4, m5, m6) = choose|m1: StreamState, m2: StreamState, m3: StreamState, m4: StreamState, m5: StreamState, m6: StreamState| A::parses(before, Ok::<A::Output, Error>(p.0), m1) && B::parses(m1, Ok::<B::Output, Error>(p.1), m2) && C::parses(m2, Ok::<C::Output, Error>(p.2), m3) && D::parses(m3, Ok::<D::Output, Error>(p.3), m4) && E::parses(m4, Ok::<E::Output, Error>(p.4), m5) && F::parses(m5, Ok::<F::Output, Error>(p.5), m6) && G::parses(m6, Ok::<G::Output, Error>(p.6), mid);
            if let Ok(v) = res {
                assert(v.0 == p.0 && v.1 == p.1 && v.2 == p.2 && v.3 == p.3 && v.4 == p.4 && v.5 == p.5 && v.6 == p.6 && v.7 == l);
                assert(A::parses(before, Ok::<A::Output, Error>(v.0), m1) && B::parses(m1, Ok::<B::Output, Error>(v.1), m2) && C::parses(m2, Ok::<C::Output, Error>(v.2), m3) && D::parses(m3, Ok::<D::Output, Error>(v.3), m4) && E::parses(m4, Ok::<E::Output, Error>(v.4), m5) && F::parses(m5, Ok::<F::Output, Error>(v.5), m6) && G::parses(m6, Ok::<G::Output, Error>(v.6), mid) && H::parses(mid, Ok::<H::Output, Error>(v.7), after));
            }
        }
        if let Err(e) = rl {
            let (m1, m2, m3, m4, m5, m6) = choose|m1: StreamState, m2: StreamState, m3: StreamState, m4: StreamState, m5: StreamState, m6: StreamState| A::parses(before, Ok::<A::Output, Error>(p.0), m1) && B::parses(m1, Ok::<B::Output, Error>(p.1), m2) && C::parses(m2, Ok::<C::Output, Error>(p.2), m3) && D::parses(m3, Ok::<D::Output, Error>(p.3), m4) && E::parses(m4, Ok::<E::Output, Error>(p.4), m5) && F::parses(m5, Ok::<F::Output, Error>(p.5), m6) && G::parses(m6, Ok::<G::Output, Error>(p.6), mid);
            assert(A::parses(before, Ok::<A::Output, Error>(p.0), m1) && B::parses(m1, Ok::<B::Output, Error>(p.1), m2) && C::parses(m2, Ok::<C::Output, Error>(p.2), m3) && D::parses(m3, Ok::<D::Output, Error>(p.3), m4) && E::parses(m4, Ok::<E::Output, Error>(p.4), m5) && F::parses(m5, Ok::<F::Output, Error>(p.5), m6) && G::parses(m6, Ok::<G::Output, Error>(p.6), mid) && H::parses(mid, Err::<H::Output, Error>(e), after));
        }
    }
}

/// A tuple of 9 parsers parses its parts one after the other: each part
/// parses from where the part before it left the stream, and the tuple gives
/// all their values; or it fails as the first part that fails, leaving the
/// stream where that part left it.
#[verifier::spinoff_prover]
pub proof fn law_tuple9_parses_in_turn<A: FromStream, B: FromStream, C: FromStream, D: FromStream, E: FromStream, F: FromStream, G: FromStream, H: FromStream, I: FromStream>(before: StreamState, res: Result<<(A, B, C, D, E, F, G, H, I) as FromStream>::Output, Error>, after: StreamState)
    requires
        <(A, B, C, D, E, F, G, H, I) as FromStream>::parses(before, res, after),
    ensures
        res matches Ok(v) ==> exists|m1: StreamState, m2: StreamState, m3: StreamState, m4: StreamState, m5: StreamState, m6: StreamState, m7: StreamState, m8: StreamState|
            #![trigger A::parses(before, Ok::<A::Output, Error>(v.0), m1), B::parses(m1, Ok::<B::Output, Error>(v.1), m2), C::parses(m2, Ok::<C::Output, Error>(v.2), m3), D::parses(m3, Ok::<D::Output, Error>(v.3), m4), E::parses(m4, Ok::<E::Output, Error>(v.4), m5), F::parses(m5, Ok::<F::Output, Error>(v.5), m6), G::parses(m6, Ok::<G::Output, Error>(v.6), m7), H::parses(m7, Ok::<H::Output, Error>(v.7), m8), I::parses(m8, Ok::<I::Output, Error>(v.8), after)]
            A::parses(before, Ok::<A::Output, Error>(v.0), m1) && B::parses(m1, Ok::<B::Output, Error>(v.1), m2) && C::parses(m2, Ok::<C::Output, Error>(v.2), m3) && D::parses(m3, Ok::<D::Output, Error>(v.3), m4) && E::parses(m4, Ok::<E::Output, Error>(v.4), m5) && F::parses(m5, Ok::<F::Output, Error>(v.5), m6) && G::parses(m6, Ok::<G::Output, Error>(v.6), m7) && H::parses(m7, Ok::<H::Output, Error>(v.7), m8) && I::parses(m8, Ok::<I::Output, Error>(v.8), after),
        res matches Err(e) ==>
            (A::parses(before, Err::<A::Output, Error>(e), after))
            || (exists|x0: A::Output, m1: StreamState|
                #![trigger A::parses(before, Ok::<A::Output, Error>(x0), m1), B::parses(m1, Err::<B::Output, Error>(e), after)]
                A::parses(before, Ok::<A::Output, Error>(x0), m1) && B::parses(m1, Err::<B::Output, Error>(e), after))
            || (exists|x0: A::Output, m1: StreamState, x1: B::Output, m2: StreamState|
                #![trigger A::parses(before, Ok::<A::Output, Error>(x0), m1), B::parses(m1, Ok::<B::Output, Error>(x1), m2), C::parses(m2, Err::<C::Output, Error>(e), after)]
                A::parses(before, Ok::<A::Output, Error>(x0), m1) && B::parses(m1, Ok::<B::Output, Error>(x1), m2) && C::parses(m2, Err::<C::Output, Error>(e), after))
            || (exists|x0: A::Output, m1: StreamState, x1: B::Output, m2: StreamState, x2: C::Output, m3: StreamState|
                #![trigger A::parses(before, Ok::<A::Output, Error>(x0), m1), B::parses(m1, Ok::<B::Output, Error>(x1), m2), C::parses(m2, Ok::<C::Output, Error>(x2), m3), D::parses(m3, Err::<D::Output, Error>(e), after)]
                A::parses(before, Ok::<A::Output, Error>(x0), m1) && B::parses(m1, Ok::<B::Output, Error>(x1), m2) && C::parses(m2, Ok::<C::Output, Error>(x2), m3) && D::parses(m3, Err::<D::Output, Error>(e), after))
            || (exists|x0: A::Output, m1: StreamState, x1: B::Output, m2: StreamState, x2: C::Output, m3: StreamState, x3: D::Output, m4: StreamState|
                #![trigger A::parses(before, Ok::<A::Output, Error>(x0), m1), B::parses(m1, Ok::<B::Output, Error>(x1), m2), C::parses(m2, Ok::<C::Output, Error>(x2), m3), D::parses(m3, Ok::<D::Output, Error>(x3), m4), E::parses(m4, Err::<E::Output, Error>(e), after)]
                A::parses(before, Ok::<A::Output, Error>(x0), m1) && B::parses(m1, Ok::<B::Output, Error>(x1), m2) && C::parses(m2, Ok::<C::Output, Error>(x2), m3) && D::parses(m3, Ok::<D::Output, Error>(x3), m4) && E::parses(m4, Err::<E::Output, Error>(e), after))
            || (exists|x0: A::Output, m1: StreamState, x1: B::Output, m2: StreamState, x2: C::Output, m3: StreamState, x3: D::Output, m4: StreamState, x4: E::Output, m5: StreamState|
                #![trigger A::parses(before, Ok::<A::Output, Error>(x0), m1), B::parses(m1, Ok::<B::Output, Error>(x1), m2), C::parses(m2, Ok::<C::Output, Error>(x2), m3), D::parses(m3, Ok::<D::Output, Error>(x3), m4), E::parses(m4, Ok::<E::Output, Error>(x4), m5), F::parses(m5, Err::<F::Output, Error>(e), after)]
                A::parses(before, Ok::<A::Output, Error>(x0), m1) && B::parses(m1, Ok::<B::Output, Error>(x1), m2) && C::parses(m2, Ok::<C::Output, Error>(x2), m3) && D::parses(m3, Ok::<D::Output, Error>(x3), m4) && E::parses(m4, Ok::<E::Output, Error>(x4), m5) && F::parses(m5, Err::<F::Output, Error>(e), after))
            || (exists|x0: A::Output, m1: StreamState, x1: B::Output, m2: StreamState, x2: C::Output, m3: StreamState, x3: D::Output, m4: StreamState, x4: E::Output, m5: StreamState, x5: F::Output, m6: StreamState|
                #![trigger A::parses(before, Ok::<A::Output, Error>(x0), m1), B::parses(m1, Ok::<B::Output, Error>(x1), m2), C::parses(m2, Ok::<C::Output, Error>(x2), m3), D::parses(m3, Ok::<D::Output, Error>(x3), m4), E::parses(m4, Ok::<E::Output, Error>(x4), m5), F::parses(m5, Ok::<F::Output, Error>(x5), m6), G::parses(m6, Err::<G::Output, Error>(e), after)]
                A::parses(before, Ok::<A::Output, Error>(x0), m1) && B::parses(m1, Ok::<B::Output, Error>(x1), m2) && C::parses(m2, Ok::<C::Output, Error>(x2), m3) && D::parses(m3, Ok::<D::Output, Error>(x3), m4) && E::parses(m4, Ok::<E::Output, Error>(x4), m5) && F::parses(m5, Ok::<F::Output, Error>(x5), m6) && G::parses(m6, Err::<G::Output, Error>(e), after))
            || (exists|x0: A::Output, m1: StreamState, x1: B::Output, m2: StreamState, x2: C::Output, m3: StreamState, x3: D::Output, m4: StreamState, x4: E::Output, m5: StreamState, x5: F::Output, m6: StreamState, x6: G::Output, m7: StreamState|
                #![trigger A::parses(before, Ok::<A::Output, Error>(x0), m1), B::parses(m1, Ok::<B::Output, Error>(x1), m2), C::parses(m2, Ok::<C::Output, Error>(x2), m3), D::parses(m3, Ok::<D::Output, Error>(x3), m4), E::parses(m4, Ok::<E::Output, Error>(x4), m5), F::parses(m5, Ok::<F::Output, Error>(x5), m6), G::parses(m6, Ok::<G::Output, Error>(x6), m7), H::parses(m7, Err::<H::Output, Error>(e), after)]
                A::parses(before, Ok::<A::Output, Error>(x0), m1) && B::parses(m1, Ok::<B::Output, Error>(x1), m2) && C::parses(m2, Ok::<C::Output, Error>(x2), m3) && D::parses(m3, Ok::<D::Output, Error>(x3), m4) && E::parses(m4, Ok::<E::Output, Error>(x4), m5) && F::parses(m5, Ok::<F::Output, Error>(x5), m6) && G::parses(m6, Ok::<G::Output, Error>(x6), m7) && H::parses(m7, Err::<H::Output, Error>(e), after))
            || (exists|x0: A::Output, m1: StreamState, x1: B::Output, m2: StreamState, x2: C::Output, m3: StreamState, x3: D::Output, m4: StreamState, x4: E::Output, m5: StreamState, x5: F::Output, m6: StreamState, x6: G::Output, m7: StreamState, x7: H::Output, m8: StreamState|
                #![trigger A::parses(before, Ok::<A::Output, Error>(x0), m1), B::parses(m1, Ok::<B::Output, Error>(x1), m2), C::parses(m2, Ok::<C::Output, Error>(x2), m3), D::parses(m3, Ok::<D::Output, Error>(x3), m4), E::parses(m4, Ok::<E::Output, Error>(x4), m5), F::parses(m5, Ok::<F::Output, Error>(x5), m6), G::parses(m6, Ok::<G::Output, Error>(x6), m7), H::parses(m7, Ok::<H::Output, Error>(x7), m8), I::parses(m8, Err::<I::Output, Error>(e), after)]
                A::parses(before, Ok::<A::Output, Error>(x0), m1) && B::parses(m1, Ok::<B::Output, Error>(x1), m2) && C::parses(m2, Ok::<C::Output, Error>(x2), m3) && D::parses(m3, Ok::<D::Output, Error>(x3), m4) && E::parses(m4, Ok::<E::Output, Error>(x4), m5) && F::parses(m5, Ok::<F::Output, Error>(x5), m6) && G::parses(m6, Ok::<G::Output, Error>(x6), m7) && H::parses(m7, Ok::<H::Output, Error>(x7), m8) && I::parses(m8, Err::<I::Output, Error>(e), after)),
{
    let (r, mid) = choose|r: Result<(A::Output, B::Output, C::Output, D::Output, E::Output, F::Output, G::Output, H::Output), Error>, mid: StreamState|
        #[trigger] <(A, B, C, D, E, F, G, H) as FromStream>::parses(before, r, mid) && then_parses::<(A::Output, B::Output, C::Output, D::Output, E::Output, F::Output, G::Output, H::Output), I, (A::Output, B::Output, C::Output, D::Output, E::Output, F::Output, G::Output, H::Output, I::Output)>(
            r,
            mid,
            res,
            after,
            |p: (A::Output, B::Output, C::Output, D::Output, E::Output, F::Output, G::Output, H::Output), l: I::Output| (p.0, p.1, p.2, p.3, p.4, p.5, p.6, p.7, l),
        );
    law_tuple8_parses_in_turn::<A, B, C, D, E, F, G, H>(before, r, mid);
    if let Ok(p) = r {
        let rl = choose|rl: Result<I::Output, Error>|
            #[trigger] I::parses(mid, rl, after) && match rl {
                Err(e) => res == Err::<(A::Output, B::Output, C::Output, D::Output, E::Output, F::Output, G::Output, H::Output, I::Output), Error>(e),
                Ok(l) => res == Ok::<(A::Output, B::Output, C::Output, D::Output, E::Output, F::Output, G::Output, H::Output, I::Output), Error>((|p: (A::Output, B::Output, C::Output, D::Output, E::Output, F::Output, G::Output, H::Output), l: I::Output| (p.0, p.1, p.2, p.3, p.4, p.5, p.6, p.7, l))(p, l)),
            };
        if let Ok(l) = rl {
            let (m1, m2, m3, m4, m5, m6, m7) = choose|m1: StreamState, m2: StreamState, m3: StreamState, m4: StreamState, m5: StreamState, m6: StreamState, m7: StreamState| A::parses(before, Ok::<A::Output, Error>(p.0), m1) && B::parses(m1, Ok::<B::Output, Error>(p.1), m2) && C::parses(m2, Ok::<C::Output, Error>(p.2), m3) && D::parses(m3, Ok::<D::Output, Error>(p.3), m4) && E::parses(m4, Ok::<E::Output, Error>(p.4), m5) && F::parses(m5, Ok::<F::Output, Error>(p.5), m6) && G::parses(m6, Ok::<G::Output, Error>(p.6), m7) && H::parses(m7, Ok::<H::Output, Error>(p.7), mid);
            if let Ok(v) = res {
                assert(v.0 == p.0 && v.1 == p.1 && v.2 == p.2 && v.3 == p.3 && v.4 == p.4 && v.5 == p.5 && v.6 == p.6 && v.7 == p.7 && v.8 == l);
                assert(A::parses(before, Ok::<A::Output, Error>(v.0), m1) && B::parses(m1, Ok::<B::Output, Error>(v.1), m2) && C::parses(m2, Ok::<C::Output, Error>(v.2), m3) && D::parses(m3, Ok::<D::Output, Error>(v.3), m4) && E::parses(m4, Ok::<E::Output, Error>(v.4), m5) && F::parses(m5, Ok::<F::Output, Error>(v.5), m6) && G::parses(m6, Ok::<G::Output, Error>(v.6), m7) && H::parses(m7, Ok::<H::Output, Error>(v.7), mid) && I::parses(mid, Ok::<I::Output, Error>(v.8), after));
            }
        }
        if let Err(e) = rl {
            let (m1, m2, m3, m4, m5, m6, m7) = choose|m1: StreamState, m2: StreamState, m3: StreamState, m4: StreamState, m5: StreamState, m6: StreamState, m7: StreamState| A::parses(before, Ok::<A::Output, Error>(p.0), m1) && B::parses(m1, Ok::<B::Output, Error>(p.1), m2) && C::parses(m2, Ok::<C::Output, Error>(p.2), m3) && D::parses(m3, Ok::<D::Output, Error>(p.3), m4) && E::parses(m4, Ok::<E::Output, Error>(p.4), m5) && F::parses(m5, Ok::<F::Output, Error>(p.5), m6) && G::parses(m6, Ok::<G::Output, Error>(p.6), m7) && H::parses(m7, Ok::<H::Output, Error>(p.7), mid);
            assert(A::parses(before, Ok::<A::Output, Error>(p.0), m1) && B::parses(m1, Ok::<B::Output, Error>(p.1), m2) && C::parses(m2, Ok::<C::Output, Error>(p.2), m3) && D::parses(m3, Ok::<D::Output, Error>(p.3), m4) && E::parses(m4, Ok::<E::Output, Error>(p.4), m5) && F::parses(m5, Ok::<F::Output, Error>(p.5), m6) && G::parses(m6, Ok::<G::Output, Error>(p.6), m7) && H::parses(m7, Ok::<H::Output, Error>(p.7), mid) && I::parses(mid, Err::<I::Output, Error>(e), after));
        }
    }
}

/// A tuple of 10 parsers parses its parts one after the other: each part
/// parses from where the part before it left the stream, and the tuple gives
/// all their values; or it fails as the first part that fails, leaving the
/// stream where that part left it.
#[verifier::spinoff_prover]
pub proof fn law_tuple10_parses_in_turn<A: FromStream, B: FromStream, C: FromStream, D: FromStream, E: FromStream, F: FromStream, G: FromStream, H: FromStream, I: FromStream, J: FromStream>(before: StreamState, res: Result<<(A, B, C, D, E, F, G, H, I, J) as FromStream>::Output, Error>, after: StreamState)
    requires
        <(A, B, C, D, E, F, G, H, I, J) as FromStream>::parses(before, res, after),
    ensures
        res matches Ok(v) ==> exists|m1: StreamState, m2: StreamState, m3: StreamState, m4: StreamState, m5: StreamState, m6: StreamState, m7: StreamState, m8: StreamState, m9: StreamState|
            #![trigger A::parses(before, Ok::<A::Output, Error>(v.0), m1), B::parses(m1, Ok::<B::Output, Error>(v.1), m2), C::parses(m2, Ok::<C::Output, Error>(v.2), m3), D::parses(m3, Ok::<D::Output, Error>(v.3), m4), E::parses(m4, Ok::<E::Output, Error>(v.4), m5), F::parses(m5, Ok::<F::Output, Error>(v.5), m6), G::parses(m6, Ok::<G::Output, Error>(v.6), m7), H::parses(m7, Ok::<H::Output, Error>(v.7), m8), I::parses(m8, Ok::<I::Output, Error>(v.8), m9), J::parses(m9, Ok::<J::Output, Error>(v.9), after)]
            A::parses(before, Ok::<A::Output, Error>(v.0), m1) && B::parses(m1, Ok::<B::Output, Error>(v.1), m2) && C::parses(m2, Ok::<C::Output, Error>(v.2), m3) && D::parses(m3, Ok::<D::Output, Error>(v.3), m4) && E::parses(m4, Ok::<E::Output, Error>(v.4), m5) && F::parses(m5, Ok::<F::Output, Error>(v.5), m6) && G::parses(m6, Ok::<G::Output, Error>(v.6), m7) && H::parses(m7, Ok::<H::Output, Error>(v.7), m8) && I::parses(m8, Ok::<I::Output, Error>(v.8), m9) && J::parses(m9, Ok::<J::Output, Error>(v.9), after),
        res matches Err(e) ==>
            (A::parses(before, Err::<A::Output, Error>(e), after))
            || (exists|x0: A::Output, m1: StreamState|
                #![trigger A::parses(before, Ok::<A::Output, Error>(x0), m1), B::parses(m1, Err::<B::Output, Error>(e), after)]
                A::parses(before, Ok::<A::Output, Error>(x0), m1) && B::parses(m1, Err::<B::Output, Error>(e), after))
            || (exists|x0: A::Output, m1: StreamState, x1: B::Output, m2: StreamState|
                #![trigger A::parses(before, Ok::<A::Output, Error>(x0), m1), B::parses(m1, Ok::<B::Output, Error>(x1), m2), C::parses(m2, Err::<C::Output, Error>(e), after)]
                A::parses(before, Ok::<A::Output, Error>(x0), m1) && B::parses(m1, Ok::<B::Output, Error>(x1), m2) && C::parses(m2, Err::<C::Output, Error>(e), after))
            || (exists|x0: A::Output, m1: StreamState, x1: B::Output, m2: StreamState, x2: C::Output, m3: StreamState|
                #![trigger A::parses(before, Ok::<A::Output, Error>(x0), m1), B::parses(m1, Ok::<B::Output, Error>(x1), m2), C::parses(m2, Ok::<C::Output, Error>(x2), m3), D::parses(m3, Err::<D::Output, Error>(e), after)]
                A::parses(before, Ok::<A::Output, Error>(x0), m1) && B::parses(m1, Ok::<B::Output, Error>(x1), m2) && C::parses(m2, Ok::<C::Output, Error>(x2), m3) && D::parses(m3, Err::<D::Output, Error>(e), after))
            || (exists|x0: A::Output, m1: StreamState, x1: B::Output, m2: StreamState, x2: C::Output, m3: StreamState, x3: D::Output, m4: StreamState|
                #![trigger A::parses(before, Ok::<A::Output, Error>(x0), m1), B::parses(m1, Ok::<B::Output, Error>(x1), m2), C::parses(m2, Ok::<C::Output, Error>(x2), m3), D::parses(m3, Ok::<D::Output, Error>(x3), m4), E::parses(m4, Err::<E::Output, Error>(e), after)]
                A::parses(before, Ok::<A::Output, Error>(x0), m1) && B::parses(m1, Ok::<B::Output, Error>(x1), m2) && C::parses(m2, Ok::<C::Output, Error>(x2), m3) && D::parses(m3, Ok::<D::Output, Error>(x3), m4) && E::parses(m4, Err::<E::Output, Error>(e), after))
            || (exists|x0: A::Output, m1: StreamState, x1: B::Output, m2: StreamState, x2: C::Output, m3: StreamState, x3: D::Output, m4: StreamState, x4: E::Output, m5: StreamState|
                #![trigger A::parses(before, Ok::<A::Output, Error>(x0), m1), B::parses(m1, Ok::<B::Output, Error>(x1), m2), C::parses(m2, Ok::<C::Output, Error>(x2), m3), D::parses(m3, Ok::<D::Output, Error>(x3), m4), E::parses(m4, Ok::<E::Output, Error>(x4), m5), F::parses(m5, Err::<F::Output, Error>(e), after)]
                A::parses(before, Ok::<A::Output, Error>(x0), m1) && B::parses(m1, Ok::<B::Output, Error>(x1), m2) && C::parses(m2, Ok::<C::Output, Error>(x2), m3) && D::parses(m3, Ok::<D::Output, Error>(x3), m4) && E::parses(m4, Ok::<E::Output, Error>(x4), m5) && F::parses(m5, Err::<F::Output, Error>(e), after))
            || (exists|x0: A::Output, m1: StreamState, x1: B::Output, m2: StreamState, x2: C::Output, m3: StreamState, x3: D::Output, m4: StreamState, x4: E::Output, m5: StreamState, x5: F::Output, m6: StreamState|
                #![trigger A::parses(before, Ok::<A::Output, Error>(x0), m1), B::parses(m1, Ok::<B::Output, Error>(x1), m2), C::parses(m2, Ok::<C::Output, Error>(x2), m3), D::parses(m3, Ok::<D::Output, Error>(x3), m4), E::parses(m4, Ok::<E::Output, Error>(x4), m5), F::parses(m5, Ok::<F::Output, Error>(x5), m6), G::parses(m6, Err::<G::Output, Error>(e), after)]
                A::parses(before, Ok::<A::Output, Error>(x0), m1) && B::parses(m1, Ok::<B::Output, Error>(x1), m2) && C::parses(m2, Ok::<C::Output, Error>(x2), m3) && D::parses(m3, Ok::<D::Output, Error>(x3), m4) && E::parses(m4, Ok::<E::Output, Error>(x4), m5) && F::parses(m5, Ok::<F::Output, Error>(x5), m6) && G::parses(m6, Err::<G::Output, Error>(e), after))
            || (exists|x0: A::Output, m1: StreamState, x1: B::Output, m2: StreamState, x2: C::Output, m3: StreamState, x3: D::Output, m4: StreamState, x4: E::Output, m5: StreamState, x5: F::Output, m6: StreamState, x6: G::Output, m7: StreamState|
                #![trigger A::parses(before, Ok::<A::Output, Error>(x0), m1), B::parses(m1, Ok::<B::Output, Error>(x1), m2), C::parses(m2, Ok::<C::Output, Error>(x2), m3), D::parses(m3, Ok::<D::Output, Error>(x3), m4), E::parses(m4, Ok::<E::Output, Error>(x4), m5), F::parses(m5, Ok::<F::Output, Error>(x5), m6), G::parses(m6, Ok::<G::Output, Error>(x6), m7), H::parses(m7, Err::<H::Output, Error>(e), after)]
                A::parses(before, Ok::<A::Output, Error>(x0), m1) && B::parses(m1, Ok::<B::Output, Error>(x1), m2) && C::parses(m2, Ok::<C::Output, Error>(x2), m3) && D::parses(m3, Ok::<D::Output, Error>(x3), m4) && E::parses(m4, Ok::<E::Output, Error>(x4), m5) && F::parses(m5, Ok::<F::Output, Error>(x5), m6) && G::parses(m6, Ok::<G::Output, Error>(x6), m7) && H::parses(m7, Err::<H::Output, Error>(e), after))
            || (exists|x0: A::Output, m1: StreamState, x1: B::Output, m2: StreamState, x2: C::Output, m3: StreamState, x3: D::Output, m4: StreamState, x4: E::Output, m5: StreamState, x5: F::Output, m6: StreamState, x6: G::Output, m7: StreamState, x7: H::Output, m8: StreamState|
                #![trigger A::parses(before, Ok::<A::Output, Error>(x0), m1), B::parses(m1, Ok::<B::Output, Error>(x1), m2), C::parses(m2, Ok::<C::Output, Error>(x2), m3), D::parses(m3, Ok::<D::Output, Error>(x3), m4), E::parses(m4, Ok::<E::Output, Error>(x4), m5), F::parses(m5, Ok::<F::Output, Error>(x5), m6), G::parses(m6, Ok::<G::Output, Error>(x6), m7), H::parses(m7, Ok::<H::Output, Error>(x7), m8), I::parses(m8, Err::<I::Output, Error>(e), after)]
                A::parses(before, Ok::<A::Output, Error>(x0), m1) && B::parses(m1, Ok::<B::Output, Error>(x1), m2) && C::parses(m2, Ok::<C::Output, Error>(x2), m3) && D::parses(m3, Ok::<D::Output, Error>(x3), m4) && E::parses(m4, Ok::<E::Output, Error>(x4), m5) && F::parses(m5, Ok::<F::Output, Error>(x5), m6) && G::parses(m6, Ok::<G::Output, Error>(x6), m7) && H::parses(m7, Ok::<H::Output, Error>(x7), m8) && I::parses(m8, Err::<I::Output, Error>(e), after))
            || (exists|x0: A::Output, m1: StreamState, x1: B::Output, m2: StreamState, x2: C::Output, m3: StreamState, x3: D::Output, m4: StreamState, x4: E::Output, m5: StreamState, x5: F::Output, m6: StreamState, x6: G::Output, m7: StreamState, x7: H::Output, m8: StreamState, x8: I::Output, m9: StreamState|
                #![trigger A::parses(before, Ok::<A::Output, Error>(x0), m1), B::parses(m1, Ok::<B::Output, Error>(x1), m2), C::parses(m2, Ok::<C::Output, Error>(x2), m3), D::parses(m3, Ok::<D::Output, Error>(x3), m4), E::parses(m4, Ok::<E::Output, Error>(x4), m5), F::parses(m5, Ok::<F::Output, Error>(x5), m6), G::parses(m6, Ok::<G::Output, Error>(x6), m7), H::parses(m7, Ok::<H::Output, Error>(x7), m8), I::parses(m8, Ok::<I::Output, Error>(x8), m9), J::parses(m9, Err::<J::Output, Error>(e), after)]
                A::parses(before, Ok::<A::Output, Error>(x0), m1) && B::parses(m1, Ok::<B::Output, Error>(x1), m2) && C::parses(m2, Ok::<C::Output, Error>(x2), m3) && D::parses(m3, Ok::<D::Output, Error>(x3), m4) && E::parses(m4, Ok::<E::Output, Error>(x4), m5) && F::parses(m5, Ok::<F::Output, Error>(x5), m6) && G::parses(m6, Ok::<G::Output, Error>(x6), m7) && H::parses(m7, Ok::<H::Output, Error>(x7), m8) && I::parses(m8, Ok::<I::Output, Error>(x8), m9) && J::parses(m9, Err::<J::Output, Error>(e), after)),
{
    let (r, mid) = choose|r: Result<(A::Output, B::Output, C::Output, D::Output, E::Output, F::Output, G::Output, H::Output, I::Output), Error>, mid: StreamState|
        #[trigger] <(A, B, C, D, E, F, G, H, I) as FromStream>::parses(before, r, mid) && then_parses::<(A::Output, B::Output, C::Output, D::Output, E::Output, F::Output, G::Output, H::Output, I::Output), J, (A::Output, B::Output, C::Output, D::Output, E::Output, F::Output, G::Output, H::Output, I::Output, J::Output)>(
            r,
            mid,
            res,
            after,
            |p: (A::Output, B::Output, C::Output, D::Output, E::Output, F::Output, G::Output, H::Output, I::Output), l: J::Output| (p.0, p.1, p.2, p.3, p.4, p.5, p.6, p.7, p.8, l),
        );
    law_tuple9_parses_in_turn::<A, B, C, D, E, F, G, H, I>(before, r, mid);
    if let Ok(p) = r {
        let rl = choose|rl: Result<J::Output, Error>|
            #[trigger] J::parses(mid, rl, after) && match rl {
                Err(e) => res == Err::<(A::Output, B::Output, C::Output, D::Output, E::Output, F::Output, G::Output, H::Output, I::Output, J::Output), Error>(e),
                Ok(l) => res == Ok::<(A::Output, B::Output, C::Output, D::Output, E::Output, F::Output, G::Output, H::Output, I::Output, J::Output), Error>((|p: (A::Output, B::Output, C::Output, D::Output, E::Output, F::Output, G::Output, H::Output, I::Output), l: J::Output| (p.0, p.1, p.2, p.3, p.4, p.5, p.6, p.7, p.8, l))(p, l)),
            };
        if let Ok(l) = rl {
            let (m1, m2, m3, m4, m5, m6, m7, m8) = choose|m1: StreamState, m2: StreamState, m3: StreamState, m4: StreamState, m5: StreamState, m6: StreamState, m7: StreamState, m8: StreamState| A::parses(before, Ok::<A::Output, Error>(p.0), m1) && B::parses(m1, Ok::<B::Output, Error>(p.1), m2) && C::parses(m2, Ok::<C::Output, Error>(p.2), m3) && D::parses(m3, Ok::<D::Output, Error>(p.3), m4) && E::parses(m4, Ok::<E::Output, Error>(p.4), m5) && F::parses(m5, Ok::<F::Output, Error>(p.5), m6) && G::parses(m6, Ok::<G::Output, Error>(p.6), m7) && H::parses(m7, Ok::<H::Output, Error>(p.7), m8) && I::parses(m8, Ok::<I::Output, Error>(p.8), mid);
            if let Ok(v) = res {
                assert(v.0 == p.0 && v.1 == p.1 && v.2 == p.2 && v.3 == p.3 && v.4 == p.4 && v.5 == p.5 && v.6 == p.6 && v.7 == p.7 && v.8 == p.8 && v.9 == l);
                assert(A::parses(before, Ok::<A::Output, Error>(v.0), m1) && B::parses(m1, Ok::<B::Output, Error>(v.1), m2) && C::parses(m2, Ok::<C::Output, Error>(v.2), m3) && D::parses(m3, Ok::<D::Output, Error>(v.3), m4) && E::parses(m4, Ok::<E::Output, Error>(v.4), m5) && F::parses(m5, Ok::<F::Output, Error>(v.5), m6) && G::parses(m6, Ok::<G::Output, Error>(v.6), m7) && H::parses(m7, Ok::<H::Output, Error>(v.7), m8) && I::parses(m8, Ok::<I::Output, Error>(v.8), mid) && J::parses(mid, Ok::<J::Output, Error>(v.9), after));
            }
        }
        if let Err(e) = rl {
            let (m1, m2, m3, m4, m5, m6, m7, m8) = choose|m1: StreamState, m2: StreamState, m3: StreamState, m4: StreamState, m5: StreamState, m6: StreamState, m7: StreamState, m8: StreamState| A::parses(before, Ok::<A::Output, Error>(p.0), m1) && B::parses(m1, Ok::<B::Output, Error>(p.1), m2) && C::parses(m2, Ok::<C::Output, Error>(p.2), m3) && D::parses(m3, Ok::<D::Output, Error>(p.3), m4) && E::parses(m4, Ok::<E::Output, Error>(p.4), m5) && F::parses(m5, Ok::<F::Output, Error>(p.5), m6) && G::parses(m6, Ok::<G::Output, Error>(p.6), m7) && H::parses(m7, Ok::<H::Output, Error>(p.7), m8) && I::parses(m8, Ok::<I::Output, Error>(p.8), mid);
            assert(A::parses(before, Ok::<A::Output, Error>(p.0), m1) && B::parses(m1, Ok::<B::Output, Error>(p.1), m2) && C::parses(m2, Ok::<C::Output, Error>(p.2), m3) && D::parses(m3, Ok::<D::Output, Error>(p.3), m4) && E::parses(m4, Ok::<E::Output, Error>(p.4), m5) && F::parses(m5, Ok::<F::Output, Error>(p.5), m6) && G::parses(m6, Ok::<G::Output, Error>(p.6), m7) && H::parses(m7, Ok::<H::Output, Error>(p.7), m8) && I::parses(m8, Ok::<I::Output, Error>(p.8), mid) && J::parses(mid, Err::<J::Output, Error>(e), after));
        }
    }
}

/// A tuple of 11 parsers parses its parts one after the other: each part
/// parses from where the part before it left the stream, and the tuple gives
/// all their values; or it fails as the first part that fails, leaving the
/// stream where that part left it.
#[verifier::spinoff_prover]
pub proof fn law_tuple11_parses_in_turn<A: FromStream, B: FromStream, C: FromStream, D: FromStream, E: FromStream, F: FromStream, G: FromStream, H: FromStream, I: FromStream, J: FromStream, K: FromStream>(before: StreamState, res: Result<<(A, B, C, D, E, F, G, H, I, J, K) as FromStream>::Output, Error>, after: StreamState)
    requires
        <(A, B, C, D, E, F, G, H, I, J, K) as FromStream>::parses(before, res, after),
    ensures
        res matches Ok(v) ==> exists|m1: StreamState, m2: StreamState, m3: StreamState, m4: StreamState, m5: StreamState, m6: StreamState, m7: StreamState, m8: StreamState, m9: StreamState, m10: StreamState|
            #![trigger A::parses(before, Ok::<A::Output, Error>(v.0), m1), B::parses(m1, Ok::<B::Output, Error>(v.1), m2), C::parses(m2, Ok::<C::Output, Error>(v.2), m3), D::parses(m3, Ok::<D::Output, Error>(v.3), m4), E::parses(m4, Ok::<E::Output, Error>(v.4), m5), F::parses(m5, Ok::<F::Output, Error>(v.5), m6), G::parses(m6, Ok::<G::Output, Error>(v.6), m7), H::parses(m7, Ok::<H::Output, Error>(v.7), m8), I::parses(m8, Ok::<I::Output, Error>(v.8), m9), J::parses(m9, Ok::<J::Output, Error>(v.9), m10), K::parses(m10, Ok::<K::Output, Error>(v.10), after)]
            A::parses(before, Ok::<A::Output, Error>(v.0), m1) && B::parses(m1, Ok::<B::Output, Error>(v.1), m2) && C::parses(m2, Ok::<C::Output, Error>(v.2), m3) && D::parses(m3, Ok::<D::Output, Error>(v.3), m4) && E::parses(m4, Ok::<E::Output, Error>(v.4), m5) && F::parses(m5, Ok::<F::Output, Error>(v.5), m6) && G::parses(m6, Ok::<G::Output, Error>(v.6), m7) && H::parses(m7, Ok::<H::Output, Error>(v.7), m8) && I::parses(m8, Ok::<I::Output, Error>(v.8), m9) && J::parses(m9, Ok::<J::Output, Error>(v.9), m10) && K::parses(m10, Ok::<K::Output, Error>(v.10), after),
        res matches Err(e) ==>
            (A::parses(before, Err::<A::Output, Error>(e), after))
            || (exists|x0: A::Output, m1: StreamState|
                #![trigger A::parses(before, Ok::<A::Output, Error>(x0), m1), B::parses(m1, Err::<B::Output, Error>(e), after)]
                A::parses(before, Ok::<A::Output, Error>(x0), m1) && B::parses(m1, Err::<B::Output, Error>(e), after))
            || (exists|x0: A::Output, m1: StreamState, x1: B::Output, m2: StreamState|
                #![trigger A::parses(before, Ok::<A::Output, Error>(x0), m1), B::parses(m1, Ok::<B::Output, Error>(x1), m2), C::parses(m2, Err::<C::Output, Error>(e), after)]
                A::parses(before, Ok::<A::Output, Error>(x0), m1) && B::parses(m1, Ok::<B::Output, Error>(x1), m2) && C::parses(m2, Err::<C::Output, Error>(e), after))
            || (exists|x0: A::Output, m1: StreamState, x1: B::Output, m2: StreamState, x2: C::Output, m3: StreamState|
                #![trigger A::parses(before, Ok::<A::Output, Error>(x0), m1), B::parses(m1, Ok::<B::Output, Error>(x1), m2), C::parses(m2, Ok::<C::Output, Error>(x2), m3), D::parses(m3, Err::<D::Output, Error>(e), after)]
                A::parses(before, Ok::<A::Output, Error>(x0), m1) && B::parses(m1, Ok::<B::Output, Error>(x1), m2) && C::parses(m2, Ok::<C::Output, Error>(x2), m3) && D::parses(m3, Err::<D::Output, Error>(e), after))
            || (exists|x0: A::Output, m1: StreamState, x1: B::Output, m2: StreamState, x2: C::Output, m3: StreamState, x3: D::Output, m4: StreamState|
                #![trigger A::parses(before, Ok::<A::Output, Error>(x0), m1), B::parses(m1, Ok::<B::Output, Error>(x1), m2), C::parses(m2, Ok::<C::Output, Error>(x2), m3), D::parses(m3, Ok::<D::Output, Error>(x3), m4), E::parses(m4, Err::<E::Output, Error>(e), after)]
                A::parses(before, Ok::<A::Output, Error>(x0), m1) && B::parses(m1, Ok::<B::Output, Error>(x1), m2) && C::parses(m2, Ok::<C::Output, Error>(x2), m3) && D::parses(m3, Ok::<D::Output, Error>(x3), m4) && E::parses(m4, Err::<E::Output, Error>(e), after))
            || (exists|x0: A::Output, m1: StreamState, x1: B::Output, m2: StreamState, x2: C::Output, m3: StreamState, x3: D::Output, m4: StreamState, x4: E::Output, m5: StreamState|
                #![trigger A::parses(before, Ok::<A::Output, Error>(x0), m1), B::parses(m1, Ok::<B::Output, Error>(x1), m2), C::parses(m2, Ok::<C::Output, Error>(x2), m3), D::parses(m3, Ok::<D::Output, Error>(x3), m4), E::parses(m4, Ok::<E::Output, Error>(x4), m5), F::parses(m5, Err::<F::Output, Error>(e), after)]
                A::parses(before, Ok::<A::Output, Error>(x0), m1) && B::parses(m1, Ok::<B::Output, Error>(x1), m2) && C::parses(m2, Ok::<C::Output, Error>(x2), m3) && D::parses(m3, Ok::<D::Output, Error>(x3), m4) && E::parses(m4, Ok::<E::Output, Error>(x4), m5) && F::parses(m5, Err::<F::Output, Error>(e), after))
            || (exists|x0: A::Output, m1: StreamState, x1: B::Output, m2: StreamState, x2: C::Output, m3: StreamState, x3: D::Output, m4: StreamState, x4: E::Output, m5: StreamState, x5: F::Output, m6: StreamState|
                #![trigger A::parses(before, Ok::<A::Output, Error>(x0), m1), B::parses(m1, Ok::<B::Output, Error>(x1), m2), C::parses(m2, Ok::<C::Output, Error>(x2), m3), D::parses(m3, Ok::<D::Output, Error>(x3), m4), E::parses(m4, Ok::<E::Output, Error>(x4), m5), F::parses(m5, Ok::<F::Output, Error>(x5), m6), G::parses(m6, Err::<G::Output, Error>(e), after)]
                A::parses(before, Ok::<A::Output, Error>(x0), m1) && B::parses(m1, Ok::<B::Output, Error>(x1), m2) && C::parses(m2, Ok::<C::Output, Error>(x2), m3) && D::parses(m3, Ok::<D::Output, Error>(x3), m4) && E::parses(m4, Ok::<E::Output, Error>(x4), m5) && F::parses(m5, Ok::<F::Output, Error>(x5), m6) && G::parses(m6, Err::<G::Output, Error>(e), after))
            || (exists|x0: A::Output, m1: StreamState, x1: B::Output, m2: StreamState, x2: C::Output, m3: StreamState, x3: D::Output, m4: StreamState, x4: E::Output, m5: StreamState, x5: F::Output, m6: StreamState, x6: G::Output, m7: StreamState|
                #![trigger A::parses(before, Ok::<A::Output, Error>(x0), m1), B::parses(m1, Ok::<B::Output, Error>(x1), m2), C::parses(m2, Ok::<C::Output, Error>(x2), m3), D::parses(m3, Ok::<D::Output, Error>(x3), m4), E::parses(m4, Ok::<E::Output, Error>(x4), m5), F::parses(m5, Ok::<F::Output, Error>(x5), m6), G::parses(m6, Ok::<G::Output, Error>(x6), m7), H::parses(m7, Err::<H::Output, Error>(e), after)]
                A::parses(before, Ok::<A::Output, Error>(x0), m1) && B::parses(m1, Ok::<B::Output, Error>(x1), m2) && C::parses(m2, Ok::<C::Output, Error>(x2), m3) && D::parses(m3, Ok::<D::Output, Error>(x3), m4) && E::parses(m4, Ok::<E::Output, Error>(x4), m5) && F::parses(m5, Ok::<F::Output, Error>(x5), m6) && G::parses(m6, Ok::<G::Output, Error>(x6), m7) && H::parses(m7, Err::<H::Output, Error>(e), after))
            || (exists|x0: A::Output, m1: StreamState, x1: B::Output, m2: StreamState, x2: C::Output, m3: StreamState, x3: D::Output, m4: StreamState, x4: E::Output, m5: StreamState, x5: F::Output, m6: StreamState, x6: G::Output, m7: StreamState, x7: H::Output, m8: StreamState|
                #![trigger A::parses(before, Ok::<A::Output, Error>(x0), m1), B::parses(m1, Ok::<B::Output, Error>(x1), m2), C::parses(m2, Ok::<C::Output, Error>(x2), m3), D::parses(m3, Ok::<D::Output, Error>(x3), m4), E::parses(m4, Ok::<E::Output, Error>(x4), m5), F::parses(m5, Ok::<F::Output, Error>(x5), m6), G::parses(m6, Ok::<G::Output, Error>(x6), m7), H::parses(m7, Ok::<H::Output, Error>(x7), m8), I::parses(m8, Err::<I::Output, Error>(e), after)]
                A::parses(before, Ok::<A::Output, Error>(x0), m1) && B::parses(m1, Ok::<B::Output, Error>(x1), m2) && C::parses(m2, Ok::<C::Output, Error>(x2), m3) && D::parses(m3, Ok::<D::Output, Error>(x3), m4) && E::parses(m4, Ok::<E::Output, Error>(x4), m5) && F::parses(m5, Ok::<F::Output, Error>(x5), m6) && G::parses(m6, Ok::<G::Output, Error>(x6), m7) && H::parses(m7, Ok::<H::Output, Error>(x7), m8) && I::parses(m8, Err::<I::Output, Error>(e), after))
            || (exists|x0: A::Output, m1: StreamState, x1: B::Output, m2: StreamState, x2: C::Output, m3: StreamState, x3: D::Output, m4: StreamState, x4: E::Output, m5: StreamState, x5: F::Output, m6: StreamState, x6: G::Output, m7: StreamState, x7: H::Output, m8: StreamState, x8: I::Output, m9: StreamState|
                #![trigger A::parses(before, Ok::<A::Output, Error>(x0), m1), B::parses(m1, Ok::<B::Output, Error>(x1), m2), C::parses(m2, Ok::<C::Output, Error>(x2), m3), D::parses(m3, Ok::<D::Output, Error>(x3), m4), E::parses(m4, Ok::<E::Output, Error>(x4), m5), F::parses(m5, Ok::<F::Output, Error>(x5), m6), G::parses(m6, Ok::<G::Output, Error>(x6), m7), H::parses(m7, Ok::<H::Output, Error>(x7), m8), I::parses(m8, Ok::<I::Output, Error>(x8), m9), J::parses(m9, Err::<J::Output, Error>(e), after)]
                A::parses(before, Ok::<A::Output, Error>(x0), m1) && B::parses(m1, Ok::<B::Output, Error>(x1), m2) && C::parses(m2, Ok::<C::Output, Error>(x2), m3) && D::parses(m3, Ok::<D::Output, Error>(x3), m4) && E::parses(m4, Ok::<E::Output, Error>(x4), m5) && F::parses(m5, Ok::<F::Output, Error>(x5), m6) && G::parses(m6, Ok::<G::Output, Error>(x6), m7) && H::parses(m7, Ok::<H::Output, Error>(x7), m8) && I::parses(m8, Ok::<I::Output, Error>(x8), m9) && J::parses(m9, Err::<J::Output, Error>(e), after))
            || (exists|x0: A::Output, m1: StreamState, x1: B::Output, m2: StreamState, x2: C::Output, m3: StreamState, x3: D::Output, m4: StreamState, x4: E::Output, m5: StreamState, x5: F::Output, m6: StreamState, x6: G::Output, m7: StreamState, x7: H::Output, m8: StreamState, x8: I::Output, m9: StreamState, x9: J::Output, m10: StreamState|
                #![trigger A::parses(before, Ok::<A::Output, Error>(x0), m1), B::parses(m1, Ok::<B::Output, Error>(x1), m2), C::parses(m2, Ok::<C::Output, Error>(x2), m3), D::parses(m3, Ok::<D::Output, Error>(x3), m4), E::parses(m4, Ok::<E::Output, Error>(x4), m5), F::parses(m5, Ok::<F::Output, Error>(x5), m6), G::parses(m6, Ok::<G::Output, Error>(x6), m7), H::parses(m7, Ok::<H::Output, Error>(x7), m8), I::parses(m8, Ok::<I::Output, Error>(x8), m9), J::parses(m9, Ok::<J::Output, Error>(x9), m10), K::parses(m10, Err::<K::Output, Error>(e), after)]
                A::parses(before, Ok::<A::Output, Error>(x0), m1) && B::parses(m1, Ok::<B::Output, Error>(x1), m2) && C::parses(m2, Ok::<C::Output, Error>(x2), m3) && D::parses(m3, Ok::<D::Output, Error>(x3), m4) && E::parses(m4, Ok::<E::Output, Error>(x4), m5) && F::parses(m5, Ok::<F::Output, Error>(x5), m6) && G::parses(m6, Ok::<G::Output, Error>(x6), m7) && H::parses(m7, Ok::<H::Output, Error>(x7), m8) && I::parses(m8, Ok::<I::Output, Error>(x8), m9) && J::parses(m9, Ok::<J::Output, Error>(x9), m10) && K::parses(m10, Err::<K::Output, Error>(e), after)),
{
    let (r, mid) = choose|r: Result<(A::Output, B::Output, C::Output, D::Output, E::Output, F::Output, G::Output, H::Output, I::Output, J::Output), Error>, mid: StreamState|
        #[trigger] <(A, B, C, D, E, F, G, H, I, J) as FromStream>::parses(before, r, mid) && then_parses::<(A::Output, B::Output, C::Output, D::Output, E::Output, F::Output, G::Output, H::Output, I::Output, J::Output), K, (A::Output, B::Output, C::Output, D::Output, E::Output, F::Output, G::Output, H::Output, I::Output, J::Output, K::Output)>(
            r,
            mid,
            res,
            after,
            |p: (A::Output, B::Output, C::Output, D::Output, E::Output, F::Output, G::Output, H::Output, I::Output, J::Output), l: K::Output| (p.0, p.1, p.2, p.3, p.4, p.5, p.6, p.7, p.8, p.9, l),
        );
    law_tuple10_parses_in_turn::<A, B, C, D, E, F, G, H, I, J>(before, r, mid);
    if let Ok(p) = r {
        let rl = choose|rl: Result<K::Output, Error>|
            #[trigger] K::parses(mid, rl, after) && match rl {
                Err(e) => res == Err::<(A::Output, B::Output, C::Output, D::Output, E::Output, F::Output, G::Output, H::Output, I::Output, J::Output, K::Output), Error>(e),
                Ok(l) => res == Ok::<(A::Output, B::Output, C::Output, D::Output, E::Output, F::Output, G::Output, H::Output, I::Output, J::Output, K::Output), Error>((|p: (A::Output, B::Output, C::Output, D::Output, E::Output, F::Output, G::Output, H::Output, I::Output, J::Output), l: K::Output| (p.0, p.1, p.2, p.3, p.4, p.5, p.6, p.7, p.8, p.9, l))(p, l)),
            };
        if let Ok(l) = rl {
            let (m1, m2, m3, m4, m5, m6, m7, m8, m9) = choose|m1: StreamState, m2: StreamState, m3: StreamState, m4: StreamState, m5: StreamState, m6: StreamState, m7: StreamState, m8: StreamState, m9: StreamState| A::parses(before, Ok::<A::Output, Error>(p.0), m1) && B::parses(m1, Ok::<B::Output, Error>(p.1), m2) && C::parses(m2, Ok::<C::Output, Error>(p.2), m3) && D::parses(m3, Ok::<D::Output, Error>(p.3), m4) && E::parses(m4, Ok::<E::Output, Error>(p.4), m5) && F::parses(m5, Ok::<F::Output, Error>(p.5), m6) && G::parses(m6, Ok::<G::Output, Error>(p.6), m7) && H::parses(m7, Ok::<H::Output, Error>(p.7), m8) && I::parses(m8, Ok::<I::Output, Error>(p.8), m9) && J::parses(m9, Ok::<J::Output, Error>(p.9), mid);
            if let Ok(v) = res {
                assert(v.0 == p.0 && v.1 == p.1 && v.2 == p.2 && v.3 == p.3 && v.4 == p.4 && v.5 == p.5 && v.6 == p.6 && v.7 == p.7 && v.8 == p.8 && v.9 == p.9 && v.10 == l);
                assert(A::parses(before, Ok::<A::Output, Error>(v.0), m1) && B::parses(m1, Ok::<B::Output, Error>(v.1), m2) && C::parses(m2, Ok::<C::Output, Error>(v.2), m3) && D::parses(m3, Ok::<D::Output, Error>(v.3), m4) && E::parses(m4, Ok::<E::Output, Error>(v.4), m5) && F::parses(m5, Ok::<F::Output, Error>(v.5), m6) && G::parses(m6, Ok::<G::Output, Error>(v.6), m7) && H::parses(m7, Ok::<H::Output, Error>(v.7), m8) && I::parses(m8, Ok::<I::Output, Error>(v.8), m9) && J::parses(m9, Ok::<J::Output, Error>(v.9), mid) && K::parses(mid, Ok::<K::Output, Error>(v.10), after));
            }
        }
        if let Err(e) = rl {
            let (m1, m2, m3, m4, m5, m6, m7, m8, m9) = choose|m1: StreamState, m2: StreamState, m3: StreamState, m4: StreamState, m5: StreamState, m6: StreamState, m7: StreamState, m8: StreamState, m9: StreamState| A::parses(before, Ok::<A::Output, Error>(p.0), m1) && B::parses(m1, Ok::<B::Output, Error>(p.1), m2) && C::parses(m2, Ok::<C::Output, Error>(p.2), m3) && D::parses(m3, Ok::<D::Output, Error>(p.3), m4) && E::parses(m4, Ok::<E::Output, Error>(p.4), m5) && F::parses(m5, Ok::<F::Output, Error>(p.5), m6) && G::parses(m6, Ok::<G::Output, Error>(p.6), m7) && H::parses(m7, Ok::<H::Output, Error>(p.7), m8) && I::parses(m8, Ok::<I::Output, Error>(p.8), m9) && J::parses(m9, Ok::<J::Output, Error>(p.9), mid);
            assert(A::parses(before, Ok::<A::Output, Error>(p.0), m1) && B::parses(m1, Ok::<B::Output, Error>(p.1), m2) && C::parses(m2, Ok::<C::Output, Error>(p.2), m3) && D::parses(m3, Ok::<D::Output, Error>(p.3), m4) && E::parses(m4, Ok::<E::Output, Error>(p.4), m5) && F::parses(m5, Ok::<F::Output, Error>(p.5), m6) && G::parses(m6, Ok::<G::Output, Error>(p.6), m7) && H::parses(m7, Ok::<H::Output, Error>(p.7), m8) && I::parses(m8, Ok::<I::Output, Error>(p.8), m9) && J::parses(m9, Ok::<J::Output, Error>(p.9), mid) && K::parses(mid, Err::<K::Output, Error>(e), after));
        }
    }
}

/// A tuple of 12 parsers parses its parts one after the other: each part
/// parses from where the part before it left the stream, and the tuple gives
/// all their values; or it fails as the first part that fails, leaving the
/// stream where that part left it.
#[verifier::spinoff_prover]
pub proof fn law_tuple12_parses_in_turn<A: FromStream, B: FromStream, C: FromStream, D: FromStream, E: FromStream, F: FromStream, G: FromStream, H: FromStream, I: FromStream, J: FromStream, K: FromStream, L: FromStream>(before: StreamState, res: Result<<(A, B, C, D, E, F, G, H, I, J, K, L) as FromStream>::Output, Error>, after: StreamState)
    requires
        <(A, B, C, D, E, F, G, H, I, J, K, L) as FromStream>::parses(before, res, after),
    ensures
        res matches Ok(v) ==> exists|m1: StreamState, m2: StreamState, m3: StreamState, m4: StreamState, m5: StreamState, m6: StreamState, m7: StreamState, m8: StreamState, m9: StreamState, m10: StreamState, m11: StreamState|
            #![trigger A::parses(before, Ok::<A::Output, Error>(v.0), m1), B::parses(m1, Ok::<B::Output, Error>(v.1), m2), C::parses(m2, Ok::<C::Output, Error>(v.2), m3), D::parses(m3, Ok::<D::Output, Error>(v.3), m4), E::parses(m4, Ok::<E::Output, Error>(v.4), m5), F::parses(m5, Ok::<F::Output, Error>(v.5), m6), G::parses(m6, Ok::<G::Output, Error>(v.6), m7), H::parses(m7, Ok::<H::Output, Error>(v.7), m8), I::parses(m8, Ok::<I::Output, Error>(v.8), m9), J::parses(m9, Ok::<J::Output, Error>(v.9), m10), K::parses(m10, Ok::<K::Output, Error>(v.10), m11), L::parses(m11, Ok::<L::Output, Error>(v.11), after)]
            A::parses(before, Ok::<A::Output, Error>(v.0), m1) && B::parses(m1, Ok::<B::Output, Error>(v.1), m2) && C::parses(m2, Ok::<C::Output, Error>(v.2), m3) && D::parses(m3, Ok::<D::Output, Error>(v.3), m4) && E::parses(m4, Ok::<E::Output, Error>(v.4), m5) && F::parses(m5, Ok::<F::Output, Error>(v.5), m6) && G::parses(m6, Ok::<G::Output, Error>(v.6), m7) && H::parses(m7, Ok::<H::Output, Error>(v.7), m8) && I::parses(m8, Ok::<I::Output, Error>(v.8), m9) && J::parses(m9, Ok::<J::Output, Error>(v.9), m10) && K::parses(m10, Ok::<K::Output, Error>(v.10), m11) && L::parses(m11, Ok::<L::Output, Error>(v.11), after),
        res matches Err(e) ==>
            (A::parses(before, Err::<A::Output, Error>(e), after))
            || (exists|x0: A::Output, m1: StreamState|
                #![trigger A::parses(before, Ok::<A::Output, Error>(x0), m1), B::parses(m1, Err::<B::Output, Error>(e), after)]
                A::parses(before, Ok::<A::Output, Error>(x0), m1) && B::parses(m1, Err::<B::Output, Error>(e), after))
            || (exists|x0: A::Output, m1: StreamState, x1: B::Output, m2: StreamState|
                #![trigger A::parses(before, Ok::<A::Output, Error>(x0), m1), B::parses(m1, Ok::<B::Output, Error>(x1), m2), C::parses(m2, Err::<C::Output, Error>(e), after)]
                A::parses(before, Ok::<A::Output, Error>(x0), m1) && B::parses(m1, Ok::<B::Output, Error>(x1), m2) && C::parses(m2, Err::<C::Output, Error>(e), after))
            || (exists|x0: A::Output, m1: StreamState, x1: B::Output, m2: StreamState, x2: C::Output, m3: StreamState|
                #![trigger A::parses(before, Ok::<A::Output, Error>(x0), m1), B::parses(m1, Ok::<B::Output, Error>(x1), m2), C::parses(m2, Ok::<C::Output, Error>(x2), m3), D::parses(m3, Err::<D::Output, Error>(e), after)]
                A::parses(before, Ok::<A::Output, Error>(x0), m1) && B::parses(m1, Ok::<B::Output, Error>(x1), m2) && C::parses(m2, Ok::<C::Output, Error>(x2), m3) && D::parses(m3, Err::<D::Output, Error>(e), after))
            || (exists|x0: A::Output, m1: StreamState, x1: B::Output, m2: StreamState, x2: C::Output, m3: StreamState, x3: D::Output, m4: StreamState|
                #![trigger A::parses(before, Ok::<A::Output, Error>(x0), m1), B::parses(m1, Ok::<B::Output, Error>(x1), m2), C::parses(m2, Ok::<C::Output, Error>(x2), m3), D::parses(m3, Ok::<D::Output, Error>(x3), m4), E::parses(m4, Err::<E::Output, Error>(e), after)]
                A::parses(before, Ok::<A::Output, Error>(x0), m1) && B::parses(m1, Ok::<B::Output, Error>(x1), m2) && C::parses(m2, Ok::<C::Output, Error>(x2), m3) && D::parses(m3, Ok::<D::Output, Error>(x3), m4) && E::parses(m4, Err::<E::Output, Error>(e), after))
            || (exists|x0: A::Output, m1: StreamState, x1: B::Output, m2: StreamState, x2: C::Output, m3: StreamState, x3: D::Output, m4: StreamState, x4: E::Output, m5: StreamState|
                #![trigger A::parses(before, Ok::<A::Output, Error>(x0), m1), B::parses(m1, Ok::<B::Output, Error>(x1), m2), C::parses(m2, Ok::<C::Output, Error>(x2), m3), D::parses(m3, Ok::<D::Output, Error>(x3), m4), E::parses(m4, Ok::<E::Output, Error>(x4), m5), F::parses(m5, Err::<F::Output, Error>(e), after)]
                A::parses(before, Ok::<A::Output, Error>(x0), m1) && B::parses(m1, Ok::<B::Output, Error>(x1), m2) && C::parses(m2, Ok::<C::Output, Error>(x2), m3) && D::parses(m3, Ok::<D::Output, Error>(x3), m4) && E::parses(m4, Ok::<E::Output, Error>(x4), m5) && F::parses(m5, Err::<F::Output, Error>(e), after))
            || (exists|x0: A::Output, m1: StreamState, x1: B::Output, m2: StreamState, x2: C::Output, m3: StreamState, x3: D::Output, m4: StreamState, x4: E::Output, m5: StreamState, x5: F::Output, m6: StreamState|
                #![trigger A::parses(before, Ok::<A::Output, Error>(x0), m1), B::parses(m1, Ok::<B::Output, Error>(x1), m2), C::parses(m2, Ok::<C::Output, Error>(x2), m3), D::parses(m3, Ok::<D::Output, Error>(x3), m4), E::parses(m4, Ok::<E::Output, Error>(x4), m5), F::parses(m5, Ok::<F::Output, Error>(x5), m6), G::parses(m6, Err::<G::Output, Error>(e), after)]
                A::parses(before, Ok::<A::Output, Error>(x0), m1) && B::parses(m1, Ok::<B::Output, Error>(x1), m2) && C::parses(m2, Ok::<C::Output, Error>(x2), m3) && D::parses(m3, Ok::<D::Output, Error>(x3), m4) && E::parses(m4, Ok::<E::Output, Error>(x4), m5) && F::parses(m5, Ok::<F::Output, Error>(x5), m6) && G::parses(m6, Err::<G::Output, Error>(e), after))
            || (exists|x0: A::Output, m1: StreamState, x1: B::Output, m2: StreamState, x2: C::Output, m3: StreamState, x3: D::Output, m4: StreamState, x4: E::Output, m5: StreamState, x5: F::Output, m6: StreamState, x6: G::Output, m7: StreamState|
                #![trigger A::parses(before, Ok::<A::Output, Error>(x0), m1), B::parses(m1, Ok::<B::Output, Error>(x1), m2), C::parses(m2, Ok::<C::Output, Error>(x2), m3), D::parses(m3, Ok::<D::Output, Error>(x3), m4), E::parses(m4, Ok::<E::Output, Error>(x4), m5), F::parses(m5, Ok::<F::Output, Error>(x5), m6), G::parses(m6, Ok::<G::Output, Error>(x6), m7), H::parses(m7, Err::<H::Output, Error>(e), after)]
                A::parses(before, Ok::<A::Output, Error>(x0), m1) && B::parses(m1, Ok::<B::Output, Error>(x1), m2) && C::parses(m2, Ok::<C::Output, Error>(x2), m3) && D::parses(m3, Ok::<D::Output, Error>(x3), m4) && E::parses(m4, Ok::<E::Output, Error>(x4), m5) && F::parses(m5, Ok::<F::Output, Error>(x5), m6) && G::parses(m6, Ok::<G::Output, Error>(x6), m7) && H::parses(m7, Err::<H::Output, Error>(e), after))
            || (exists|x0: A::Output, m1: StreamState, x1: B::Output, m2: StreamState, x2: C::Output, m3: StreamState, x3: D::Output, m4: StreamState, x4: E::Output, m5: StreamState, x5: F::Output, m6: StreamState, x6: G::Output, m7: StreamState, x7: H::Output, m8: StreamState|
                #![trigger A::parses(before, Ok::<A::Output, Error>(x0), m1), B::parses(m1, Ok::<B::Output, Error>(x1), m2), C::parses(m2, Ok::<C::Output, Error>(x2), m3), D::parses(m3, Ok::<D::Output, Error>(x3), m4), E::parses(m4, Ok::<E::Output, Error>(x4), m5), F::parses(m5, Ok::<F::Output, Error>(x5), m6), G::parses(m6, Ok::<G::Output, Error>(x6), m7), H::parses(m7, Ok::<H::Output, Error>(x7), m8), I::parses(m8, Err::<I::Output, Error>(e), after)]
                A::parses(before, Ok::<A::Output, Error>(x0), m1) && B::parses(m1, Ok::<B::Output, Error>(x1), m2) && C::parses(m2, Ok::<C::Output, Error>(x2), m3) && D::parses(m3, Ok::<D::Output, Error>(x3), m4) && E::parses(m4, Ok::<E::Output, Error>(x4), m5) && F::parses(m5, Ok::<F::Output, Error>(x5), m6) && G::parses(m6, Ok::<G::Output, Error>(x6), m7) && H::parses(m7, Ok::<H::Output, Error>(x7), m8) && I::parses(m8, Err::<I::Output, Error>(e), after))
            || (exists|x0: A::Output, m1: StreamState, x1: B::Output, m2: StreamState, x2: C::Output, m3: StreamState, x3: D::Output, m4: StreamState, x4: E::Output, m5: StreamState, x5: F::Output, m6: StreamState, x6: G::Output, m7: StreamState, x7: H::Output, m8: StreamState, x8: I::Output, m9: StreamState|
                #![trigger A::parses(before, Ok::<A::Output, Error>(x0), m1), B::parses(m1, Ok::<B::Output, Error>(x1), m2), C::parses(m2, Ok::<C::Output, Error>(x2), m3), D::parses(m3, Ok::<D::Output, Error>(x3), m4), E::parses(m4, Ok::<E::Output, Error>(x4), m5), F::parses(m5, Ok::<F::Output, Error>(x5), m6), G::parses(m6, Ok::<G::Output, Error>(x6), m7), H::parses(m7, Ok::<H::Output, Error>(x7), m8), I::parses(m8, Ok::<I::Output, Error>(x8), m9), J::parses(m9, Err::<J::Output, Error>(e), after)]
                A::parses(before, Ok::<A::Output, Error>(x0), m1) && B::parses(m1, Ok::<B::Output, Error>(x1), m2) && C::parses(m2, Ok::<C::Output, Error>(x2), m3) && D::parses(m3, Ok::<D::Output, Error>(x3), m4) && E::parses(m4, Ok::<E::Output, Error>(x4), m5) && F::parses(m5, Ok::<F::Output, Error>(x5), m6) && G::parses(m6, Ok::<G::Output, Error>(x6), m7) && H::parses(m7, Ok::<H::Output, Error>(x7), m8) && I::parses(m8, Ok::<I::Output, Error>(x8), m9) && J::parses(m9, Err::<J::Output, Error>(e), after))
            || (exists|x0: A::Output, m1: StreamState, x1: B::Output, m2: StreamState, x2: C::Output, m3: StreamState, x3: D::Output, m4: StreamState, x4: E::Output, m5: StreamState, x5: F::Output, m6: StreamState, x6: G::Output, m7: StreamState, x7: H::Output, m8: StreamState, x8: I::Output, m9: StreamState, x9: J::Output, m10: StreamState|
                #![trigger A::parses(before, Ok::<A::Output, Error>(x0), m1), B::parses(m1, Ok::<B::Output, Error>(x1), m2), C::parses(m2, Ok::<C::Output, Error>(x2), m3), D::parses(m3, Ok::<D::Output, Error>(x3), m4), E::parses(m4, Ok::<E::Output, Error>(x4), m5), F::parses(m5, Ok::<F::Output, Error>(x5), m6), G::parses(m6, Ok::<G::Output, Error>(x6), m7), H::parses(m7, Ok::<H::Output, Error>(x7), m8), I::parses(m8, Ok::<I::Output, Error>(x8), m9), J::parses(m9, Ok::<J::Output, Error>(x9), m10), K::parses(m10, Err::<K::Output, Error>(e), after)]
                A::parses(before, Ok::<A::Output, Error>(x0), m1) && B::parses(m1, Ok::<B::Output, Error>(x1), m2) && C::parses(m2, Ok::<C::Output, Error>(x2), m3) && D::parses(m3, Ok::<D::Output, Error>(x3), m4) && E::parses(m4, Ok::<E::Output, Error>(x4), m5) && F::parses(m5, Ok::<F::Output, Error>(x5), m6) && G::parses(m6, Ok::<G::Output, Error>(x6), m7) && H::parses(m7, Ok::<H::Output, Error>(x7), m8) && I::parses(m8, Ok::<I::Output, Error>(x8), m9) && J::parses(m9, Ok::<J::Output, Error>(x9), m10) && K::parses(m10, Err::<K::Output, Error>(e), after))
            || (exists|x0: A::Output, m1: StreamState, x1: B::Output, m2: StreamState, x2: C::Output, m3: StreamState, x3: D::Output, m4: StreamState, x4: E::Output, m5: StreamState, x5: F::Output, m6: StreamState, x6: G::Output, m7: StreamState, x7: H::Output, m8: StreamState, x8: I::Output, m9: StreamState, x9: J::Output, m10: StreamState, x10: K::Output, m11: StreamState|
                #![trigger A::parses(before, Ok::<A::Output, Error>(x0), m1), B::parses(m1, Ok::<B::Output, Error>(x1), m2), C::parses(m2, Ok::<C::Output, Error>(x2), m3), D::parses(m3, Ok::<D::Output, Error>(x3), m4), E::parses(m4, Ok::<E::Output, Error>(x4), m5), F::parses(m5, Ok::<F::Output, Error>(x5), m6), G::parses(m6, Ok::<G::Output, Error>(x6), m7), H::parses(m7, Ok::<H::Output, Error>(x7), m8), I::parses(m8, Ok::<I::Output, Error>(x8), m9), J::parses(m9, Ok::<J::Output, Error>(x9), m10), K::parses(m10, Ok::<K::Output, Error>(x10), m11), L::parses(m11, Err::<L::Output, Error>(e), after)]
                A::parses(before, Ok::<A::Output, Error>(x0), m1) && B::parses(m1, Ok::<B::Output, Error>(x1), m2) && C::parses(m2, Ok::<C::Output, Error>(x2), m3) && D::parses(m3, Ok::<D::Output, Error>(x3), m4) && E::parses(m4, Ok::<E::Output, Error>(x4), m5) && F::parses(m5, Ok::<F::Output, Error>(x5), m6) && G::parses(m6, Ok::<G::Output, Error>(x6), m7) && H::parses(m7, Ok::<H::Output, Error>(x7), m8) && I::parses(m8, Ok::<I::Output, Error>(x8), m9) && J::parses(m9, Ok::<J::Output, Error>(x9), m10) && K::parses(m10, Ok::<K::Output, Error>(x10), m11) && L::parses(m11, Err::<L::Output, Error>(e), after)),
{
    let (r, mid) = choose|r: Result<(A::Output, B::Output, C::Output, D::Output, E::Output, F::Output, G::Output, H::Output, I::Output, J::Output, K::Output), Error>, mid: StreamState|
        #[trigger] <(A, B, C, D, E, F, G, H, I, J, K) as FromStream>::parses(before, r, mid) && then_parses::<(A::Output, B::Output, C::Output, D::Output, E::Output, F::Output, G::Output, H::Output, I::Output, J::Output, K::Output), L, (A::Output, B::Output, C::Output, D::Output, E::Output, F::Output, G::Output, H::Output, I::Output, J::Output, K::Output, L::Output)>(
            r,
            mid,
            res,
            after,
            |p: (A::Output, B::Output, C::Output, D::Output, E::Output, F::Output, G::Output, H::Output, I::Output, J::Output, K::Output), l: L::Output| (p.0, p.1, p.2, p.3, p.4, p.5, p.6, p.7, p.8, p.9, p.10, l),
        );
    law_tuple11_parses_in_turn::<A, B, C, D, E, F, G, H, I, J, K>(before, r, mid);
    if let Ok(p) = r {
        let rl = choose|rl: Result<L::Output, Error>|
            #[trigger] L::parses(mid, rl, after) && match rl {
                Err(e) => res == Err::<(A::Output, B::Output, C::Output, D::Output, E::Output, F::Output, G::Output, H::Output, I::Output, J::Output, K::Output, L::Output), Error>(e),
                Ok(l) => res == Ok::<(A::Output, B::Output, C::Output, D::Output, E::Output, F::Output, G::Output, H::Output, I::Output, J::Output, K::Output, L::Output), Error>((|p: (A::Output, B::Output, C::Output, D::Output, E::Output, F::Output, G::Output, H::Output, I::Output, J::Output, K::Output), l: L::Output| (p.0, p.1, p.2, p.3, p.4, p.5, p.6, p.7, p.8, p.9, p.10, l))(p, l)),
            };
        if let Ok(l) = rl {
            let (m1, m2, m3, m4, m5, m6, m7, m8, m9, m10) = choose|m1: StreamState, m2: StreamState, m3: StreamState, m4: StreamState, m5: StreamState, m6: StreamState, m7: StreamState, m8: StreamState, m9: StreamState, m10: StreamState| A::parses(before, Ok::<A::Output, Error>(p.0), m1) && B::parses(m1, Ok::<B::Output, Error>(p.1), m2) && C::parses(m2, Ok::<C::Output, Error>(p.2), m3) && D::parses(m3, Ok::<D::Output, Error>(p.3), m4) && E::parses(m4, Ok::<E::Output, Error>(p.4), m5) && F::parses(m5, Ok::<F::Output, Error>(p.5), m6) && G::parses(m6, Ok::<G::Output, Error>(p.6), m7) && H::parses(m7, Ok::<H::Output, Error>(p.7), m8) && I::parses(m8, Ok::<I::Output, Error>(p.8), m9) && J::parses(m9, Ok::<J::Output, Error>(p.9), m10) && K::parses(m10, Ok::<K::Output, Error>(p.10), mid);
            if let Ok(v) = res {
                assert(v.0 == p.0 && v.1 == p.1 && v.2 == p.2 && v.3 == p.3 && v.4 == p.4 && v.5 == p.5 && v.6 == p.6 && v.7 == p.7 && v.8 == p.8 && v.9 == p.9 && v.10 == p.10 && v.11 == l);
                assert(A::parses(before, Ok::<A::Output, Error>(v.0), m1) && B::parses(m1, Ok::<B::Output, Error>(v.1), m2) && C::parses(m2, Ok::<C::Output, Error>(v.2), m3) && D::parses(m3, Ok::<D::Output, Error>(v.3), m4) && E::parses(m4, Ok::<E::Output, Error>(v.4), m5) && F::parses(m5, Ok::<F::Output, Error>(v.5), m6) && G::parses(m6, Ok::<G::Output, Error>(v.6), m7) && H::parses(m7, Ok::<H::Output, Error>(v.7), m8) && I::parses(m8, Ok::<I::Output, Error>(v.8), m9) && J::parses(m9, Ok::<J::Output, Error>(v.9), m10) && K::parses(m10, Ok::<K::Output, Error>(v.10), mid) && L::parses(mid, Ok::<L::Output, Error>(v.11), after));
            }
        }
        if let Err(e) = rl {
            let (m1, m2, m3, m4, m5, m6, m7, m8, m9, m10) = choose|m1: StreamState, m2: StreamState, m3: StreamState, m4: StreamState, m5: StreamState, m6: StreamState, m7: StreamState, m8: StreamState, m9: StreamState, m10: StreamState| A::parses(before, Ok::<A::Output, Error>(p.0), m1) && B::parses(m1, Ok::<B::Output, Error>(p.1), m2) && C::parses(m2, Ok::<C::Output, Error>(p.2), m3) && D::parses(m3, Ok::<D::Output, Error>(p.3), m4) && E::parses(m4, Ok::<E::Output, Error>(p.4), m5) && F::parses(m5, Ok::<F::Output, Error>(p.5), m6) && G::parses(m6, Ok::<G::Output, Error>(p.6), m7) && H::parses(m7, Ok::<H::Output, Error>(p.7), m8) && I::parses(m8, Ok::<I::Output, Error>(p.8), m9) && J::parses(m9, Ok::<J::Output, Error>(p.9), m10) && K::parses(m10, Ok::<K::Output, Error>(p.10), mid);
            assert(A::parses(before, Ok::<A::Output, Error>(p.0), m1) && B::parses(m1, Ok::<B::Output, Error>(p.1), m2) && C::parses(m2, Ok::<C::Output, Error>(p.2), m3) && D::parses(m3, Ok::<D::Output, Error>(p.3), m4) && E::parses(m4, Ok::<E::Output, Error>(p.4), m5) && F::parses(m5, Ok::<F::Output, Error>(p.5), m6) && G::parses(m6, Ok::<G::Output, Error>(p.6), m7) && H::parses(m7, Ok::<H::Output, Error>(p.7), m8) && I::parses(m8, Ok::<I::Output, Error>(p.8), m9) && J::parses(m9, Ok::<J::Output, Error>(p.9), m10) && K::parses(m10, Ok::<K::Output, Error>(p.10), mid) && L::parses(mid, Err::<L::Output, Error>(e), after));
        }
    }
}

/// A tuple of 13 parsers parses its parts one after the other: each part
/// parses from where the part before it left the stream, and the tuple gives
/// all their values; or it fails as the first part that fails, leaving the
/// stream where that part left it.
#[verifier::spinoff_prover]
pub proof fn law_tuple13_parses_in_turn<A: FromStream, B: FromStream, C: FromStream, D: FromStream, E: FromStream, F: FromStream, G: FromStream, H: FromStream, I: FromStream, J: FromStream, K: FromStream, L: FromStream, M: FromStream>(before: StreamState, res: Result<<(A, B, C, D, E, F, G, H, I, J, K, L, M) as FromStream>::Output, Error>, after: StreamState)
    requires
        <(A, B, C, D, E, F, G, H, I, J, K, L, M) as FromStream>::parses(before, res, after),
    ensures
        res matches Ok(v) ==> exists|m1: StreamState, m2: StreamState, m3: StreamState, m4: StreamState, m5: StreamState, m6: StreamState, m7: StreamState, m8: StreamState, m9: StreamState, m10: StreamState, m11: StreamState, m12: StreamState|
            #![trigger A::parses(before, Ok::<A::Output, Error>(v.0), m1), B::parses(m1, Ok::<B::Output, Error>(v.1), m2), C::parses(m2, Ok::<C::Output, Error>(v.2), m3), D::parses(m3, Ok::<D::Output, Error>(v.3), m4), E::parses(m4, Ok::<E::Output, Error>(v.4), m5), F::parses(m5, Ok::<F::Output, Error>(v.5), m6), G::parses(m6, Ok::<G::Output, Error>(v.6), m7), H::parses(m7, Ok::<H::Output, Error>(v.7), m8), I::parses(m8, Ok::<I::Output, Error>(v.8), m9), J::parses(m9, Ok::<J::Output, Error>(v.9), m10), K::parses(m10, Ok::<K::Output, Error>(v.10), m11), L::parses(m11, Ok::<L::Output, Error>(v.11), m12), M::parses(m12, Ok::<M::Output, Error>(v.12), after)]
            A::parses(before, Ok::<A::Output, Error>(v.0), m1) && B::parses(m1, Ok::<B::Output, Error>(v.1), m2) && C::parses(m2, Ok::<C::Output, Error>(v.2), m3) && D::parses(m3, Ok::<D::Output, Error>(v.3), m4) && E::parses(m4, Ok::<E::Output, Error>(v.4), m5) && F::parses(m5, Ok::<F::Output, Error>(v.5), m6) && G::parses(m6, Ok::<G::Output, Error>(v.6), m7) && H::parses(m7, Ok::<H::Output, Error>(v.7), m8) && I::parses(m8, Ok::<I::Output, Error>(v.8), m9) && J::parses(m9, Ok::<J::Output, Error>(v.9), m10) && K::parses(m10, Ok::<K::Output, Error>(v.10), m11) && L::parses(m11, Ok::<L::Output, Error>(v.11), m12) && M::parses(m12, Ok::<M::Output, Error>(v.12), after),
        res matches Err(e) ==>
            (A::parses(before, Err::<A::Output, Error>(e), after))
            || (exists|x0: A::Output, m1: StreamState|
                #![trigger A::parses(before, Ok::<A::Output, Error>(x0), m1), B::parses(m1, Err::<B::Output, Error>(e), after)]
                A::parses(before, Ok::<A::Output, Error>(x0), m1) && B::parses(m1, Err::<B::Output, Error>(e), after))
            || (exists|x0: A::Output, m1: StreamState, x1: B::Output, m2: StreamState|
                #![trigger A::parses(before, Ok::<A::Output, Error>(x0), m1), B::parses(m1, Ok::<B::Output, Error>(x1), m2), C::parses(m2, Err::<C::Output, Error>(e), after)]
                A::parses(before, Ok::<A::Output, Error>(x0), m1) && B::parses(m1, Ok::<B::Output, Error>(x1), m2) && C::parses(m2, Err::<C::Output, Error>(e), after))
            || (exists|x0: A::Output, m1: StreamState, x1: B::Output, m2: StreamState, x2: C::Output, m3: StreamState|
                #![trigger A::parses(before, Ok::<A::Output, Error>(x0), m1), B::parses(m1, Ok::<B::Output, Error>(x1), m2), C::parses(m2, Ok::<C::Output, Error>(x2), m3), D::parses(m3, Err::<D::Output, Error>(e), after)]
                A::parses(before, Ok::<A::Output, Error>(x0), m1) && B::parses(m1, Ok::<B::Output, Error>(x1), m2) && C::parses(m2, Ok::<C::Output, Error>(x2), m3) && D::parses(m3, Err::<D::Output, Error>(e), after))
            || (exists|x0: A::Output, m1: StreamState, x1: B::Output, m2: StreamState, x2: C::Output, m3: StreamState, x3: D::Output, m4: StreamState|
                #![trigger A::parses(before, Ok::<A::Output, Error>(x0), m1), B::parses(m1, Ok::<B::Output, Error>(x1), m2), C::parses(m2, Ok::<C::Output, Error>(x2), m3), D::parses(m3, Ok::<D::Output, Error>(x3), m4), E::parses(m4, Err::<E::Output, Error>(e), after)]
                A::parses(before, Ok::<A::Output, Error>(x0), m1) && B::parses(m1, Ok::<B::Output, Error>(x1), m2) && C::parses(m2, Ok::<C::Output, Error>(x2), m3) && D::parses(m3, Ok::<D::Output, Error>(x3), m4) && E::parses(m4, Err::<E::Output, Error>(e), after))
            || (exists|x0: A::Output, m1: StreamState, x1: B::Output, m2: StreamState, x2: C::Output, m3: StreamState, x3: D::Output, m4: StreamState, x4: E::Output, m5: StreamState|
                #![trigger A::parses(before, Ok::<A::Output, Error>(x0), m1), B::parses(m1, Ok::<B::Output, Error>(x1), m2), C::parses(m2, Ok::<C::Output, Error>(x2), m3), D::parses(m3, Ok::<D::Output, Error>(x3), m4), E::parses(m4, Ok::<E::Output, Error>(x4), m5), F::parses(m5, Err::<F::Output, Error>(e), after)]
                A::parses(before, Ok::<A::Output, Error>(x0), m1) && B::parses(m1, Ok::<B::Output, Error>(x1), m2) && C::parses(m2, Ok::<C::Output, Error>(x2), m3) && D::parses(m3, Ok::<D::Output, Error>(x3), m4) && E::parses(m4, Ok::<E::Output, Error>(x4), m5) && F::parses(m5, Err::<F::Output, Error>(e), after))
            || (exists|x0: A::Output, m1: StreamState, x1: B::Output, m2: StreamState, x2: C::Output, m3: StreamState, x3: D::Output, m4: StreamState, x4: E::Output, m5: StreamState, x5: F::Output, m6: StreamState|
                #![trigger A::parses(before, Ok::<A::Output, Error>(x0), m1), B::parses(m1, Ok::<B::Output, Error>(x1), m2), C::parses(m2, Ok::<C::Output, Error>(x2), m3), D::parses(m3, Ok::<D::Output, Error>(x3), m4), E::parses(m4, Ok::<E::Output, Error>(x4), m5), F::parses(m5, Ok::<F::Output, Error>(x5), m6), G::parses(m6, Err::<G::Output, Error>(e), after)]
                A::parses(before, Ok::<A::Output, Error>(x0), m1) && B::parses(m1, Ok::<B::Output, Error>(x1), m2) && C::parses(m2, Ok::<C::Output, Error>(x2), m3) && D::parses(m3, Ok::<D::Output, Error>(x3), m4) && E::parses(m4, Ok::<E::Output, Error>(x4), m5) && F::parses(m5, Ok::<F::Output, Error>(x5), m6) && G::parses(m6, Err::<G::Output, Error>(e), after))
            || (exists|x0: A::Output, m1: StreamState, x1: B::Output, m2: StreamState, x2: C::Output, m3: StreamState, x3: D::Output, m4: StreamState, x4: E::Output, m5: StreamState, x5: F::Output, m6: StreamState, x6: G::Output, m7: StreamState|
                #![trigger A::parses(before, Ok::<A::Output, Error>(x0), m1), B::parses(m1, Ok::<B::Output, Error>(x1), m2), C::parses(m2, Ok::<C::Output, Error>(x2), m3), D::parses(m3, Ok::<D::Output, Error>(x3), m4), E::parses(m4, Ok::<E::Output, Error>(x4), m5), F::parses(m5, Ok::<F::Output, Error>(x5), m6), G::parses(m6, Ok::<G::Output, Error>(x6), m7), H::parses(m7, Err::<H::Output, Error>(e), after)]
                A::parses(before, Ok::<A::Output, Error>(x0), m1) && B::parses(m1, Ok::<B::Output, Error>(x1), m2) && C::parses(m2, Ok::<C::Output, Error>(x2), m3) && D::parses(m3, Ok::<D::Output, Error>(x3), m4) && E::parses(m4, Ok::<E::Output, Error>(x4), m5) && F::parses(m5, Ok::<F::Output, Error>(x5), m6) && G::parses(m6, Ok::<G::Output, Error>(x6), m7) && H::parses(m7, Err::<H::Output, Error>(e), after))
            || (exists|x0: A::Output, m1: StreamState, x1: B::Output, m2: StreamState, x2: C::Output, m3: StreamState, x3: D::Output, m4: StreamState, x4: E::Output, m5: StreamState, x5: F::Output, m6: StreamState, x6: G::Output, m7: StreamState, x7: H::Output, m8: StreamState|
                #![trigger A::parses(before, Ok::<A::Output, Error>(x0), m1), B::parses(m1, Ok::<B::Output, Error>(x1), m2), C::parses(m2, Ok::<C::Output, Error>(x2), m3), D::parses(m3, Ok::<D::Output, Error>(x3), m4), E::parses(m4, Ok::<E::Output, Error>(x4), m5), F::parses(m5, Ok::<F::Output, Error>(x5), m6), G::parses(m6, Ok::<G::Output, Error>(x6), m7), H::parses(m7, Ok::<H::Output, Error>(x7), m8), I::parses(m8, Err::<I::Output, Error>(e), after)]
                A::parses(before, Ok::<A::Output, Error>(x0), m1) && B::parses(m1, Ok::<B::Output, Error>(x1), m2) && C::parses(m2, Ok::<C::Output, Error>(x2), m3) && D::parses(m3, Ok::<D::Output, Error>(x3), m4) && E::parses(m4, Ok::<E::Output, Error>(x4), m5) && F::parses(m5, Ok::<F::Output, Error>(x5), m6) && G::parses(m6, Ok::<G::Output, Error>(x6), m7) && H::parses(m7, Ok::<H::Output, Error>(x7), m8) && I::parses(m8, Err::<I::Output, Error>(e), after))
            || (exists|x0: A::Output, m1: StreamState, x1: B::Output, m2: StreamState, x2: C::Output, m3: StreamState, x3: D::Output, m4: StreamState, x4: E::Output, m5: StreamState, x5: F::Output, m6: StreamState, x6: G::Output, m7: StreamState, x7: H::Output, m8: StreamState, x8: I::Output, m9: StreamState|
                #![trigger A::parses(before, Ok::<A::Output, Error>(x0), m1), B::parses(m1, Ok::<B::Output, Error>(x1), m2), C::parses(m2, Ok::<C::Output, Error>(x2), m3), D::parses(m3, Ok::<D::Output, Error>(x3), m4), E::parses(m4, Ok::<E::Output, Error>(x4), m5), F::parses(m5, Ok::<F::Output, Error>(x5), m6), G::parses(m6, Ok::<G::Output, Error>(x6), m7), H::parses(m7, Ok::<H::Output, Error>(x7), m8), I::parses(m8, Ok::<I::Output, Error>(x8), m9), J::parses(m9, Err::<J::Output, Error>(e), after)]
                A::parses(before, Ok::<A::Output, Error>(x0), m1) && B::parses(m1, Ok::<B::Output, Error>(x1), m2) && C::parses(m2, Ok::<C::Output, Error>(x2), m3) && D::parses(m3, Ok::<D::Output, Error>(x3), m4) && E::parses(m4, Ok::<E::Output, Error>(x4), m5) && F::parses(m5, Ok::<F::Output, Error>(x5), m6) && G::parses(m6, Ok::<G::Output, Error>(x6), m7) && H::parses(m7, Ok::<H::Output, Error>(x7), m8) && I::parses(m8, Ok::<I::Output, Error>(x8), m9) && J::parses(m9, Err::<J::Output, Error>(e), after))
            || (exists|x0: A::Output, m1: StreamState, x1: B::Output, m2: StreamState, x2: C::Output, m3: StreamState, x3: D::Output, m4: StreamState, x4: E::Output, m5: StreamState, x5: F::Output, m6: StreamState, x6: G::Output, m7: StreamState, x7: H::Output, m8: StreamState, x8: I::Output, m9: StreamState, x9: J::Output, m10: StreamState|
                #![trigger A::parses(before, Ok::<A::Output, Error>(x0), m1), B::parses(m1, Ok::<B::Output, Error>(x1), m2), C::parses(m2, Ok::<C::Output, Error>(x2), m3), D::parses(m3, Ok::<D::Output, Error>(x3), m4), E::parses(m4, Ok::<E::Output, Error>(x4), m5), F::parses(m5, Ok::<F::Output, Error>(x5), m6), G::parses(m6, Ok::<G::Output, Error>(x6), m7), H::parses(m7, Ok::<H::Output, Error>(x7), m8), I::parses(m8, Ok::<I::Output, Error>(x8), m9), J::parses(m9, Ok::<J::Output, Error>(x9), m10), K::parses(m10, Err::<K::Output, Error>(e), after)]
                A::parses(before, Ok::<A::Output, Error>(x0), m1) && B::parses(m1, Ok::<B::Output, Error>(x1), m2) && C::parses(m2, Ok::<C::Output, Error>(x2), m3) && D::parses(m3, Ok::<D::Output, Error>(x3), m4) && E::parses(m4, Ok::<E::Output, Error>(x4), m5) && F::parses(m5, Ok::<F::Output, Error>(x5), m6) && G::parses(m6, Ok::<G::Output, Error>(x6), m7) && H::parses(m7, Ok::<H::Output, Error>(x7), m8) && I::parses(m8, Ok::<I::Output, Error>(x8), m9) && J::parses(m9, Ok::<J::Output, Error>(x9), m10) && K::parses(m10, Err::<K::Output, Error>(e), after))
            || (exists|x0: A::Output, m1: StreamState, x1: B::Output, m2: StreamState, x2: C::Output, m3: StreamState, x3: D::Output, m4: StreamState, x4: E::Output, m5: StreamState, x5: F::Output, m6: StreamState, x6: G::Output, m7: StreamState, x7: H::Output, m8: StreamState, x8: I::Output, m9: StreamState, x9: J::Output, m10: StreamState, x10: K::Output, m11: StreamState|
                #![trigger A::parses(before, Ok::<A::Output, Error>(x0), m1), B::parses(m1, Ok::<B::Output, Error>(x1), m2), C::parses(m2, Ok::<C::Output, Error>(x2), m3), D::parses(m3, Ok::<D::Output, Error>(x3), m4), E::parses(m4, Ok::<E::Output, Error>(x4), m5), F::parses(m5, Ok::<F::Output, Error>(x5), m6), G::parses(m6, Ok::<G::Output, Error>(x6), m7), H::parses(m7, Ok::<H::Output, Error>(x7), m8), I::parses(m8, Ok::<I::Output, Error>(x8), m9), J::parses(m9, Ok::<J::Output, Error>(x9), m10), K::parses(m10, Ok::<K::Output, Error>(x10), m11), L::parses(m11, Err::<L::Output, Error>(e), after)]
                A::parses(before, Ok::<A::Output, Error>(x0), m1) && B::parses(m1, Ok::<B::Output, Error>(x1), m2) && C::parses(m2, Ok::<C::Output, Error>(x2), m3) && D::parses(m3, Ok::<D::Output, Error>(x3), m4) && E::parses(m4, Ok::<E::Output, Error>(x4), m5) && F::parses(m5, Ok::<F::Output, Error>(x5), m6) && G::parses(m6, Ok::<G::Output, Error>(x6), m7) && H::parses(m7, Ok::<H::Output, Error>(x7), m8) && I::parses(m8, Ok::<I::Output, Error>(x8), m9) && J::parses(m9, Ok::<J::Output, Error>(x9), m10) && K::parses(m10, Ok::<K::Output, Error>(x10), m11) && L::parses(m11, Err::<L::Output, Error>(e), after))
            || (exists|x0: A::Output, m1: StreamState, x1: B::Output, m2: StreamState, x2: C::Output, m3: StreamState, x3: D::Output, m4: StreamState, x4: E::Output, m5: StreamState, x5: F::Output, m6: StreamState, x6: G::Output, m7: StreamState, x7: H::Output, m8: StreamState, x8: I::Output, m9: StreamState, x9: J::Output, m10: StreamState, x10: K::Output, m11: StreamState, x11: L::Output, m12: StreamState|
                #![trigger A::parses(before, Ok::<A::Output, Error>(x0), m1), B::parses(m1, Ok::<B::Output, Error>(x1), m2), C::parses(m2, Ok::<C::Output, Error>(x2), m3), D::parses(m3, Ok::<D::Output, Error>(x3), m4), E::parses(m4, Ok::<E::Output, Error>(x4), m5), F::parses(m5, Ok::<F::Output, Error>(x5), m6), G::parses(m6, Ok::<G::Output, Error>(x6), m7), H::parses(m7, Ok::<H::Output, Error>(x7), m8), I::parses(m8, Ok::<I::Output, Error>(x8), m9), J::parses(m9, Ok::<J::Output, Error>(x9), m10), K::parses(m10, Ok::<K::Output, Error>(x10), m11), L::parses(m11, Ok::<L::Output, Error>(x11), m12), M::parses(m12, Err::<M::Output, Error>(e), after)]
                A::parses(before, Ok::<A::Output, Error>(x0), m1) && B::parses(m1, Ok::<B::Output, Error>(x1), m2) && C::parses(m2, Ok::<C::Output, Error>(x2), m3) && D::parses(m3, Ok::<D::Output, Error>(x3), m4) && E::parses(m4, Ok::<E::Output, Error>(x4), m5) && F::parses(m5, Ok::<F::Output, Error>(x5), m6) && G::parses(m6, Ok::<G::Output, Error>(x6), m7) && H::parses(m7, Ok::<H::Output, Error>(x7), m8) && I::parses(m8, Ok::<I::Output, Error>(x8), m9) && J::parses(m9, Ok::<J::Output, Error>(x9), m10) && K::parses(m10, Ok::<K::Output, Error>(x10), m11) && L::parses(m11, Ok::<L::Output, Error>(x11), m12) && M::parses(m12, Err::<M::Output, Error>(e), after)),
{
    let (r, mid) = choose|r: Result<(A::Output, B::Output, C::Output, D::Output, E::Output, F::Output, G::Output, H::Output, I::Output, J::Output, K::Output, L::Output), Error>, mid: StreamState|
        #[trigger] <(A, B, C, D, E, F, G, H, I, J, K, L) as FromStream>::parses(before, r, mid) && then_parses::<(A::Output, B::Output, C::Output, D::Output, E::Output, F::Output, G::Output, H::Output, I::Output, J::Output, K::Output, L::Output), M, (A::Output, B::Output, C::Output, D::Output, E::Output, F::Output, G::Output, H::Output, I::Output, J::Output, K::Output, L::Output, M::Output)>(
            r,
            mid,
            res,
            after,
            |p: (A::Output, B::Output, C::Output, D::Output, E::Output, F::Output, G::Output, H::Output, I::Output, J::Output, K::Output, L::Output), l: M::Output| (p.0, p.1, p.2, p.3, p.4, p.5, p.6, p.7, p.8, p.9, p.10, p.11, l),
        );
    law_tuple12_parses_in_turn::<A, B, C, D, E, F, G, H, I, J, K, L>(before, r, mid);
    if let Ok(p) = r {
        let rl = choose|rl: Result<M::Output, Error>|
            #[trigger] M::parses(mid, rl, after) && match rl {
                Err(e) => res == Err::<(A::Output, B::Output, C::Output, D::Output, E::Output, F::Output, G::Output, H::Output, I::Output, J::Output, K::Output, L::Output, M::Output), Error>(e),
                Ok(l) => res == Ok::<(A::Output, B::Output, C::Output, D::Output, E::Output, F::Output, G::Output, H::Output, I::Output, J::Output, K::Output, L::Output, M::Output), Error>((|p: (A::Output, B::Output, C::Output, D::Output, E::Output, F::Output, G::Output, H::Output, I::Output, J::Output, K::Output, L::Output), l: M::Output| (p.0, p.1, p.2, p.3, p.4, p.5, p.6, p.7, p.8, p.9, p.10, p.11, l))(p, l)),
            };
        if let Ok(l) = rl {
            let (m1, m2, m3, m4, m5, m6, m7, m8, m9, m10, m11) = choose|m1: StreamState, m2: StreamState, m3: StreamState, m4: StreamState, m5: StreamState, m6: StreamState, m7: StreamState, m8: StreamState, m9: StreamState, m10: StreamState, m11: StreamState| A::parses(before, Ok::<A::Output, Error>(p.0), m1) && B::parses(m1, Ok::<B::Output, Error>(p.1), m2) && C::parses(m2, Ok::<C::Output, Error>(p.2), m3) && D::parses(m3, Ok::<D::Output, Error>(p.3), m4) && E::parses(m4, Ok::<E::Output, Error>(p.4), m5) && F::parses(m5, Ok::<F::Output, Error>(p.5), m6) && G::parses(m6, Ok::<G::Output, Error>(p.6), m7) && H::parses(m7, Ok::<H::Output, Error>(p.7), m8) && I::parses(m8, Ok::<I::Output, Error>(p.8), m9) && J::parses(m9, Ok::<J::Output, Error>(p.9), m10) && K::parses(m10, Ok::<K::Output, Error>(p.10), m11) && L::parses(m11, Ok::<L::Output, Error>(p.11), mid);
            if let Ok(v) = res {
                assert(v.0 == p.0 && v.1 == p.1 && v.2 == p.2 && v.3 == p.3 && v.4 == p.4 && v.5 == p.5 && v.6 == p.6 && v.7 == p.7 && v.8 == p.8 && v.9 == p.9 && v.10 == p.10 && v.11 == p.11 && v.12 == l);
                assert(A::parses(before, Ok::<A::Output, Error>(v.0), m1) && B::parses(m1, Ok::<B::Output, Error>(v.1), m2) && C::parses(m2, Ok::<C::Output, Error>(v.2), m3) && D::parses(m3, Ok::<D::Output, Error>(v.3), m4) && E::parses(m4, Ok::<E::Output, Error>(v.4), m5) && F::parses(m5, Ok::<F::Output, Error>(v.5), m6) && G::parses(m6, Ok::<G::Output, Error>(v.6), m7) && H::parses(m7, Ok::<H::Output, Error>(v.7), m8) && I::parses(m8, Ok::<I::Output, Error>(v.8), m9) && J::parses(m9, Ok::<J::Output, Error>(v.9), m10) && K::parses(m10, Ok::<K::Output, Error>(v.10), m11) && L::parses(m11, Ok::<L::Output, Error>(v.11), mid) && M::parses(mid, Ok::<M::Output, Error>(v.12), after));
            }
        }
        if let Err(e) = rl {
            let (m1, m2, m3, m4, m5, m6, m7, m8, m9, m10, m11) = choose|m1: StreamState, m2: StreamState, m3: StreamState, m4: StreamState, m5: StreamState, m6: StreamState, m7: StreamState, m8: StreamState, m9: StreamState, m10: StreamState, m11: StreamState| A::parses(before, Ok::<A::Output, Error>(p.0), m1) && B::parses(m1, Ok::<B::Output, Error>(p.1), m2) && C::parses(m2, Ok::<C::Output, Error>(p.2), m3) && D::parses(m3, Ok::<D::Output, Error>(p.3), m4) && E::parses(m4, Ok::<E::Output, Error>(p.4), m5) && F::parses(m5, Ok::<F::Output, Error>(p.5), m6) && G::parses(m6, Ok::<G::Output, Error>(p.6), m7) && H::parses(m7, Ok::<H::Output, Error>(p.7), m8) && I::parses(m8, Ok::<I::Output, Error>(p.8), m9) && J::parses(m9, Ok::<J::Output, Error>(p.9), m10) && K::parses(m10, Ok::<K::Output, Error>(p.10), m11) && L::parses(m11, Ok::<L::Output, Error>(p.11), mid);
            assert(A::parses(before, Ok::<A::Output, Error>(p.0), m1) && B::parses(m1, Ok::<B::Output, Error>(p.1), m2) && C::parses(m2, Ok::<C::Output, Error>(p.2), m3) && D::parses(m3, Ok::<D::Output, Error>(p.3), m4) && E::parses(m4, Ok::<E::Output, Error>(p.4), m5) && F::parses(m5, Ok::<F::Output, Error>(p.5), m6) && G::parses(m6, Ok::<G::Output, Error>(p.6), m7) && H::parses(m7, Ok::<H::Output, Error>(p.7), m8) && I::parses(m8, Ok::<I::Output, Error>(p.8), m9) && J::parses(m9, Ok::<J::Output, Error>(p.9), m10) && K::parses(m10, Ok::<K::Output, Error>(p.10), m11) && L::parses(m11, Ok::<L::Output, Error>(p.11), mid) && M::parses(mid, Err::<M::Output, Error>(e), after));
        }
    }
}

/// A tuple of 14 parsers parses its parts one after the other: each part
/// parses from where the part before it left the stream, and the tuple gives
/// all their values; or it fails as the first part that fails, leaving the
/// stream where that part left it.
#[verifier::spinoff_prover]
pub proof fn law_tuple14_parses_in_turn<A: FromStream, B: FromStream, C: FromStream, D: FromStream, E: FromStream, F: FromStream, G: FromStream, H: FromStream, I: FromStream, J: FromStream, K: FromStream, L: FromStream, M: FromStream, N: FromStream>(before: StreamState, res: Result<<(A, B, C, D, E, F, G, H, I, J, K, L, M, N) as FromStream>::Output, Error>, after: StreamState)
    requires
        <(A, B, C, D, E, F, G, H, I, J, K, L, M, N) as FromStream>::parses(before, res, after),
    ensures
        res matches Ok(v) ==> exists|m1: StreamState, m2: StreamState, m3: StreamState, m4: StreamState, m5: StreamState, m6: StreamState, m7: StreamState, m8: StreamState, m9: StreamState, m10: StreamState, m11: StreamState, m12: StreamState, m13: StreamState|
            #![trigger A::parses(before, Ok::<A::Output, Error>(v.0), m1), B::parses(m1, Ok::<B::Output, Error>(v.1), m2), C::parses(m2, Ok::<C::Output, Error>(v.2), m3), D::parses(m3, Ok::<D::Output, Error>(v.3), m4), E::parses(m4, Ok::<E::Output, Error>(v.4), m5), F::parses(m5, Ok::<F::Output, Error>(v.5), m6), G::parses(m6, Ok::<G::Output, Error>(v.6), m7), H::parses(m7, Ok::<H::Output, Error>(v.7), m8), I::parses(m8, Ok::<I::Output, Error>(v.8), m9), J::parses(m9, Ok::<J::Output, Error>(v.9), m10), K::parses(m10, Ok::<K::Output, Error>(v.10), m11), L::parses(m11, Ok::<L::Output, Error>(v.11), m12), M::parses(m12, Ok::<M::Output, Error>(v.12), m13), N::parses(m13, Ok::<N::Output, Error>(v.13), after)]
            A::parses(before, Ok::<A::Output, Error>(v.0), m1) && B::parses(m1, Ok::<B::Output, Error>(v.1), m2) && C::parses(m2, Ok::<C::Output, Error>(v.2), m3) && D::parses(m3, Ok::<D::Output, Error>(v.3), m4) && E::parses(m4, Ok::<E::Output, Error>(v.4), m5) && F::parses(m5, Ok::<F::Output, Error>(v.5), m6) && G::parses(m6, Ok::<G::Output, Error>(v.6), m7) && H::parses(m7, Ok::<H::Output, Error>(v.7), m8) && I::parses(m8, Ok::<I::Output, Error>(v.8), m9) && J::parses(m9, Ok::<J::Output, Error>(v.9), m10) && K::parses(m10, Ok::<K::Output, Error>(v.10), m11) && L::parses(m11, Ok::<L::Output, Error>(v.11), m12) && M::parses(m12, Ok::<M::Output, Error>(v.12), m13) && N::parses(m13, Ok::<N::Output, Error>(v.13), after),
        res matches Err(e) ==>
            (A::parses(before, Err::<A::Output, Error>(e), after))
            || (exists|x0: A::Output, m1: StreamState|
                #![trigger A::parses(before, Ok::<A::Output, Error>(x0), m1), B::parses(m1, Err::<B::Output, Error>(e), after)]
                A::parses(before, Ok::<A::Output, Error>(x0), m1) && B::parses(m1, Err::<B::Output, Error>(e), after))
            || (exists|x0: A::Output, m1: StreamState, x1: B::Output, m2: StreamState|
                #![trigger A::parses(before, Ok::<A::Output, Error>(x0), m1), B::parses(m1, Ok::<B::Output, Error>(x1), m2), C::parses(m2, Err::<C::Output, Error>(e), after)]
                A::parses(before, Ok::<A::Output, Error>(x0), m1) && B::parses(m1, Ok::<B::Output, Error>(x1), m2) && C::parses(m2, Err::<C::Output, Error>(e), after))
            || (exists|x0: A::Output, m1: StreamState, x1: B::Output, m2: StreamState, x2: C::Output, m3: StreamState|
                #![trigger A::parses(before, Ok::<A::Output, Error>(x0), m1), B::parses(m1, Ok::<B::Output, Error>(x1), m2), C::parses(m2, Ok::<C::Output, Error>(x2), m3), D::parses(m3, Err::<D::Output, Error>(e), after)]
                A::parses(before, Ok::<A::Output, Error>(x0), m1) && B::parses(m1, Ok::<B::Output, Error>(x1), m2) && C::parses(m2, Ok::<C::Output, Error>(x2), m3) && D::parses(m3, Err::<D::Output, Error>(e), after))
            || (exists|x0: A::Output, m1: StreamState, x1: B::Output, m2: StreamState, x2: C::Output, m3: StreamState, x3: D::Output, m4: StreamState|
                #![trigger A::parses(before, Ok::<A::Output, Error>(x0), m1), B::parses(m1, Ok::<B::Output, Error>(x1), m2), C::parses(m2, Ok::<C::Output, Error>(x2), m3), D::parses(m3, Ok::<D::Output, Error>(x3), m4), E::parses(m4, Err::<E::Output, Error>(e), after)]
                A::parses(before, Ok::<A::Output, Error>(x0), m1) && B::parses(m1, Ok::<B::Output, Error>(x1), m2) && C::parses(m2, Ok::<C::Output, Error>(x2), m3) && D::parses(m3, Ok::<D::Output, Error>(x3), m4) && E::parses(m4, Err::<E::Output, Error>(e), after))
            || (exists|x0: A::Output, m1: StreamState, x1: B::Output, m2: StreamState, x2: C::Output, m3: StreamState, x3: D::Output, m4: StreamState, x4: E::Output, m5: StreamState|
                #![trigger A::parses(before, Ok::<A::Output, Error>(x0), m1), B::parses(m1, Ok::<B::Output, Error>(x1), m2), C::parses(m2, Ok::<C::Output, Error>(x2), m3), D::parses(m3, Ok::<D::Output, Error>(x3), m4), E::parses(m4, Ok::<E::Output, Error>(x4), m5), F::parses(m5, Err::<F::Output, Error>(e), after)]
                A::parses(before, Ok::<A::Output, Error>(x0), m1) && B::parses(m1, Ok::<B::Output, Error>(x1), m2) && C::parses(m2, Ok::<C::Output, Error>(x2), m3) && D::parses(m3, Ok::<D::Output, Error>(x3), m4) && E::parses(m4, Ok::<E::Output, Error>(x4), m5) && F::parses(m5, Err::<F::Output, Error>(e), after))
            || (exists|x0: A::Output, m1: StreamState, x1: B::Output, m2: StreamState, x2: C::Output, m3: StreamState, x3: D::Output, m4: StreamState, x4: E::Output, m5: StreamState, x5: F::Output, m6: StreamState|
                #![trigger A::parses(before, Ok::<A::Output, Error>(x0), m1), B::parses(m1, Ok::<B::Output, Error>(x1), m2), C::parses(m2, Ok::<C::Output, Error>(x2), m3), D::parses(m3, Ok::<D::Output, Error>(x3), m4), E::parses(m4, Ok::<E::Output, Error>(x4), m5), F::parses(m5, Ok::<F::Output, Error>(x5), m6), G::parses(m6, Err::<G::Output, Error>(e), after)]
                A::parses(before, Ok::<A::Output, Error>(x0), m1) && B::parses(m1, Ok::<B::Output, Error>(x1), m2) && C::parses(m2, Ok::<C::Output, Error>(x2), m3) && D::parses(m3, Ok::<D::Output, Error>(x3), m4) && E::parses(m4, Ok::<E::Output, Error>(x4), m5) && F::parses(m5, Ok::<F::Output, Error>(x5), m6) && G::parses(m6, Err::<G::Output, Error>(e), after))
            || (exists|x0: A::Output, m1: StreamState, x1: B::Output, m2: StreamState, x2: C::Output, m3: StreamState, x3: D::Output, m4: StreamState, x4: E::Output, m5: StreamState, x5: F::Output, m6: StreamState, x6: G::Output, m7: StreamState|
                #![trigger A::parses(before, Ok::<A::Output, Error>(x0), m1), B::parses(m1, Ok::<B::Output, Error>(x1), m2), C::parses(m2, Ok::<C::Output, Error>(x2), m3), D::parses(m3, Ok::<D::Output, Error>(x3), m4), E::parses(m4, Ok::<E::Output, Error>(x4), m5), F::parses(m5, Ok::<F::Output, Error>(x5), m6), G::parses(m6, Ok::<G::Output, Error>(x6), m7), H::parses(m7, Err::<H::Output, Error>(e), after)]
                A::parses(before, Ok::<A::Output, Error>(x0), m1) && B::parses(m1, Ok::<B::Output, Error>(x1), m2) && C::parses(m2, Ok::<C::Output, Error>(x2), m3) && D::parses(m3, Ok::<D::Output, Error>(x3), m4) && E::parses(m4, Ok::<E::Output, Error>(x4), m5) && F::parses(m5, Ok::<F::Output, Error>(x5), m6) && G::parses(m6, Ok::<G::Output, Error>(x6), m7) && H::parses(m7, Err::<H::Output, Error>(e), after))
            || (exists|x0: A::Output, m1: StreamState, x1: B::Output, m2: StreamState, x2: C::Output, m3: StreamState, x3: D::Output, m4: StreamState, x4: E::Output, m5: StreamState, x5: F::Output, m6: StreamState, x6: G::Output, m7: StreamState, x7: H::Output, m8: StreamState|
                #![trigger A::parses(before, Ok::<A::Output, Error>(x0), m1), B::parses(m1, Ok::<B::Output, Error>(x1), m2), C::parses(m2, Ok::<C::Output, Error>(x2), m3), D::parses(m3, Ok::<D::Output, Error>(x3), m4), E::parses(m4, Ok::<E::Output, Error>(x4), m5), F::parses(m5, Ok::<F::Output, Error>(x5), m6), G::parses(m6, Ok::<G::Output, Error>(x6), m7), H::parses(m7, Ok::<H::Output, Error>(x7), m8), I::parses(m8, Err::<I::Output, Error>(e), after)]
                A::parses(before, Ok::<A::Output, Error>(x0), m1) && B::parses(m1, Ok::<B::Output, Error>(x1), m2) && C::parses(m2, Ok::<C::Output, Error>(x2), m3) && D::parses(m3, Ok::<D::Output, Error>(x3), m4) && E::parses(m4, Ok::<E::Output, Error>(x4), m5) && F::parses(m5, Ok::<F::Output, Error>(x5), m6) && G::parses(m6, Ok::<G::Output, Error>(x6), m7) && H::parses(m7, Ok::<H::Output, Error>(x7), m8) && I::parses(m8, Err::<I::Output, Error>(e), after))
            || (exists|x0: A::Output, m1: StreamState, x1: B::Output, m2: StreamState, x2: C::Output, m3: StreamState, x3: D::Output, m4: StreamState, x4: E::Output, m5: StreamState, x5: F::Output, m6: StreamState, x6: G::Output, m7: StreamState, x7: H::Output, m8: StreamState, x8: I::Output, m9: StreamState|
                #![trigger A::parses(before, Ok::<A::Output, Error>(x0), m1), B::parses(m1, Ok::<B::Output, Error>(x1), m2), C::parses(m2, Ok::<C::Output, Error>(x2), m3), D::parses(m3, Ok::<D::Output, Error>(x3), m4), E::parses(m4, Ok::<E::Output, Error>(x4), m5), F::parses(m5, Ok::<F::Output, Error>(x5), m6), G::parses(m6, Ok::<G::Output, Error>(x6), m7), H::parses(m7, Ok::<H::Output, Error>(x7), m8), I::parses(m8, Ok::<I::Output, Error>(x8), m9), J::parses(m9, Err::<J::Output, Error>(e), after)]
                A::parses(before, Ok::<A::Output, Error>(x0), m1) && B::parses(m1, Ok::<B::Output, Error>(x1), m2) && C::parses(m2, Ok::<C::Output, Error>(x2), m3) && D::parses(m3, Ok::<D::Output, Error>(x3), m4) && E::parses(m4, Ok::<E::Output, Error>(x4), m5) && F::parses(m5, Ok::<F::Output, Error>(x5), m6) && G::parses(m6, Ok::<G::Output, Error>(x6), m7) && H::parses(m7, Ok::<H::Output, Error>(x7), m8) && I::parses(m8, Ok::<I::Output, Error>(x8), m9) && J::parses(m9, Err::<J::Output, Error>(e), after))
            || (exists|x0: A::Output, m1: StreamState, x1: B::Output, m2: StreamState, x2: C::Output, m3: StreamState, x3: D::Output, m4: StreamState, x4: E::Output, m5: StreamState, x5: F::Output, m6: StreamState, x6: G::Output, m7: StreamState, x7: H::Output, m8: StreamState, x8: I::Output, m9: StreamState, x9: J::Output, m10: StreamState|
                #![trigger A::parses(before, Ok::<A::Output, Error>(x0), m1), B::parses(m1, Ok::<B::Output, Error>(x1), m2), C::parses(m2, Ok::<C::Output, Error>(x2), m3), D::parses(m3, Ok::<D::Output, Error>(x3), m4), E::parses(m4, Ok::<E::Output, Error>(x4), m5), F::parses(m5, Ok::<F::Output, Error>(x5), m6), G::parses(m6, Ok::<G::Output, Error>(x6), m7), H::parses(m7, Ok::<H::Output, Error>(x7), m8), I::parses(m8, Ok::<I::Output, Error>(x8), m9), J::parses(m9, Ok::<J::Output, Error>(x9), m10), K::parses(m10, Err::<K::Output, Error>(e), after)]
                A::parses(before, Ok::<A::Output, Error>(x0), m1) && B::parses(m1, Ok::<B::Output, Error>(x1), m2) && C::parses(m2, Ok::<C::Output, Error>(x2), m3) && D::parses(m3, Ok::<D::Output, Error>(x3), m4) && E::parses(m4, Ok::<E::Output, Error>(x4), m5) && F::parses(m5, Ok::<F::Output, Error>(x5), m6) && G::parses(m6, Ok::<G::Output, Error>(x6), m7) && H::parses(m7, Ok::<H::Output, Error>(x7), m8) && I::parses(m8, Ok::<I::Output, Error>(x8), m9) && J::parses(m9, Ok::<J::Output, Error>(x9), m10) && K::parses(m10, Err::<K::Output, Error>(e), after))
            || (exists|x0: A::Output, m1: StreamState, x1: B::Output, m2: StreamState, x2: C::Output, m3: StreamState, x3: D::Output, m4: StreamState, x4: E::Output, m5: StreamState, x5: F::Output, m6: StreamState, x6: G::Output, m7: StreamState, x7: H::Output, m8: StreamState, x8: I::Output, m9: StreamState, x9: J::Output, m10: StreamState, x10: K::Output, m11: StreamState|
                #![trigger A::parses(before, Ok::<A::Output, Error>(x0), m1), B::parses(m1, Ok::<B::Output, Error>(x1), m2), C::parses(m2, Ok::<C::Output, Error>(x2), m3), D::parses(m3, Ok::<D::Output, Error>(x3), m4), E::parses(m4, Ok::<E::Output, Error>(x4), m5), F::parses(m5, Ok::<F::Output, Error>(x5), m6), G::parses(m6, Ok::<G::Output, Error>(x6), m7), H::parses(m7, Ok::<H::Output, Error>(x7), m8), I::parses(m8, Ok::<I::Output, Error>(x8), m9), J::parses(m9, Ok::<J::Output, Error>(x9), m10), K::parses(m10, Ok::<K::Output, Error>(x10), m11), L::parses(m11, Err::<L::Output, Error>(e), after)]
                A::parses(before, Ok::<A::Output, Error>(x0), m1) && B::parses(m1, Ok::<B::Output, Error>(x1), m2) && C::parses(m2, Ok::<C::Output, Error>(x2), m3) && D::parses(m3, Ok::<D::Output, Error>(x3), m4) && E::parses(m4, Ok::<E::Output, Error>(x4), m5) && F::parses(m5, Ok::<F::Output, Error>(x5), m6) && G::parses(m6, Ok::<G::Output, Error>(x6), m7) && H::parses(m7, Ok::<H::Output, Error>(x7), m8) && I::parses(m8, Ok::<I::Output, Error>(x8), m9) && J::parses(m9, Ok::<J::Output, Error>(x9), m10) && K::parses(m10, Ok::<K::Output, Error>(x10), m11) && L::parses(m11, Err::<L::Output, Error>(e), after))
            || (exists|x0: A::Output, m1: StreamState, x1: B::Output, m2: StreamState, x2: C::Output, m3: StreamState, x3: D::Output, m4: StreamState, x4: E::Output, m5: StreamState, x5: F::Output, m6: StreamState, x6: G::Output, m7: StreamState, x7: H::Output, m8: StreamState, x8: I::Output, m9: StreamState, x9: J::Output, m10: StreamState, x10: K::Output, m11: StreamState, x11: L::Output, m12: StreamState|
                #![trigger A::parses(before, Ok::<A::Output, Error>(x0), m1), B::parses(m1, Ok::<B::Output, Error>(x1), m2), C::parses(m2, Ok::<C::Output, Error>(x2), m3), D::parses(m3, Ok::<D::Output, Error>(x3), m4), E::parses(m4, Ok::<E::Output, Error>(x4), m5), F::parses(m5, Ok::<F::Output, Error>(x5), m6), G::parses(m6, Ok::<G::Output, Error>(x6), m7), H::parses(m7, Ok::<H::Output, Error>(x7), m8), I::parses(m8, Ok::<I::Output, Error>(x8), m9), J::parses(m9, Ok::<J::Output, Error>(x9), m10), K::parses(m10, Ok::<K::Output, Error>(x10), m11), L::parses(m11, Ok::<L::Output, Error>(x11), m12), M::parses(m12, Err::<M::Output, Error>(e), after)]
                A::parses(before, Ok::<A::Output, Error>(x0), m1) && B::parses(m1, Ok::<B::Output, Error>(x1), m2) && C::parses(m2, Ok::<C::Output, Error>(x2), m3) && D::parses(m3, Ok::<D::Output, Error>(x3), m4) && E::parses(m4, Ok::<E::Output, Error>(x4), m5) && F::parses(m5, Ok::<F::Output, Error>(x5), m6) && G::parses(m6, Ok::<G::Output, Error>(x6), m7) && H::parses(m7, Ok::<H::Output, Error>(x7), m8) && I::parses(m8, Ok::<I::Output, Error>(x8), m9) && J::parses(m9, Ok::<J::Output, Error>(x9), m10) && K::parses(m10, Ok::<K::Output, Error>(x10), m11) && L::parses(m11, Ok::<L::Output, Error>(x11), m12) && M::parses(m12, Err::<M::Output, Error>(e), after))
            || (exists|x0: A::Output, m1: StreamState, x1: B::Output, m2: StreamState, x2: C::Output, m3: StreamState, x3: D::Output, m4: StreamState, x4: E::Output, m5: StreamState, x5: F::Output, m6: StreamState, x6: G::Output, m7: StreamState, x7: H::Output, m8: StreamState, x8: I::Output, m9: StreamState, x9: J::Output, m10: StreamState, x10: K::Output, m11: StreamState, x11: L::Output, m12: StreamState, x12: M::Output, m13: StreamState|
                #![trigger A::parses(before, Ok::<A::Output, Error>(x0), m1), B::parses(m1, Ok::<B::Output, Error>(x1), m2), C::parses(m2, Ok::<C::Output, Error>(x2), m3), D::parses(m3, Ok::<D::Output, Error>(x3), m4), E::parses(m4, Ok::<E::Output, Error>(x4), m5), F::parses(m5, Ok::<F::Output, Error>(x5), m6), G::parses(m6, Ok::<G::Output, Error>(x6), m7), H::parses(m7, Ok::<H::Output, Error>(x7), m8), I::parses(m8, Ok::<I::Output, Error>(x8), m9), J::parses(m9, Ok::<J::Output, Error>(x9), m10), K::parses(m10, Ok::<K::Output, Error>(x10), m11), L::parses(m11, Ok::<L::Output, Error>(x11), m12), M::parses(m12, Ok::<M::Output, Error>(x12), m13), N::parses(m13, Err::<N::Output, Error>(e), after)]
                A::parses(before, Ok::<A::Output, Error>(x0), m1) && B::parses(m1, Ok::<B::Output, Error>(x1), m2) && C::parses(m2, Ok::<C::Output, Error>(x2), m3) && D::parses(m3, Ok::<D::Output, Error>(x3), m4) && E::parses(m4, Ok::<E::Output, Error>(x4), m5) && F::parses(m5, Ok::<F::Output, Error>(x5), m6) && G::parses(m6, Ok::<G::Output, Error>(x6), m7) && H::parses(m7, Ok::<H::Output, Error>(x7), m8) && I::parses(m8, Ok::<I::Output, Error>(x8), m9) && J::parses(m9, Ok::<J::Output, Error>(x9), m10) && K::parses(m10, Ok::<K::Output, Error>(x10), m11) && L::parses(m11, Ok::<L::Output, Error>(x11), m12) && M::parses(m12, Ok::<M::Output, Error>(x12), m13) && N::parses(m13, Err::<N::Output, Error>(e), after)),
{
    let (r, mid) = choose|r: Result<(A::Output, B::Output, C::Output, D::Output, E::Output, F::Output, G::Output, H::Output, I::Output, J::Output, K::Output, L::Output, M::Output), Error>, mid: StreamState|
        #[trigger] <(A, B, C, D, E, F, G, H, I, J, K, L, M) as FromStream>::parses(before, r, mid) && then_parses::<(A::Output, B::Output, C::Output, D::Output, E::Output, F::Output, G::Output, H::Output, I::Output, J::Output, K::Output, L::Output, M::Output), N, (A::Output, B::Output, C::Output, D::Output, E::Output, F::Output, G::Output, H::Output, I::Output, J::Output, K::Output, L::Output, M::Output, N::Output)>(
            r,
            mid,
            res,
            after,
            |p: (A::Output, B::Output, C::Output, D::Output, E::Output, F::Output, G::Output, H::Output, I::Output, J::Output, K::Output, L::Output, M::Output), l: N::Output| (p.0, p.1, p.2, p.3, p.4, p.5, p.6, p.7, p.8, p.9, p.10, p.11, p.12, l),
        );
    law_tuple13_parses_in_turn::<A, B, C, D, E, F, G, H, I, J, K, L, M>(before, r, mid);
    if let Ok(p) = r {
        let rl = choose|rl: Result<N::Output, Error>|
            #[trigger] N::parses(mid, rl, after) && match rl {
                Err(e) => res == Err::<(A::Output, B::Output, C::Output, D::Output, E::Output, F::Output, G::Output, H::Output, I::Output, J::Output, K::Output, L::Output, M::Output, N::Output), Error>(e),
                Ok(l) => res == Ok::<(A::Output, B::Output, C::Output, D::Output, E::Output, F::Output, G::Output, H::Output, I::Output, J::Output, K::Output, L::Output, M::Output, N::Output), Error>((|p: (A::Output, B::Output, C::Output, D::Output, E::Output, F::Output, G::Output, H::Output, I::Output, J::Output, K::Output, L::Output, M::Output), l: N::Output| (p.0, p.1, p.2, p.3, p.4, p.5, p.6, p.7, p.8, p.9, p.10, p.11, p.12, l))(p, l)),
            };
        if let Ok(l) = rl {
            let (m1, m2, m3, m4, m5, m6, m7, m8, m9, m10, m11, m12) = choose|m1: StreamState, m2: StreamState, m3: StreamState, m4: StreamState, m5: StreamState, m6: StreamState, m7: StreamState, m8: StreamState, m9: StreamState, m10: StreamState, m11: StreamState, m12: StreamState| A::parses(before, Ok::<A::Output, Error>(p.0), m1) && B::parses(m1, Ok::<B::Output, Error>(p.1), m2) && C::parses(m2, Ok::<C::Output, Error>(p.2), m3) && D::parses(m3, Ok::<D::Output, Error>(p.3), m4) && E::parses(m4, Ok::<E::Output, Error>(p.4), m5) && F::parses(m5, Ok::<F::Output, Error>(p.5), m6) && G::parses(m6, Ok::<G::Output, Error>(p.6), m7) && H::parses(m7, Ok::<H::Output, Error>(p.7), m8) && I::parses(m8, Ok::<I::Output, Error>(p.8), m9) && J::parses(m9, Ok::<J::Output, Error>(p.9), m10) && K::parses(m10, Ok::<K::Output, Error>(p.10), m11) && L::parses(m11, Ok::<L::Output, Error>(p.11), m12) && M::parses(m12, Ok::<M::Output, Error>(p.12), mid);
            if let Ok(v) = res {
                assert(v.0 == p.0 && v.1 == p.1 && v.2 == p.2 && v.3 == p.3 && v.4 == p.4 && v.5 == p.5 && v.6 == p.6 && v.7 == p.7 && v.8 == p.8 && v.9 == p.9 && v.10 == p.10 && v.11 == p.11 && v.12 == p.12 && v.13 == l);
                assert(A::parses(before, Ok::<A::Output, Error>(v.0), m1) && B::parses(m1, Ok::<B::Output, Error>(v.1), m2) && C::parses(m2, Ok::<C::Output, Error>(v.2), m3) && D::parses(m3, Ok::<D::Output, Error>(v.3), m4) && E::parses(m4, Ok::<E::Output, Error>(v.4), m5) && F::parses(m5, Ok::<F::Output, Error>(v.5), m6) && G::parses(m6, Ok::<G::Output, Error>(v.6), m7) && H::parses(m7, Ok::<H::Output, Error>(v.7), m8) && I::parses(m8, Ok::<I::Output, Error>(v.8), m9) && J::parses(m9, Ok::<J::Output, Error>(v.9), m10) && K::parses(m10, Ok::<K::Output, Error>(v.10), m11) && L::parses(m11, Ok::<L::Output, Error>(v.11), m12) && M::parses(m12, Ok::<M::Output, Error>(v.12), mid) && N::parses(mid, Ok::<N::Output, Error>(v.13), after));
            }
        }
        if let Err(e) = rl {
            let (m1, m2, m3, m4, m5, m6, m7, m8, m9, m10, m11, m12) = choose|m1: StreamState, m2: StreamState, m3: StreamState, m4: StreamState, m5: StreamState, m6: StreamState, m7: StreamState, m8: StreamState, m9: StreamState, m10: StreamState, m11: StreamState, m12: StreamState| A::parses(before, Ok::<A::Output, Error>(p.0), m1) && B::parses(m1, Ok::<B::Output, Error>(p.1), m2) && C::parses(m2, Ok::<C::Output, Error>(p.2), m3) && D::parses(m3, Ok::<D::Output, Error>(p.3), m4) && E::parses(m4, Ok::<E::Output, Error>(p.4), m5) && F::parses(m5, Ok::<F::Output, Error>(p.5), m6) && G::parses(m6, Ok::<G::Output, Error>(p.6), m7) && H::parses(m7, Ok::<H::Output, Error>(p.7), m8) && I::parses(m8, Ok::<I::Output, Error>(p.8), m9) && J::parses(m9, Ok::<J::Output, Error>(p.9), m10) && K::parses(m10, Ok::<K::Output, Error>(p.10), m11) && L::parses(m11, Ok::<L::Output, Error>(p.11), m12) && M::parses(m12, Ok::<M::Output, Error>(p.12), mid);
            assert(A::parses(before, Ok::<A::Output, Error>(p.0), m1) && B::parses(m1, Ok::<B::Output, Error>(p.1), m2) && C::parses(m2, Ok::<C::Output, Error>(p.2), m3) && D::parses(m3, Ok::<D::Output, Error>(p.3), m4) && E::parses(m4, Ok::<E::Output, Error>(p.4), m5) && F::parses(m5, Ok::<F::Output, Error>(p.5), m6) && G::parses(m6, Ok::<G::Output, Error>(p.6), m7) && H::parses(m7, Ok::<H::Output, Error>(p.7), m8) && I::parses(m8, Ok::<I::Output, Error>(p.8), m9) && J::parses(m9, Ok::<J::Output, Error>(p.9), m10) && K::parses(m10, Ok::<K::Output, Error>(p.10), m11) && L::parses(m11, Ok::<L::Output, Error>(p.11), m12) && M::parses(m12, Ok::<M::Output, Error>(p.12), mid) && N::parses(mid, Err::<N::Output, Error>(e), after));
        }
    }
}

/// A tuple of 15 parsers parses its parts one after the other: each part
/// parses from where the part before it left the stream, and the tuple gives
/// all their values; or it fails as the first part that fails, leaving the
/// stream where that part left it.
#[verifier::spinoff_prover]
pub proof fn law_tuple15_parses_in_turn<A: FromStream, B: FromStream, C: FromStream, D: FromStream, E: FromStream, F: FromStream, G: FromStream, H: FromStream, I: FromStream, J: FromStream, K: FromStream, L: FromStream, M: FromStream, N: FromStream, O: FromStream>(before: StreamState, res: Result<<(A, B, C, D, E, F, G, H, I, J, K, L, M, N, O) as FromStream>::Output, Error>, after: StreamState)
    requires
        <(A, B, C, D, E, F, G, H, I, J, K, L, M, N, O) as FromStream>::parses(before, res, after),
    ensures
        res matches Ok(v) ==> exists|m1: StreamState, m2: StreamState, m3: StreamState, m4: StreamState, m5: StreamState, m6: StreamState, m7: StreamState, m8: StreamState, m9: StreamState, m10: StreamState, m11: StreamState, m12: StreamState, m13: StreamState, m14: StreamState|
            #![trigger A::parses(before, Ok::<A::Output, Error>(v.0), m1), B::parses(m1, Ok::<B::Output, Error>(v.1), m2), C::parses(m2, Ok::<C::Output, Error>(v.2), m3), D::parses(m3, Ok::<D::Output, Error>(v.3), m4), E::parses(m4, Ok::<E::Output, Error>(v.4), m5), F::parses(m5, Ok::<F::Output, Error>(v.5), m6), G::parses(m6, Ok::<G::Output, Error>(v.6), m7), H::parses(m7, Ok::<H::Output, Error>(v.7), m8), I::parses(m8, Ok::<I::Output, Error>(v.8), m9), J::parses(m9, Ok::<J::Output, Error>(v.9), m10), K::parses(m10, Ok::<K::Output, Error>(v.10), m11), L::parses(m11, Ok::<L::Output, Error>(v.11), m12), M::parses(m12, Ok::<M::Output, Error>(v.12), m13), N::parses(m13, Ok::<N::Output, Error>(v.13), m14), O::parses(m14, Ok::<O::Output, Error>(v.14), after)]
            A::parses(before, Ok::<A::Output, Error>(v.0), m1) && B::parses(m1, Ok::<B::Output, Error>(v.1), m2) && C::parses(m2, Ok::<C::Output, Error>(v.2), m3) && D::parses(m3, Ok::<D::Output, Error>(v.3), m4) && E::parses(m4, Ok::<E::Output, Error>(v.4), m5) && F::parses(m5, Ok::<F::Output, Error>(v.5), m6) && G::parses(m6, Ok::<G::Output, Error>(v.6), m7) && H::parses(m7, Ok::<H::Output, Error>(v.7), m8) && I::parses(m8, Ok::<I::Output, Error>(v.8), m9) && J::parses(m9, Ok::<J::Output, Error>(v.9), m10) && K::parses(m10, Ok::<K::Output, Error>(v.10), m11) && L::parses(m11, Ok::<L::Output, Error>(v.11), m12) && M::parses(m12, Ok::<M::Output, Error>(v.12), m13) && N::parses(m13, Ok::<N::Output, Error>(v.13), m14) && O::parses(m14, Ok::<O::Output, Error>(v.14), after),
        res matches Err(e) ==>
            (A::parses(before, Err::<A::Output, Error>(e), after))
            || (exists|x0: A::Output, m1: StreamState|
                #![trigger A::parses(before, Ok::<A::Output, Error>(x0), m1), B::parses(m1, Err::<B::Output, Error>(e), after)]
                A::parses(before, Ok::<A::Output, Error>(x0), m1) && B::parses(m1, Err::<B::Output, Error>(e), after))
            || (exists|x0: A::Output, m1: StreamState, x1: B::Output, m2: StreamState|
                #![trigger A::parses(before, Ok::<A::Output, Error>(x0), m1), B::parses(m1, Ok::<B::Output, Error>(x1), m2), C::parses(m2, Err::<C::Output, Error>(e), after)]
                A::parses(before, Ok::<A::Output, Error>(x0), m1) && B::parses(m1, Ok::<B::Output, Error>(x1), m2) && C::parses(m2, Err::<C::Output, Error>(e), after))
            || (exists|x0: A::Output, m1: StreamState, x1: B::Output, m2: StreamState, x2: C::Output, m3: StreamState|
                #![trigger A::parses(before, Ok::<A::Output, Error>(x0), m1), B::parses(m1, Ok::<B::Output, Error>(x1), m2), C::parses(m2, Ok::<C::Output, Error>(x2), m3), D::parses(m3, Err::<D::Output, Error>(e), after)]
                A::parses(before, Ok::<A::Output, Error>(x0), m1) && B::parses(m1, Ok::<B::Output, Error>(x1), m2) && C::parses(m2, Ok::<C::Output, Error>(x2), m3) && D::parses(m3, Err::<D::Output, Error>(e), after))
            || (exists|x0: A::Output, m1: StreamState, x1: B::Output, m2: StreamState, x2: C::Output, m3: StreamState, x3: D::Output, m4: StreamState|
                #![trigger A::parses(before, Ok::<A::Output, Error>(x0), m1), B::parses(m1, Ok::<B::Output, Error>(x1), m2), C::parses(m2, Ok::<C::Output, Error>(x2), m3), D::parses(m3, Ok::<D::Output, Error>(x3), m4), E::parses(m4, Err::<E::Output, Error>(e), after)]
                A::parses(before, Ok::<A::Output, Error>(x0), m1) && B::parses(m1, Ok::<B::Output, Error>(x1), m2) && C::parses(m2, Ok::<C::Output, Error>(x2), m3) && D::parses(m3, Ok::<D::Output, Error>(x3), m4) && E::parses(m4, Err::<E::Output, Error>(e), after))
            || (exists|x0: A::Output, m1: StreamState, x1: B::Output, m2: StreamState, x2: C::Output, m3: StreamState, x3: D::Output, m4: StreamState, x4: E::Output, m5: StreamState|
                #![trigger A::parses(before, Ok::<A::Output, Error>(x0), m1), B::parses(m1, Ok::<B::Output, Error>(x1), m2), C::parses(m2, Ok::<C::Output, Error>(x2), m3), D::parses(m3, Ok::<D::Output, Error>(x3), m4), E::parses(m4, Ok::<E::Output, Error>(x4), m5), F::parses(m5, Err::<F::Output, Error>(e), after)]
                A::parses(before, Ok::<A::Output, Error>(x0), m1) && B::parses(m1, Ok::<B::Output, Error>(x1), m2) && C::parses(m2, Ok::<C::Output, Error>(x2), m3) && D::parses(m3, Ok::<D::Output, Error>(x3), m4) && E::parses(m4, Ok::<E::Output, Error>(x4), m5) && F::parses(m5, Err::<F::Output, Error>(e), after))
            || (exists|x0: A::Output, m1: StreamState, x1: B::Output, m2: StreamState, x2: C::Output, m3: StreamState, x3: D::Output, m4: StreamState, x4: E::Output, m5: StreamState, x5: F::Output, m6: StreamState|
                #![trigger A::parses(before, Ok::<A::Output, Error>(x0), m1), B::parses(m1, Ok::<B::Output, Error>(x1), m2), C::parses(m2, Ok::<C::Output, Error>(x2), m3), D::parses(m3, Ok::<D::Output, Error>(x3), m4), E::parses(m4, Ok::<E::Output, Error>(x4), m5), F::parses(m5, Ok::<F::Output, Error>(x5), m6), G::parses(m6, Err::<G::Output, Error>(e), after)]
                A::parses(before, Ok::<A::Output, Error>(x0), m1) && B::parses(m1, Ok::<B::Output, Error>(x1), m2) && C::parses(m2, Ok::<C::Output, Error>(x2), m3) && D::parses(m3, Ok::<D::Output, Error>(x3), m4) && E::parses(m4, Ok::<E::Output, Error>(x4), m5) && F::parses(m5, Ok::<F::Output, Error>(x5), m6) && G::parses(m6, Err::<G::Output, Error>(e), after))
            || (exists|x0: A::Output, m1: StreamState, x1: B::Output, m2: StreamState, x2: C::Output, m3: StreamState, x3: D::Output, m4: StreamState, x4: E::Output, m5: StreamState, x5: F::Output, m6: StreamState, x6: G::Output, m7: StreamState|
                #![trigger A::parses(before, Ok::<A::Output, Error>(x0), m1), B::parses(m1, Ok::<B::Output, Error>(x1), m2), C::parses(m2, Ok::<C::Output, Error>(x2), m3), D::parses(m3, Ok::<D::Output, Error>(x3), m4), E::parses(m4, Ok::<E::Output, Error>(x4), m5), F::parses(m5, Ok::<F::Output, Error>(x5), m6), G::parses(m6, Ok::<G::Output, Error>(x6), m7), H::parses(m7, Err::<H::Output, Error>(e), after)]
                A::parses(before, Ok::<A::Output, Error>(x0), m1) && B::parses(m1, Ok::<B::Output, Error>(x1), m2) && C::parses(m2, Ok::<C::Output, Error>(x2), m3) && D::parses(m3, Ok::<D::Output, Error>(x3), m4) && E::parses(m4, Ok::<E::Output, Error>(x4), m5) && F::parses(m5, Ok::<F::Output, Error>(x5), m6) && G::parses(m6, Ok::<G::Output, Error>(x6), m7) && H::parses(m7, Err::<H::Output, Error>(e), after))
            || (exists|x0: A::Output, m1: StreamState, x1: B::Output, m2: StreamState, x2: C::Output, m3: StreamState, x3: D::Output, m4: StreamState, x4: E::Output, m5: StreamState, x5: F::Output, m6: StreamState, x6: G::Output, m7: StreamState, x7: H::Output, m8: StreamState|
                #![trigger A::parses(before, Ok::<A::Output, Error>(x0), m1), B::parses(m1, Ok::<B::Output, Error>(x1), m2), C::parses(m2, Ok::<C::Output, Error>(x2), m3), D::parses(m3, Ok::<D::Output, Error>(x3), m4), E::parses(m4, Ok::<E::Output, Error>(x4), m5), F::parses(m5, Ok::<F::Output, Error>(x5), m6), G::parses(m6, Ok::<G::Output, Error>(x6), m7), H::parses(m7, Ok::<H::Output, Error>(x7), m8), I::parses(m8, Err::<I::Output, Error>(e), after)]
                A::parses(before, Ok::<A::Output, Error>(x0), m1) && B::parses(m1, Ok::<B::Output, Error>(x1), m2) && C::parses(m2, Ok::<C::Output, Error>(x2), m3) && D::parses(m3, Ok::<D::Output, Error>(x3), m4) && E::parses(m4, Ok::<E::Output, Error>(x4), m5) && F::parses(m5, Ok::<F::Output, Error>(x5), m6) && G::parses(m6, Ok::<G::Output, Error>(x6), m7) && H::parses(m7, Ok::<H::Output, Error>(x7), m8) && I::parses(m8, Err::<I::Output, Error>(e), after))
            || (exists|x0: A::Output, m1: StreamState, x1: B::Output, m2: StreamState, x2: C::Output, m3: StreamState, x3: D::Output, m4: StreamState, x4: E::Output, m5: StreamState, x5: F::Output, m6: StreamState, x6: G::Output, m7: StreamState, x7: H::Output, m8: StreamState, x8: I::Output, m9: StreamState|
                #![trigger A::parses(before, Ok::<A::Output, Error>(x0), m1), B::parses(m1, Ok::<B::Output, Error>(x1), m2), C::parses(m2, Ok::<C::Output, Error>(x2), m3), D::parses(m3, Ok::<D::Output, Error>(x3), m4), E::parses(m4, Ok::<E::Output, Error>(x4), m5), F::parses(m5, Ok::<F::Output, Error>(x5), m6), G::parses(m6, Ok::<G::Output, Error>(x6), m7), H::parses(m7, Ok::<H::Output, Error>(x7), m8), I::parses(m8, Ok::<I::Output, Error>(x8), m9), J::parses(m9, Err::<J::Output, Error>(e), after)]
                A::parses(before, Ok::<A::Output, Error>(x0), m1) && B::parses(m1, Ok::<B::Output, Error>(x1), m2) && C::parses(m2, Ok::<C::Output, Error>(x2), m3) && D::parses(m3, Ok::<D::Output, Error>(x3), m4) && E::parses(m4, Ok::<E::Output, Error>(x4), m5) && F::parses(m5, Ok::<F::Output, Error>(x5), m6) && G::parses(m6, Ok::<G::Output, Error>(x6), m7) && H::parses(m7, Ok::<H::Output, Error>(x7), m8) && I::parses(m8, Ok::<I::Output, Error>(x8), m9) && J::parses(m9, Err::<J::Output, Error>(e), after))
            || (exists|x0: A::Output, m1: StreamState, x1: B::Output, m2: StreamState, x2: C::Output, m3: StreamState, x3: D::Output, m4: StreamState, x4: E::Output, m5: StreamState, x5: F::Output, m6: StreamState, x6: G::Output, m7: StreamState, x7: H::Output, m8: StreamState, x8: I::Output, m9: StreamState, x9: J::Output, m10: StreamState|
                #![trigger A::parses(before, Ok::<A::Output, Error>(x0), m1), B::parses(m1, Ok::<B::Output, Error>(x1), m2), C::parses(m2, Ok::<C::Output, Error>(x2), m3), D::parses(m3, Ok::<D::Output, Error>(x3), m4), E::parses(m4, Ok::<E::Output, Error>(x4), m5), F::parses(m5, Ok::<F::Output, Error>(x5), m6), G::parses(m6, Ok::<G::Output, Error>(x6), m7), H::parses(m7, Ok::<H::Output, Error>(x7), m8), I::parses(m8, Ok::<I::Output, Error>(x8), m9), J::parses(m9, Ok::<J::Output, Error>(x9), m10), K::parses(m10, Err::<K::Output, Error>(e), after)]
                A::parses(before, Ok::<A::Output, Error>(x0), m1) && B::parses(m1, Ok::<B::Output, Error>(x1), m2) && C::parses(m2, Ok::<C::Output, Error>(x2), m3) && D::parses(m3, Ok::<D::Output, Error>(x3), m4) && E::parses(m4, Ok::<E::Output, Error>(x4), m5) && F::parses(m5, Ok::<F::Output, Error>(x5), m6) && G::parses(m6, Ok::<G::Output, Error>(x6), m7) && H::parses(m7, Ok::<H::Output, Error>(x7), m8) && I::parses(m8, Ok::<I::Output, Error>(x8), m9) && J::parses(m9, Ok::<J::Output, Error>(x9), m10) && K::parses(m10, Err::<K::Output, Error>(e), after))
            || (exists|x0: A::Output, m1: StreamState, x1: B::Output, m2: StreamState, x2: C::Output, m3: StreamState, x3: D::Output, m4: StreamState, x4: E::Output, m5: StreamState, x5: F::Output, m6: StreamState, x6: G::Output, m7: StreamState, x7: H::Output, m8: StreamState, x8: I::Output, m9: StreamState, x9: J::Output, m10: StreamState, x10: K::Output, m11: StreamState|
                #![trigger A::parses(before, Ok::<A::Output, Error>(x0), m1), B::parses(m1, Ok::<B::Output, Error>(x1), m2), C::parses(m2, Ok::<C::Output, Error>(x2), m3), D::parses(m3, Ok::<D::Output, Error>(x3), m4), E::parses(m4, Ok::<E::Output, Error>(x4), m5), F::parses(m5, Ok::<F::Output, Error>(x5), m6), G::parses(m6, Ok::<G::Output, Error>(x6), m7), H::parses(m7, Ok::<H::Output, Error>(x7), m8), I::parses(m8, Ok::<I::Output, Error>(x8), m9), J::parses(m9, Ok::<J::Output, Error>(x9), m10), K::parses(m10, Ok::<K::Output, Error>(x10), m11), L::parses(m11, Err::<L::Output, Error>(e), after)]
                A::parses(before, Ok::<A::Output, Error>(x0), m1) && B::parses(m1, Ok::<B::Output, Error>(x1), m2) && C::parses(m2, Ok::<C::Output, Error>(x2), m3) && D::parses(m3, Ok::<D::Output, Error>(x3), m4) && E::parses(m4, Ok::<E::Output, Error>(x4), m5) && F::parses(m5, Ok::<F::Output, Error>(x5), m6) && G::parses(m6, Ok::<G::Output, Error>(x6), m7) && H::parses(m7, Ok::<H::Output, Error>(x7), m8) && I::parses(m8, Ok::<I::Output, Error>(x8), m9) && J::parses(m9, Ok::<J::Output, Error>(x9), m10) && K::parses(m10, Ok::<K::Output, Error>(x10), m11) && L::parses(m11, Err::<L::Output, Error>(e), after))
            || (exists|x0: A::Output, m1: StreamState, x1: B::Output, m2: StreamState, x2: C::Output, m3: StreamState, x3: D::Output, m4: StreamState, x4: E::Output, m5: StreamState, x5: F::Output, m6: StreamState, x6: G::Output, m7: StreamState, x7: H::Output, m8: StreamState, x8: I::Output, m9: StreamState, x9: J::Output, m10: StreamState, x10: K::Output, m11: StreamState, x11: L::Output, m12: StreamState|
                #![trigger A::parses(before, Ok::<A::Output, Error>(x0), m1), B::parses(m1, Ok::<B::Output, Error>(x1), m2), C::parses(m2, Ok::<C::Output, Error>(x2), m3), D::parses(m3, Ok::<D::Output, Error>(x3), m4), E::parses(m4, Ok::<E::Output, Error>(x4), m5), F::parses(m5, Ok::<F::Output, Error>(x5), m6), G::parses(m6, Ok::<G::Output, Error>(x6), m7), H::parses(m7, Ok::<H::Output, Error>(x7), m8), I::parses(m8, Ok::<I::Output, Error>(x8), m9), J::parses(m9, Ok::<J::Output, Error>(x9), m10), K::parses(m10, Ok::<K::Output, Error>(x10), m11), L::parses(m11, Ok::<L::Output, Error>(x11), m12), M::parses(m12, Err::<M::Output, Error>(e), after)]
                A::parses(before, Ok::<A::Output, Error>(x0), m1) && B::parses(m1, Ok::<B::Output, Error>(x1), m2) && C::parses(m2, Ok::<C::Output, Error>(x2), m3) && D::parses(m3, Ok::<D::Output, Error>(x3), m4) && E::parses(m4, Ok::<E::Output, Error>(x4), m5) && F::parses(m5, Ok::<F::Output, Error>(x5), m6) && G::parses(m6, Ok::<G::Output, Error>(x6), m7) && H::parses(m7, Ok::<H::Output, Error>(x7), m8) && I::parses(m8, Ok::<I::Output, Error>(x8), m9) && J::parses(m9, Ok::<J::Output, Error>(x9), m10) && K::parses(m10, Ok::<K::Output, Error>(x10), m11) && L::parses(m11, Ok::<L::Output, Error>(x11), m12) && M::parses(m12, Err::<M::Output, Error>(e), after))
            || (exists|x0: A::Output, m1: StreamState, x1: B::Output, m2: StreamState, x2: C::Output, m3: StreamState, x3: D::Output, m4: StreamState, x4: E::Output, m5: StreamState, x5: F::Output, m6: StreamState, x6: G::Output, m7: StreamState, x7: H::Output, m8: StreamState, x8: I::Output, m9: StreamState, x9: J::Output, m10: StreamState, x10: K::Output, m11: StreamState, x11: L::Output, m12: StreamState, x12: M::Output, m13: StreamState|
                #![trigger A::parses(before, Ok::<A::Output, Error>(x0), m1), B::parses(m1, Ok::<B::Output, Error>(x1), m2), C::parses(m2, Ok::<C::Output, Error>(x2), m3), D::parses(m3, Ok::<D::Output, Error>(x3), m4), E::parses(m4, Ok::<E::Output, Error>(x4), m5), F::parses(m5, Ok::<F::Output, Error>(x5), m6), G::parses(m6, Ok::<G::Output, Error>(x6), m7), H::parses(m7, Ok::<H::Output, Error>(x7), m8), I::parses(m8, Ok::<I::Output, Error>(x8), m9), J::parses(m9, Ok::<J::Output, Error>(x9), m10), K::parses(m10, Ok::<K::Output, Error>(x10), m11), L::parses(m11, Ok::<L::Output, Error>(x11), m12), M::parses(m12, Ok::<M::Output, Error>(x12), m13), N::parses(m13, Err::<N::Output, Error>(e), after)]
                A::parses(before, Ok::<A::Output, Error>(x0), m1) && B::parses(m1, Ok::<B::Output, Error>(x1), m2) && C::parses(m2, Ok::<C::Output, Error>(x2), m3) && D::parses(m3, Ok::<D::Output, Error>(x3), m4) && E::parses(m4, Ok::<E::Output, Error>(x4), m5) && F::parses(m5, Ok::<F::Output, Error>(x5), m6) && G::parses(m6, Ok::<G::Output, Error>(x6), m7) && H::parses(m7, Ok::<H::Output, Error>(x7), m8) && I::parses(m8, Ok::<I::Output, Error>(x8), m9) && J::parses(m9, Ok::<J::Output, Error>(x9), m10) && K::parses(m10, Ok::<K::Output, Error>(x10), m11) && L::parses(m11, Ok::<L::Output, Error>(x11), m12) && M::parses(m12, Ok::<M::Output, Error>(x12), m13) && N::parses(m13, Err::<N::Output, Error>(e), after))
            || (exists|x0: A::Output, m1: StreamState, x1: B::Output, m2: StreamState, x2: C::Output, m3: StreamState, x3: D::Output, m4: StreamState, x4: E::Output, m5: StreamState, x5: F::Output, m6: StreamState, x6: G::Output, m7: StreamState, x7: H::Output, m8: StreamState, x8: I::Output, m9: StreamState, x9: J::Output, m10: StreamState, x10: K::Output, m11: StreamState, x11: L::Output, m12: StreamState, x12: M::Output, m13: StreamState, x13: N::Output, m14: StreamState|
                #![trigger A::parses(before, Ok::<A::Output, Error>(x0), m1), B::parses(m1, Ok::<B::Output, Error>(x1), m2), C::parses(m2, Ok::<C::Output, Error>(x2), m3), D::parses(m3, Ok::<D::Output, Error>(x3), m4), E::parses(m4, Ok::<E::Output, Error>(x4), m5), F::parses(m5, Ok::<F::Output, Error>(x5), m6), G::parses(m6, Ok::<G::Output, Error>(x6), m7), H::parses(m7, Ok::<H::Output, Error>(x7), m8), I::parses(m8, Ok::<I::Output, Error>(x8), m9), J::parses(m9, Ok::<J::Output, Error>(x9), m10), K::parses(m10, Ok::<K::Output, Error>(x10), m11), L::parses(m11, Ok::<L::Output, Error>(x11), m12), M::parses(m12, Ok::<M::Output, Error>(x12), m13), N::parses(m13, Ok::<N::Output, Error>(x13), m14), O::parses(m14, Err::<O::Output, Error>(e), after)]
                A::parses(before, Ok::<A::Output, Error>(x0), m1) && B::parses(m1, Ok::<B::Output, Error>(x1), m2) && C::parses(m2, Ok::<C::Output, Error>(x2), m3) && D::parses(m3, Ok::<D::Output, Error>(x3), m4) && E::parses(m4, Ok::<E::Output, Error>(x4), m5) && F::parses(m5, Ok::<F::Output, Error>(x5), m6) && G::parses(m6, Ok::<G::Output, Error>(x6), m7) && H::parses(m7, Ok::<H::Output, Error>(x7), m8) && I::parses(m8, Ok::<I::Output, Error>(x8), m9) && J::parses(m9, Ok::<J::Output, Error>(x9), m10) && K::parses(m10, Ok::<K::Output, Error>(x10), m11) && L::parses(m11, Ok::<L::Output, Error>(x11), m12) && M::parses(m12, Ok::<M::Output, Error>(x12), m13) && N::parses(m13, Ok::<N::Output, Error>(x13), m14) && O::parses(m14, Err::<O::Output, Error>(e), after)),
{
    let (r, mid) = choose|r: Result<(A::Output, B::Output, C::Output, D::Output, E::Output, F::Output, G::Output, H::Output, I::Output, J::Output, K::Output, L::Output, M::Output, N::Output), Error>, mid: StreamState|
        #[trigger] <(A, B, C, D, E, F, G, H, I, J, K, L, M, N) as FromStream>::parses(before, r, mid) && then_parses::<(A::Output, B::Output, C::Output, D::Output, E::Output, F::Output, G::Output, H::Output, I::Output, J::Output, K::Output, L::Output, M::Output, N::Output), O, (A::Output, B::Output, C::Output, D::Output, E::Output, F::Output, G::Output, H::Output, I::Output, J::Output, K::Output, L::Output, M::Output, N::Output, O::Output)>(
            r,
            mid,
            res,
            after,
            |p: (A::Output, B::Output, C::Output, D::Output, E::Output, F::Output, G::Output, H::Output, I::Output, J::Output, K::Output, L::Output, M::Output, N::Output), l: O::Output| (p.0, p.1, p.2, p.3, p.4, p.5, p.6, p.7, p.8, p.9, p.10, p.11, p.12, p.13, l),
        );
    law_tuple14_parses_in_turn::<A, B, C, D, E, F, G, H, I, J, K, L, M, N>(before, r, mid);
    if let Ok(p) = r {
        let rl = choose|rl: Result<O::Output, Error>|
            #[trigger] O::parses(mid, rl, after) && match rl {
                Err(e) => res == Err::<(A::Output, B::Output, C::Output, D::Output, E::Output, F::Output, G::Output, H::Output, I::Output, J::Output, K::Output, L::Output, M::Output, N::Output, O::Output), Error>(e),
                Ok(l) => res == Ok::<(A::Output, B::Output, C::Output, D::Output, E::Output, F::Output, G::Output, H::Output, I::Output, J::Output, K::Output, L::Output, M::Output, N::Output, O::Output), Error>((|p: (A::Output, B::Output, C::Output, D::Output, E::Output, F::Output, G::Output, H::Output, I::Output, J::Output, K::Output, L::Output, M::Output, N::Output), l: O::Output| (p.0, p.1, p.2, p.3, p.4, p.5, p.6, p.7, p.8, p.9, p.10, p.11, p.12, p.13, l))(p, l)),
            };
        if let Ok(l) = rl {
            let (m1, m2, m3, m4, m5, m6, m7, m8, m9, m10, m11, m12, m13) = choose|m1: StreamState, m2: StreamState, m3: StreamState, m4: StreamState, m5: StreamState, m6: StreamState, m7: StreamState, m8: StreamState, m9: StreamState, m10: StreamState, m11: StreamState, m12: StreamState, m13: StreamState| A::parses(before, Ok::<A::Output, Error>(p.0), m1) && B::parses(m1, Ok::<B::Output, Error>(p.1), m2) && C::parses(m2, Ok::<C::Output, Error>(p.2), m3) && D::parses(m3, Ok::<D::Output, Error>(p.3), m4) && E::parses(m4, Ok::<E::Output, Error>(p.4), m5) && F::parses(m5, Ok::<F::Output, Error>(p.5), m6) && G::parses(m6, Ok::<G::Output, Error>(p.6), m7) && H::parses(m7, Ok::<H::Output, Error>(p.7), m8) && I::parses(m8, Ok::<I::Output, Error>(p.8), m9) && J::parses(m9, Ok::<J::Output, Error>(p.9), m10) && K::parses(m10, Ok::<K::Output, Error>(p.10), m11) && L::parses(m11, Ok::<L::Output, Error>(p.11), m12) && M::parses(m12, Ok::<M::Output, Error>(p.12), m13) && N::parses(m13, Ok::<N::Output, Error>(p.13), mid);
            if let Ok(v) = res {
                assert(v.0 == p.0 && v.1 == p.1 && v.2 == p.2 && v.3 == p.3 && v.4 == p.4 && v.5 == p.5 && v.6 == p.6 && v.7 == p.7 && v.8 == p.8 && v.9 == p.9 && v.10 == p.10 && v.11 == p.11 && v.12 == p.12 && v.13 == p.13 && v.14 == l);
                assert(A::parses(before, Ok::<A::Output, Error>(v.0), m1) && B::parses(m1, Ok::<B::Output, Error>(v.1), m2) && C::parses(m2, Ok::<C::Output, Error>(v.2), m3) && D::parses(m3, Ok::<D::Output, Error>(v.3), m4) && E::parses(m4, Ok::<E::Output, Error>(v.4), m5) && F::parses(m5, Ok::<F::Output, Error>(v.5), m6) && G::parses(m6, Ok::<G::Output, Error>(v.6), m7) && H::parses(m7, Ok::<H::Output, Error>(v.7), m8) && I::parses(m8, Ok::<I::Output, Error>(v.8), m9) && J::parses(m9, Ok::<J::Output, Error>(v.9), m10) && K::parses(m10, Ok::<K::Output, Error>(v.10), m11) && L::parses(m11, Ok::<L::Output, Error>(v.11), m12) && M::parses(m12, Ok::<M::Output, Error>(v.12), m13) && N::parses(m13, Ok::<N::Output, Error>(v.13), mid) && O::parses(mid, Ok::<O::Output, Error>(v.14), after));
            }
        }
        if let Err(e) = rl {
            let (m1, m2, m3, m4, m5, m6, m7, m8, m9, m10, m11, m12, m13) = choose|m1: StreamState, m2: StreamState, m3: StreamState, m4: StreamState, m5: StreamState, m6: StreamState, m7: StreamState, m8: StreamState, m9: StreamState, m10: StreamState, m11: StreamState, m12: StreamState, m13: StreamState| A::parses(before, Ok::<A::Output, Error>(p.0), m1) && B::parses(m1, Ok::<B::Output, Error>(p.1), m2) && C::parses(m2, Ok::<C::Output, Error>(p.2), m3) && D::parses(m3, Ok::<D::Output, Error>(p.3), m4) && E::parses(m4, Ok::<E::Output, Error>(p.4), m5) && F::parses(m5, Ok::<F::Output, Error>(p.5), m6) && G::parses(m6, Ok::<G::Output, Error>(p.6), m7) && H::parses(m7, Ok::<H::Output, Error>(p.7), m8) && I::parses(m8, Ok::<I::Output, Error>(p.8), m9) && J::parses(m9, Ok::<J::Output, Error>(p.9), m10) && K::parses(m10, Ok::<K::Output, Error>(p.10), m11) && L::parses(m11, Ok::<L::Output, Error>(p.11), m12) && M::parses(m12, Ok::<M::Output, Error>(p.12), m13) && N::parses(m13, Ok::<N::Output, Error>(p.13), mid);
            assert(A::parses(before, Ok::<A::Output, Error>(p.0), m1) && B::parses(m1, Ok::<B::Output, Error>(p.1), m2) && C::parses(m2, Ok::<C::Output, Error>(p.2), m3) && D::parses(m3, Ok::<D::Output, Error>(p.3), m4) && E::parses(m4, Ok::<E::Output, Error>(p.4), m5) && F::parses(m5, Ok::<F::Output, Error>(p.5), m6) && G::parses(m6, Ok::<G::Output, Error>(p.6), m7) && H::parses(m7, Ok::<H::Output, Error>(p.7), m8) && I::parses(m8, Ok::<I::Output, Error>(p.8), m9) && J::parses(m9, Ok::<J::Output, Error>(p.9), m10) && K::parses(m10, Ok::<K::Output, Error>(p.10), m11) && L::parses(m11, Ok::<L::Output, Error>(p.11), m12) && M::parses(m12, Ok::<M::Output, Error>(p.12), m13) && N::parses(m13, Ok::<N::Output, Error>(p.13), mid) && O::parses(mid, Err::<O::Output, Error>(e), after));
        }
    }
}

/// A tuple of 16 parsers parses its parts one after the other: each part
/// parses from where the part before it left the stream, and the tuple gives
/// all their values; or it fails as the first part that fails, leaving the
/// stream where that part left it.
#[verifier::spinoff_prover]
pub proof fn law_tuple16_parses_in_turn<A: FromStream, B: FromStream, C: FromStream, D: FromStream, E: FromStream, F: FromStream, G: FromStream, H: FromStream, I: FromStream, J: FromStream, K: FromStream, L: FromStream, M: FromStream, N: FromStream, O: FromStream, P: FromStream>(before: StreamState, res: Result<<(A, B, C, D, E, F, G, H, I, J, K, L, M, N, O, P) as FromStream>::Output, Error>, after: StreamState)
    requires
        <(A, B, C, D, E, F, G, H, I, J, K, L, M, N, O, P) as FromStream>::parses(before, res, after),
    ensures
        res matches Ok(v) ==> exists|m1: StreamState, m2: StreamState, m3: StreamState, m4: StreamState, m5: StreamState, m6: StreamState, m7: StreamState, m8: StreamState, m9: StreamState, m10: StreamState, m11: StreamState, m12: StreamState, m13: StreamState, m14: StreamState, m15: StreamState|
            #![trigger A::parses(before, Ok::<A::Output, Error>(v.0), m1), B::parses(m1, Ok::<B::Output, Error>(v.1), m2), C::parses(m2, Ok::<C::Output, Error>(v.2), m3), D::parses(m3, Ok::<D::Output, Error>(v.3), m4), E::parses(m4, Ok::<E::Output, Error>(v.4), m5), F::parses(m5, Ok::<F::Output, Error>(v.5), m6), G::parses(m6, Ok::<G::Output, Error>(v.6), m7), H::parses(m7, Ok::<H::Output, Error>(v.7), m8), I::parses(m8, Ok::<I::Output, Error>(v.8), m9), J::parses(m9, Ok::<J::Output, Error>(v.9), m10), K::parses(m10, Ok::<K::Output, Error>(v.10), m11), L::parses(m11, Ok::<L::Output, Error>(v.11), m12), M::parses(m12, Ok::<M::Output, Error>(v.12), m13), N::parses(m13, Ok::<N::Output, Error>(v.13), m14), O::parses(m14, Ok::<O::Output, Error>(v.14), m15), P::parses(m15, Ok::<P::Output, Error>(v.15), after)]
            A::parses(before, Ok::<A::Output, Error>(v.0), m1) && B::parses(m1, Ok::<B::Output, Error>(v.1), m2) && C::parses(m2, Ok::<C::Output, Error>(v.2), m3) && D::parses(m3, Ok::<D::Output, Error>(v.3), m4) && E::parses(m4, Ok::<E::Output, Error>(v.4), m5) && F::parses(m5, Ok::<F::Output, Error>(v.5), m6) && G::parses(m6, Ok::<G::Output, Error>(v.6), m7) && H::parses(m7, Ok::<H::Output, Error>(v.7), m8) && I::parses(m8, Ok::<I::Output, Error>(v.8), m9) && J::parses(m9, Ok::<J::Output, Error>(v.9), m10) && K::parses(m10, Ok::<K::Output, Error>(v.10), m11) && L::parses(m11, Ok::<L::Output, Error>(v.11), m12) && M::parses(m12, Ok::<M::Output, Error>(v.12), m13) && N::parses(m13, Ok::<N::Output, Error>(v.13), m14) && O::parses(m14, Ok::<O::Output, Error>(v.14), m15) && P::parses(m15, Ok::<P::Output, Error>(v.15), after),
        res matches Err(e) ==>
            (A::parses(before, Err::<A::Output, Error>(e), after))
            || (exists|x0: A::Output, m1: StreamState|
                #![trigger A::parses(before, Ok::<A::Output, Error>(x0), m1), B::parses(m1, Err::<B::Output, Error>(e), after)]
                A::parses(before, Ok::<A::Output, Error>(x0), m1) && B::parses(m1, Err::<B::Output, Error>(e), after))
            || (exists|x0: A::Output, m1: StreamState, x1: B::Output, m2: StreamState|
                #![trigger A::parses(before, Ok::<A::Output, Error>(x0), m1), B::parses(m1, Ok::<B::Output, Error>(x1), m2), C::parses(m2, Err::<C::Output, Error>(e), after)]
                A::parses(before, Ok::<A::Output, Error>(x0), m1) && B::parses(m1, Ok::<B::Output, Error>(x1), m2) && C::parses(m2, Err::<C::Output, Error>(e), after))
            || (exists|x0: A::Output, m1: StreamState, x1: B::Output, m2: StreamState, x2: C::Output, m3: StreamState|
                #![trigger A::parses(before, Ok::<A::Output, Error>(x0), m1), B::parses(m1, Ok::<B::Output, Error>(x1), m2), C::parses(m2, Ok::<C::Output, Error>(x2), m3), D::parses(m3, Err::<D::Output, Error>(e), after)]
                A::parses(before, Ok::<A::Output, Error>(x0), m1) && B::parses(m1, Ok::<B::Output, Error>(x1), m2) && C::parses(m2, Ok::<C::Output, Error>(x2), m3) && D::parses(m3, Err::<D::Output, Error>(e), after))
            || (exists|x0: A::Output, m1: StreamState, x1: B::Output, m2: StreamState, x2: C::Output, m3: StreamState, x3: D::Output, m4: StreamState|
                #![trigger A::parses(before, Ok::<A::Output, Error>(x0), m1), B::parses(m1, Ok::<B::Output, Error>(x1), m2), C::parses(m2, Ok::<C::Output, Error>(x2), m3), D::parses(m3, Ok::<D::Output, Error>(x3), m4), E::parses(m4, Err::<E::Output, Error>(e), after)]
                A::parses(before, Ok::<A::Output, Error>(x0), m1) && B::parses(m1, Ok::<B::Output, Error>(x1), m2) && C::parses(m2, Ok::<C::Output, Error>(x2), m3) && D::parses(m3, Ok::<D::Output, Error>(x3), m4) && E::parses(m4, Err::<E::Output, Error>(e), after))
            || (exists|x0: A::Output, m1: StreamState, x1: B::Output, m2: StreamState, x2: C::Output, m3: StreamState, x3: D::Output, m4: StreamState, x4: E::Output, m5: StreamState|
                #![trigger A::parses(before, Ok::<A::Output, Error>(x0), m1), B::parses(m1, Ok::<B::Output, Error>(x1), m2), C::parses(m2, Ok::<C::Output, Error>(x2), m3), D::parses(m3, Ok::<D::Output, Error>(x3), m4), E::parses(m4, Ok::<E::Output, Error>(x4), m5), F::parses(m5, Err::<F::Output, Error>(e), after)]
                A::parses(before, Ok::<A::Output, Error>(x0), m1) && B::parses(m1, Ok::<B::Output, Error>(x1), m2) && C::parses(m2, Ok::<C::Output, Error>(x2), m3) && D::parses(m3, Ok::<D::Output, Error>(x3), m4) && E::parses(m4, Ok::<E::Output, Error>(x4), m5) && F::parses(m5, Err::<F::Output, Error>(e), after))
            || (exists|x0: A::Output, m1: StreamState, x1: B::Output, m2: StreamState, x2: C::Output, m3: StreamState, x3: D::Output, m4: StreamState, x4: E::Output, m5: StreamState, x5: F::Output, m6: StreamState|
                #![trigger A::parses(before, Ok::<A::Output, Error>(x0), m1), B::parses(m1, Ok::<B::Output, Error>(x1), m2), C::parses(m2, Ok::<C::Output, Error>(x2), m3), D::parses(m3, Ok::<D::Output, Error>(x3), m4), E::parses(m4, Ok::<E::Output, Error>(x4), m5), F::parses(m5, Ok::<F::Output, Error>(x5), m6), G::parses(m6, Err::<G::Output, Error>(e), after)]
                A::parses(before, Ok::<A::Output, Error>(x0), m1) && B::parses(m1, Ok::<B::Output, Error>(x1), m2) && C::parses(m2, Ok::<C::Output, Error>(x2), m3) && D::parses(m3, Ok::<D::Output, Error>(x3), m4) && E::parses(m4, Ok::<E::Output, Error>(x4), m5) && F::parses(m5, Ok::<F::Output, Error>(x5), m6) && G::parses(m6, Err::<G::Output, Error>(e), after))
            || (exists|x0: A::Output, m1: StreamState, x1: B::Output, m2: StreamState, x2: C::Output, m3: StreamState, x3: D::Output, m4: StreamState, x4: E::Output, m5: StreamState, x5: F::Output, m6: StreamState, x6: G::Output, m7: StreamState|
                #![trigger A::parses(before, Ok::<A::Output, Error>(x0), m1), B::parses(m1, Ok::<B::Output, Error>(x1), m2), C::parses(m2, Ok::<C::Output, Error>(x2), m3), D::parses(m3, Ok::<D::Output, Error>(x3), m4), E::parses(m4, Ok::<E::Output, Error>(x4), m5), F::parses(m5, Ok::<F::Output, Error>(x5), m6), G::parses(m6, Ok::<G::Output, Error>(x6), m7), H::parses(m7, Err::<H::Output, Error>(e), after)]
                A::parses(before, Ok::<A::Output, Error>(x0), m1) && B::parses(m1, Ok::<B::Output, Error>(x1), m2) && C::parses(m2, Ok::<C::Output, Error>(x2), m3) && D::parses(m3, Ok::<D::Output, Error>(x3), m4) && E::parses(m4, Ok::<E::Output, Error>(x4), m5) && F::parses(m5, Ok::<F::Output, Error>(x5), m6) && G::parses(m6, Ok::<G::Output, Error>(x6), m7) && H::parses(m7, Err::<H::Output, Error>(e), after))
            || (exists|x0: A::Output, m1: StreamState, x1: B::Output, m2: StreamState, x2: C::Output, m3: StreamState, x3: D::Output, m4: StreamState, x4: E::Output, m5: StreamState, x5: F::Output, m6: StreamState, x6: G::Output, m7: StreamState, x7: H::Output, m8: StreamState|
                #![trigger A::parses(before, Ok::<A::Output, Error>(x0), m1), B::parses(m1, Ok::<B::Output, Error>(x1), m2), C::parses(m2, Ok::<C::Output, Error>(x2), m3), D::parses(m3, Ok::<D::Output, Error>(x3), m4), E::parses(m4, Ok::<E::Output, Error>(x4), m5), F::parses(m5, Ok::<F::Output, Error>(x5), m6), G::parses(m6, Ok::<G::Output, Error>(x6), m7), H::parses(m7, Ok::<H::Output, Error>(x7), m8), I::parses(m8, Err::<I::Output, Error>(e), after)]
                A::parses(before, Ok::<A::Output, Error>(x0), m1) && B::parses(m1, Ok::<B::Output, Error>(x1), m2) && C::parses(m2, Ok::<C::Output, Error>(x2), m3) && D::parses(m3, Ok::<D::Output, Error>(x3), m4) && E::parses(m4, Ok::<E::Output, Error>(x4), m5) && F::parses(m5, Ok::<F::Output, Error>(x5), m6) && G::parses(m6, Ok::<G::Output, Error>(x6), m7) && H::parses(m7, Ok::<H::Output, Error>(x7), m8) && I::parses(m8, Err::<I::Output, Error>(e), after))
            || (exists|x0: A::Output, m1: StreamState, x1: B::Output, m2: StreamState, x2: C::Output, m3: StreamState, x3: D::Output, m4: StreamState, x4: E::Output, m5: StreamState, x5: F::Output, m6: StreamState, x6: G::Output, m7: StreamState, x7: H::Output, m8: StreamState, x8: I::Output, m9: StreamState|
                #![trigger A::parses(before, Ok::<A::Output, Error>(x0), m1), B::parses(m1, Ok::<B::Output, Error>(x1), m2), C::parses(m2, Ok::<C::Output, Error>(x2), m3), D::parses(m3, Ok::<D::Output, Error>(x3), m4), E::parses(m4, Ok::<E::Output, Error>(x4), m5), F::parses(m5, Ok::<F::Output, Error>(x5), m6), G::parses(m6, Ok::<G::Output, Error>(x6), m7), H::parses(m7, Ok::<H::Output, Error>(x7), m8), I::parses(m8, Ok::<I::Output, Error>(x8), m9), J::parses(m9, Err::<J::Output, Error>(e), after)]
                A::parses(before, Ok::<A::Output, Error>(x0), m1) && B::parses(m1, Ok::<B::Output, Error>(x1), m2) && C::parses(m2, Ok::<C::Output, Error>(x2), m3) && D::parses(m3, Ok::<D::Output, Error>(x3), m4) && E::parses(m4, Ok::<E::Output, Error>(x4), m5) && F::parses(m5, Ok::<F::Output, Error>(x5), m6) && G::parses(m6, Ok::<G::Output, Error>(x6), m7) && H::parses(m7, Ok::<H::Output, Error>(x7), m8) && I::parses(m8, Ok::<I::Output, Error>(x8), m9) && J::parses(m9, Err::<J::Output, Error>(e), after))
            || (exists|x0: A::Output, m1: StreamState, x1: B::Output, m2: StreamState, x2: C::Output, m3: StreamState, x3: D::Output, m4: StreamState, x4: E::Output, m5: StreamState, x5: F::Output, m6: StreamState, x6: G::Output, m7: StreamState, x7: H::Output, m8: StreamState, x8: I::Output, m9: StreamState, x9: J::Output, m10: StreamState|
                #![trigger A::parses(before, Ok::<A::Output, Error>(x0), m1), B::parses(m1, Ok::<B::Output, Error>(x1), m2), C::parses(m2, Ok::<C::Output, Error>(x2), m3), D::parses(m3, Ok::<D::Output, Error>(x3), m4), E::parses(m4, Ok::<E::Output, Error>(x4), m5), F::parses(m5, Ok::<F::Output, Error>(x5), m6), G::parses(m6, Ok::<G::Output, Error>(x6), m7), H::parses(m7, Ok::<H::Output, Error>(x7), m8), I::parses(m8, Ok::<I::Output, Error>(x8), m9), J::parses(m9, Ok::<J::Output, Error>(x9), m10), K::parses(m10, Err::<K::Output, Error>(e), after)]
                A::parses(before, Ok::<A::Output, Error>(x0), m1) && B::parses(m1, Ok::<B::Output, Error>(x1), m2) && C::parses(m2, Ok::<C::Output, Error>(x2), m3) && D::parses(m3, Ok::<D::Output, Error>(x3), m4) && E::parses(m4, Ok::<E::Output, Error>(x4), m5) && F::parses(m5, Ok::<F::Output, Error>(x5), m6) && G::parses(m6, Ok::<G::Output, Error>(x6), m7) && H::parses(m7, Ok::<H::Output, Error>(x7), m8) && I::parses(m8, Ok::<I::Output, Error>(x8), m9) && J::parses(m9, Ok::<J::Output, Error>(x9), m10) && K::parses(m10, Err::<K::Output, Error>(e), after))
            || (exists|x0: A::Output, m1: StreamState, x1: B::Output, m2: StreamState, x2: C::Output, m3: StreamState, x3: D::Output, m4: StreamState, x4: E::Output, m5: StreamState, x5: F::Output, m6: StreamState, x6: G::Output, m7: StreamState, x7: H::Output, m8: StreamState, x8: I::Output, m9: StreamState, x9: J::Output, m10: StreamState, x10: K::Output, m11: StreamState|
                #![trigger A::parses(before, Ok::<A::Output, Error>(x0), m1), B::parses(m1, Ok::<B::Output, Error>(x1), m2), C::parses(m2, Ok::<C::Output, Error>(x2), m3), D::parses(m3, Ok::<D::Output, Error>(x3), m4), E::parses(m4, Ok::<E::Output, Error>(x4), m5), F::parses(m5, Ok::<F::Output, Error>(x5), m6), G::parses(m6, Ok::<G::Output, Error>(x6), m7), H::parses(m7, Ok::<H::Output, Error>(x7), m8), I::parses(m8, Ok::<I::Output, Error>(x8), m9), J::parses(m9, Ok::<J::Output, Error>(x9), m10), K::parses(m10, Ok::<K::Output, Error>(x10), m11), L::parses(m11, Err::<L::Output, Error>(e), after)]
                A::parses(before, Ok::<A::Output, Error>(x0), m1) && B::parses(m1, Ok::<B::Output, Error>(x1), m2) && C::parses(m2, Ok::<C::Output, Error>(x2), m3) && D::parses(m3, Ok::<D::Output, Error>(x3), m4) && E::parses(m4, Ok::<E::Output, Error>(x4), m5) && F::parses(m5, Ok::<F::Output, Error>(x5), m6) && G::parses(m6, Ok::<G::Output, Error>(x6), m7) && H::parses(m7, Ok::<H::Output, Error>(x7), m8) && I::parses(m8, Ok::<I::Output, Error>(x8), m9) && J::parses(m9, Ok::<J::Output, Error>(x9), m10) && K::parses(m10, Ok::<K::Output, Error>(x10), m11) && L::parses(m11, Err::<L::Output, Error>(e), after))
            || (exists|x0: A::Output, m1: StreamState, x1: B::Output, m2: StreamState, x2: C::Output, m3: StreamState, x3: D::Output, m4: StreamState, x4: E::Output, m5: StreamState, x5: F::Output, m6: StreamState, x6: G::Output, m7: StreamState, x7: H::Output, m8: StreamState, x8: I::Output, m9: StreamState, x9: J::Output, m10: StreamState, x10: K::Output, m11: StreamState, x11: L::Output, m12: StreamState|
                #![trigger A::parses(before, Ok::<A::Output, Error>(x0), m1), B::parses(m1, Ok::<B::Output, Error>(x1), m2), C::parses(m2, Ok::<C::Output, Error>(x2), m3), D::parses(m3, Ok::<D::Output, Error>(x3), m4), E::parses(m4, Ok::<E::Output, Error>(x4), m5), F::parses(m5, Ok::<F::Output, Error>(x5), m6), G::parses(m6, Ok::<G::Output, Error>(x6), m7), H::parses(m7, Ok::<H::Output, Error>(x7), m8), I::parses(m8, Ok::<I::Output, Error>(x8), m9), J::parses(m9, Ok::<J::Output, Error>(x9), m10), K::parses(m10, Ok::<K::Output, Error>(x10), m11), L::parses(m11, Ok::<L::Output, Error>(x11), m12), M::parses(m12, Err::<M::Output, Error>(e), after)]
                A::parses(before, Ok::<A::Output, Error>(x0), m1) && B::parses(m1, Ok::<B::Output, Error>(x1), m2) && C::parses(m2, Ok::<C::Output, Error>(x2), m3) && D::parses(m3, Ok::<D::Output, Error>(x3), m4) && E::parses(m4, Ok::<E::Output, Error>(x4), m5) && F::parses(m5, Ok::<F::Output, Error>(x5), m6) && G::parses(m6, Ok::<G::Output, Error>(x6), m7) && H::parses(m7, Ok::<H::Output, Error>(x7), m8) && I::parses(m8, Ok::<I::Output, Error>(x8), m9) && J::parses(m9, Ok::<J::Output, Error>(x9), m10) && K::parses(m10, Ok::<K::Output, Error>(x10), m11) && L::parses(m11, Ok::<L::Output, Error>(x11), m12) && M::parses(m12, Err::<M::Output, Error>(e), after))
            || (exists|x0: A::Output, m1: StreamState, x1: B::Output, m2: StreamState, x2: C::Output, m3: StreamState, x3: D::Output, m4: StreamState, x4: E::Output, m5: StreamState, x5: F::Output, m6: StreamState, x6: G::Output, m7: StreamState, x7: H::Output, m8: StreamState, x8: I::Output, m9: StreamState, x9: J::Output, m10: StreamState, x10: K::Output, m11: StreamState, x11: L::Output, m12: StreamState, x12: M::Output, m13: StreamState|
                #![trigger A::parses(before, Ok::<A::Output, Error>(x0), m1), B::parses(m1, Ok::<B::Output, Error>(x1), m2), C::parses(m2, Ok::<C::Output, Error>(x2), m3), D::parses(m3, Ok::<D::Output, Error>(x3), m4), E::parses(m4, Ok::<E::Output, Error>(x4), m5), F::parses(m5, Ok::<F::Output, Error>(x5), m6), G::parses(m6, Ok::<G::Output, Error>(x6), m7), H::parses(m7, Ok::<H::Output, Error>(x7), m8), I::parses(m8, Ok::<I::Output, Error>(x8), m9), J::parses(m9, Ok::<J::Output, Error>(x9), m10), K::parses(m10, Ok::<K::Output, Error>(x10), m11), L::parses(m11, Ok::<L::Output, Error>(x11), m12), M::parses(m12, Ok::<M::Output, Error>(x12), m13), N::parses(m13, Err::<N::Output, Error>(e), after)]
                A::parses(before, Ok::<A::Output, Error>(x0), m1) && B::parses(m1, Ok::<B::Output, Error>(x1), m2) && C::parses(m2, Ok::<C::Output, Error>(x2), m3) && D::parses(m3, Ok::<D::Output, Error>(x3), m4) && E::parses(m4, Ok::<E::Output, Error>(x4), m5) && F::parses(m5, Ok::<F::Output, Error>(x5), m6) && G::parses(m6, Ok::<G::Output, Error>(x6), m7) && H::parses(m7, Ok::<H::Output, Error>(x7), m8) && I::parses(m8, Ok::<I::Output, Error>(x8), m9) && J::parses(m9, Ok::<J::Output, Error>(x9), m10) && K::parses(m10, Ok::<K::Output, Error>(x10), m11) && L::parses(m11, Ok::<L::Output, Error>(x11), m12) && M::parses(m12, Ok::<M::Output, Error>(x12), m13) && N::parses(m13, Err::<N::Output, Error>(e), after))
            || (exists|x0: A::Output, m1: StreamState, x1: B::Output, m2: StreamState, x2: C::Output, m3: StreamState, x3: D::Output, m4: StreamState, x4: E::Output, m5: StreamState, x5: F::Output, m6: StreamState, x6: G::Output, m7: StreamState, x7: H::Output, m8: StreamState, x8: I::Output, m9: StreamState, x9: J::Output, m10: StreamState, x10: K::Output, m11: StreamState, x11: L::Output, m12: StreamState, x12: M::Output, m13: StreamState, x13: N::Output, m14: StreamState|
                #![trigger A::parses(before, Ok::<A::Output, Error>(x0), m1), B::parses(m1, Ok::<B::Output, Error>(x1), m2), C::parses(m2, Ok::<C::Output, Error>(x2), m3), D::parses(m3, Ok::<D::Output, Error>(x3), m4), E::parses(m4, Ok::<E::Output, Error>(x4), m5), F::parses(m5, Ok::<F::Output, Error>(x5), m6), G::parses(m6, Ok::<G::Output, Error>(x6), m7), H::parses(m7, Ok::<H::Output, Error>(x7), m8), I::parses(m8, Ok::<I::Output, Error>(x8), m9), J::parses(m9, Ok::<J::Output, Error>(x9), m10), K::parses(m10, Ok::<K::Output, Error>(x10), m11), L::parses(m11, Ok::<L::Output, Error>(x11), m12), M::parses(m12, Ok::<M::Output, Error>(x12), m13), N::parses(m13, Ok::<N::Output, Error>(x13), m14), O::parses(m14, Err::<O::Output, Error>(e), after)]
                A::parses(before, Ok::<A::Output, Error>(x0), m1) && B::parses(m1, Ok::<B::Output, Error>(x1), m2) && C::parses(m2, Ok::<C::Output, Error>(x2), m3) && D::parses(m3, Ok::<D::Output, Error>(x3), m4) && E::parses(m4, Ok::<E::Output, Error>(x4), m5) && F::parses(m5, Ok::<F::Output, Error>(x5), m6) && G::parses(m6, Ok::<G::Output, Error>(x6), m7) && H::parses(m7, Ok::<H::Output, Error>(x7), m8) && I::parses(m8, Ok::<I::Output, Error>(x8), m9) && J::parses(m9, Ok::<J::Output, Error>(x9), m10) && K::parses(m10, Ok::<K::Output, Error>(x10), m11) && L::parses(m11, Ok::<L::Output, Error>(x11), m12) && M::parses(m12, Ok::<M::Output, Error>(x12), m13) && N::parses(m13, Ok::<N::Output, Error>(x13), m14) && O::parses(m14, Err::<O::Output, Error>(e), after))
            || (exists|x0: A::Output, m1: StreamState, x1: B::Output, m2: StreamState, x2: C::Output, m3: StreamState, x3: D::Output, m4: StreamState, x4: E::Output, m5: StreamState, x5: F::Output, m6: StreamState, x6: G::Output, m7: StreamState, x7: H::Output, m8: StreamState, x8: I::Output, m9: StreamState, x9: J::Output, m10: StreamState, x10: K::Output, m11: StreamState, x11: L::Output, m12: StreamState, x12: M::Output, m13: StreamState, x13: N::Output, m14: StreamState, x14: O::Output, m15: StreamState|
                #![trigger A::parses(before, Ok::<A::Output, Error>(x0), m1), B::parses(m1, Ok::<B::Output, Error>(x1), m2), C::parses(m2, Ok::<C::Output, Error>(x2), m3), D::parses(m3, Ok::<D::Output, Error>(x3), m4), E::parses(m4, Ok::<E::Output, Error>(x4), m5), F::parses(m5, Ok::<F::Output, Error>(x5), m6), G::parses(m6, Ok::<G::Output, Error>(x6), m7), H::parses(m7, Ok::<H::Output, Error>(x7), m8), I::parses(m8, Ok::<I::Output, Error>(x8), m9), J::parses(m9, Ok::<J::Output, Error>(x9), m10), K::parses(m10, Ok::<K::Output, Error>(x10), m11), L::parses(m11, Ok::<L::Output, Error>(x11), m12), M::parses(m12, Ok::<M::Output, Error>(x12), m13), N::parses(m13, Ok::<N::Output, Error>(x13), m14), O::parses(m14, Ok::<O::Output, Error>(x14), m15), P::parses(m15, Err::<P::Output, Error>(e), after)]
                A::parses(before, Ok::<A::Output, Error>(x0), m1) && B::parses(m1, Ok::<B::Output, Error>(x1), m2) && C::parses(m2, Ok::<C::Output, Error>(x2), m3) && D::parses(m3, Ok::<D::Output, Error>(x3), m4) && E::parses(m4, Ok::<E::Output, Error>(x4), m5) && F::parses(m5, Ok::<F::Output, Error>(x5), m6) && G::parses(m6, Ok::<G::Output, Error>(x6), m7) && H::parses(m7, Ok::<H::Output, Error>(x7), m8) && I::parses(m8, Ok::<I::Output, Error>(x8), m9) && J::parses(m9, Ok::<J::Output, Error>(x9), m10) && K::parses(m10, Ok::<K::Output, Error>(x10), m11) && L::parses(m11, Ok::<L::Output, Error>(x11), m12) && M::parses(m12, Ok::<M::Output, Error>(x12), m13) && N::parses(m13, Ok::<N::Output, Error>(x13), m14) && O::parses(m14, Ok::<O::Output, Error>(x14), m15) && P::parses(m15, Err::<P::Output, Error>(e), after)),
{
    let (r, mid) = choose|r: Result<(A::Output, B::Output, C::Output, D::Output, E::Output, F::Output, G::Output, H::Output, I::Output, J::Output, K::Output, L::Output, M::Output, N::Output, O::Output), Error>, mid: StreamState|
        #[trigger] <(A, B, C, D, E, F, G, H, I, J, K, L, M, N, O) as FromStream>::parses(before, r, mid) && then_parses::<(A::Output, B::Output, C::Output, D::Output, E::Output, F::Output, G::Output, H::Output, I::Output, J::Output, K::Output, L::Output, M::Output, N::Output, O::Output), P, (A::Output, B::Output, C::Output, D::Output, E::Output, F::Output, G::Output, H::Output, I::Output, J::Output, K::Output, L::Output, M::Output, N::Output, O::Output, P::Output)>(
            r,
            mid,
            res,
            after,
            |p: (A::Output, B::Output, C::Output, D::Output, E::Output, F::Output, G::Output, H::Output, I::Output, J::Output, K::Output, L::Output, M::Output, N::Output, O::Output), l: P::Output| (p.0, p.1, p.2, p.3, p.4, p.5, p.6, p.7, p.8, p.9, p.10, p.11, p.12, p.13, p.14, l),
        );
    law_tuple15_parses_in_turn::<A, B, C, D, E, F, G, H, I, J, K, L, M, N, O>(before, r, mid);
    if let Ok(p) = r {
        let rl = choose|rl: Result<P::Output, Error>|
            #[trigger] P::parses(mid, rl, after) && match rl {
                Err(e) => res == Err::<(A::Output, B::Output, C::Output, D::Output, E::Output, F::Output, G::Output, H::Output, I::Output, J::Output, K::Output, L::Output, M::Output, N::Output, O::Output, P::Output), Error>(e),
                Ok(l) => res == Ok::<(A::Output, B::Output, C::Output, D::Output, E::Output, F::Output, G::Output, H::Output, I::Output, J::Output, K::Output, L::Output, M::Output, N::Output, O::Output, P::Output), Error>((|p: (A::Output, B::Output, C::Output, D::Output, E::Output, F::Output, G::Output, H::Output, I::Output, J::Output, K::Output, L::Output, M::Output, N::Output, O::Output), l: P::Output| (p.0, p.1, p.2, p.3, p.4, p.5, p.6, p.7, p.8, p.9, p.10, p.11, p.12, p.13, p.14, l))(p, l)),
            };
        if let Ok(l) = rl {
            let (m1, m2, m3, m4, m5, m6, m7, m8, m9, m10, m11, m12, m13, m14) = choose|m1: StreamState, m2: StreamState, m3: StreamState, m4: StreamState, m5: StreamState, m6: StreamState, m7: StreamState, m8: StreamState, m9: StreamState, m10: StreamState, m11: StreamState, m12: StreamState, m13: StreamState, m14: StreamState| A::parses(before, Ok::<A::Output, Error>(p.0), m1) && B::parses(m1, Ok::<B::Output, Error>(p.1), m2) && C::parses(m2, Ok::<C::Output, Error>(p.2), m3) && D::parses(m3, Ok::<D::Output, Error>(p.3), m4) && E::parses(m4, Ok::<E::Output, Error>(p.4), m5) && F::parses(m5, Ok::<F::Output, Error>(p.5), m6) && G::parses(m6, Ok::<G::Output, Error>(p.6), m7) && H::parses(m7, Ok::<H::Output, Error>(p.7), m8) && I::parses(m8, Ok::<I::Output, Error>(p.8), m9) && J::parses(m9, Ok::<J::Output, Error>(p.9), m10) && K::parses(m10, Ok::<K::Output, Error>(p.10), m11) && L::parses(m11, Ok::<L::Output, Error>(p.11), m12) && M::parses(m12, Ok::<M::Output, Error>(p.12), m13) && N::parses(m13, Ok::<N::Output, Error>(p.13), m14) && O::parses(m14, Ok::<O::Output, Error>(p.14), mid);
            if let Ok(v) = res {
                assert(v.0 == p.0 && v.1 == p.1 && v.2 == p.2 && v.3 == p.3 && v.4 == p.4 && v.5 == p.5 && v.6 == p.6 && v.7 == p.7 && v.8 == p.8 && v.9 == p.9 && v.10 == p.10 && v.11 == p.11 && v.12 == p.12 && v.13 == p.13 && v.14 == p.14 && v.15 == l);
                assert(A::parses(before, Ok::<A::Output, Error>(v.0), m1) && B::parses(m1, Ok::<B::Output, Error>(v.1), m2) && C::parses(m2, Ok::<C::Output, Error>(v.2), m3) && D::parses(m3, Ok::<D::Output, Error>(v.3), m4) && E::parses(m4, Ok::<E::Output, Error>(v.4), m5) && F::parses(m5, Ok::<F::Output, Error>(v.5), m6) && G::parses(m6, Ok::<G::Output, Error>(v.6), m7) && H::parses(m7, Ok::<H::Output, Error>(v.7), m8) && I::parses(m8, Ok::<I::Output, Error>(v.8), m9) && J::parses(m9, Ok::<J::Output, Error>(v.9), m10) && K::parses(m10, Ok::<K::Output, Error>(v.10), m11) && L::parses(m11, Ok::<L::Output, Error>(v.11), m12) && M::parses(m12, Ok::<M::Output, Error>(v.12), m13) && N::parses(m13, Ok::<N::Output, Error>(v.13), m14) && O::parses(m14, Ok::<O::Output, Error>(v.14), mid) && P::parses(mid, Ok::<P::Output, Error>(v.15), after));
            }
        }
        if let Err(e) = rl {
            let (m1, m2, m3, m4, m5, m6, m7, m8, m9, m10, m11, m12, m13, m14) = choose|m1: StreamState, m2: StreamState, m3: StreamState, m4: StreamState, m5: StreamState, m6: StreamState, m7: StreamState, m8: StreamState, m9: StreamState, m10: StreamState, m11: StreamState, m12: StreamState, m13: StreamState, m14: StreamState| A::parses(before, Ok::<A::Output, Error>(p.0), m1) && B::parses(m1, Ok::<B::Output, Error>(p.1), m2) && C::parses(m2, Ok::<C::Output, Error>(p.2), m3) && D::parses(m3, Ok::<D::Output, Error>(p.3), m4) && E::parses(m4, Ok::<E::Output, Error>(p.4), m5) && F::parses(m5, Ok::<F::Output, Error>(p.5), m6) && G::parses(m6, Ok::<G::Output, Error>(p.6), m7) && H::parses(m7, Ok::<H::Output, Error>(p.7), m8) && I::parses(m8, Ok::<I::Output, Error>(p.8), m9) && J::parses(m9, Ok::<J::Output, Error>(p.9), m10) && K::parses(m10, Ok::<K::Output, Error>(p.10), m11) && L::parses(m11, Ok::<L::Output, Error>(p.11), m12) && M::parses(m12, Ok::<M::Output, Error>(p.12), m13) && N::parses(m13, Ok::<N::Output, Error>(p.13), m14) && O::parses(m14, Ok::<O::Output, Error>(p.14), mid);
            assert(A::parses(before, Ok::<A::Output, Error>(p.0), m1) && B::parses(m1, Ok::<B::Output, Error>(p.1), m2) && C::parses(m2, Ok::<C::Output, Error>(p.2), m3) && D::parses(m3, Ok::<D::Output, Error>(p.3), m4) && E::parses(m4, Ok::<E::Output, Error>(p.4), m5) && F::parses(m5, Ok::<F::Output, Error>(p.5), m6) && G::parses(m6, Ok::<G::Output, Error>(p.6), m7) && H::parses(m7, Ok::<H::Output, Error>(p.7), m8) && I::parses(m8, Ok::<I::Output, Error>(p.8), m9) && J::parses(m9, Ok::<J::Output, Error>(p.9), m10) && K::parses(m10, Ok::<K::Output, Error>(p.10), m11) && L::parses(m11, Ok::<L::Output, Error>(p.11), m12) && M::parses(m12, Ok::<M::Output, Error>(p.12), m13) && N::parses(m13, Ok::<N::Output, Error>(p.13), m14) && O::parses(m14, Ok::<O::Output, Error>(p.14), mid) && P::parses(mid, Err::<P::Output, Error>(e), after));
        }
    }
}
/// The tokens matched by the first `i` of the counts, in all.
pub open spec fn offset(counts: Seq<usize>, i: int) -> int
    decreases i,
{
    if i <= 0 {
        0
    } else {
        offset(counts, i - 1) + counts[i - 1]
    }
}

proof fn lemma_offset_push(counts: Seq<usize>, x: usize, i: int)
    requires
        0 <= i <= counts.len(),
    ensures
        offset(counts.push(x), i) == offset(counts, i),
    decreases i,
{
    if i > 0 {
        lemma_offset_push(counts, x, i - 1);
    }
}

/// Each of `items` matched, in turn, `counts[i]` tokens from where the ones
/// before it stopped.
pub open spec fn matched_in_turn<T: MatchStream>(items: Seq<T>, st: StreamState, counts: Seq<usize>) -> bool {
    &&& counts.len() == items.len()
    &&& forall|i: int|
        0 <= i < items.len() ==> #[trigger] items[i].matches(st.skipped(offset(counts, i)), Ok::<usize, Option<String>>(counts[i]))
}

proof fn lemma_prefix_matches_in_turn<T: MatchStream>(items: Seq<T>, st: StreamState, total: int)
    requires
        prefix_matches(items, st, total),
    ensures
        exists|counts: Seq<usize>| #[trigger] matched_in_turn(items, st, counts) && total == offset(counts, items.len() as int),
    decreases items.len(),
{
    if items.len() == 0 {
        assert(matched_in_turn(items, st, Seq::<usize>::empty()));
    } else {
        let n = choose|n: usize|
            #[trigger] items.last().matches(st.skipped(total - n), Ok(n)) && prefix_matches(items.drop_last(), st, total - n);
        lemma_prefix_matches_in_turn(items.drop_last(), st, total - n);
        let c = choose|c: Seq<usize>| #[trigger] matched_in_turn(items.drop_last(), st, c) && total - n == offset(c, items.len() - 1);
        let counts = c.push(n);
        assert forall|i: int| 0 <= i < items.len() implies #[trigger] items[i].matches(
            st.skipped(offset(counts, i)),
            Ok::<usize, Option<String>>(counts[i]),
        ) by {
            lemma_offset_push(c, n, i);
            if i < items.len() - 1 {
                assert(items.drop_last()[i] == items[i]);
            }
        }
        lemma_offset_push(c, n, items.len() - 1);
        assert(matched_in_turn(items, st, counts));
    }
}

/// A sequence of patterns matches as its parts one after the other: where it
/// matches, each part matched from where the ones before it stopped, and the
/// sequence matched their total; where it fails, the parts before the `k`th
/// matched in turn, and the `k`th failed where they stopped, as the sequence
/// fails.
pub proof fn law_sequence_matches_in_turn<T: MatchStream>(items: Seq<T>, st: StreamState, res: MatchResult)
    requires
        seq_matches(items, st, res),
    ensures
        res matches Ok(n) ==> exists|counts: Seq<usize>|
            #[trigger] matched_in_turn(items, st, counts) && n == offset(counts, items.len() as int) as usize,
        res is Err ==> exists|k: int, counts: Seq<usize>|
            #![trigger matched_in_turn(items.take(k), st, counts)]
            0 <= k < items.len() && matched_in_turn(items.take(k), st, counts) && items[k].matches(
                st.skipped(offset(counts, k)),
                res,
            ),
{
    let (k, total) = choose|k: int, total: int|
        #![trigger prefix_matches(items.take(k), st, total)]
        {
            &&& 0 <= k <= items.len()
            &&& prefix_matches(items.take(k), st, total)
            &&& if k == items.len() {
                res == Ok::<usize, Option<String>>(total as usize)
            } else {
                res is Err && items[k].matches(st.skipped(total), res)
            }
        };
    lemma_prefix_matches_in_turn(items.take(k), st, total);
    let c = choose|c: Seq<usize>| #[trigger] matched_in_turn(items.take(k), st, c) && total == offset(c, k);
    if k == items.len() {
        assert(items.take(k) =~= items);
        assert(matched_in_turn(items, st, c));
    }
}

/// A slice of patterns matches as its parts one after the other.
pub proof fn law_slice_matches_in_turn<T: MatchStream>(items: &[T], st: StreamState, res: MatchResult)
    requires
        items.matches(st, res),
    ensures
        res matches Ok(n) ==> exists|counts: Seq<usize>|
            #[trigger] matched_in_turn(items@, st, counts) && n == offset(counts, items@.len() as int) as usize,
        res is Err ==> exists|k: int, counts: Seq<usize>|
            #![trigger matched_in_turn(items@.take(k), st, counts)]
            0 <= k < items@.len() && matched_in_turn(items@.take(k), st, counts) && items@[k].matches(
                st.skipped(offset(counts, k)),
                res,
            ),
{
    law_sequence_matches_in_turn(items@, st, res);
}

/// A vector of patterns matches as its parts one after the other.
pub proof fn law_vec_matches_in_turn<T: MatchStream>(items: Vec<T>, st: StreamState, res: MatchResult)
    requires
        items.matches(st, res),
    ensures
        res matches Ok(n) ==> exists|counts: Seq<usize>|
            #[trigger] matched_in_turn(items@, st, counts) && n == offset(counts, items@.len() as int) as usize,
        res is Err ==> exists|k: int, counts: Seq<usize>|
            #![trigger matched_in_turn(items@.take(k), st, counts)]
            0 <= k < items@.len() && matched_in_turn(items@.take(k), st, counts) && items@[k].matches(
                st.skipped(offset(counts, k)),
                res,
            ),
{
    law_sequence_matches_in_turn(items@, st, res);
}

/// An array of patterns matches as its parts one after the other.
pub proof fn law_array_matches_in_turn<T: MatchStream, const N: usize>(items: [T; N], st: StreamState, res: MatchResult)
    requires
        items.matches(st, res),
    ensures
        res matches Ok(n) ==> exists|counts: Seq<usize>|
            #[trigger] matched_in_turn(items@, st, counts) && n == offset(counts, items@.len() as int) as usize,
        res is Err ==> exists|k: int, counts: Seq<usize>|
            #![trigger matched_in_turn(items@.take(k), st, counts)]
            0 <= k < items@.len() && matched_in_turn(items@.take(k), st, counts) && items@[k].matches(
                st.skipped(offset(counts, k)),
                res,
            ),
{
    law_sequence_matches_in_turn(items@, st, res);
}

} // verus!
