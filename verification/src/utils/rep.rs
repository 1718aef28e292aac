//! Repeated items.
use crate::error::Error;
use crate::stream::{FromStream, StreamLike, StreamState};
use vstd::prelude::*;

verus! {

/// A helper for parsing zero or more items.
pub type RepeatAny<T> = Vec<T>;

/// `T`, run again and again from a stream in state `before`, may succeed
/// with `items` one after the other and leave the stream in state `after`.
pub open spec fn parses_many<T: FromStream>(before: StreamState, items: Seq<T::Output>, after: StreamState) -> bool
    decreases items.len(),
{
    if items.len() == 0 {
        after == before
    } else {
        exists|mid: StreamState|
            #[trigger] T::parses(mid, Ok(items.last()), after) && parses_many::<T>(
                before,
                items.drop_last(),
                mid,
            )
    }
}

/// Parsing items with `T` until one fails, from a stream in state `before`
/// and with `prefix` parsed already, may give `res` and leave the stream in
/// state `after`: a fatal failure is the result, any other ends the items.
pub open spec fn rest_outcome<T: FromStream>(
    before: StreamState,
    prefix: Seq<T::Output>,
    res: Result<Vec<T::Output>, Error>,
    after: StreamState,
) -> bool {
    exists|items: Seq<T::Output>, mid: StreamState, e: Error|
        #![trigger parses_many::<T>(before, items, mid), T::parses(mid, Err(e), after)]
        {
            &&& parses_many::<T>(before, items, mid)
            &&& T::parses(mid, Err(e), after)
            &&& if e.fatal {
                res == Err::<Vec<T::Output>, Error>(e)
            } else {
                res matches Ok(v) && v@ == prefix + items
            }
        }
}

/// Parses items with `T`, appending them to `items`, until one fails.
pub fn parse_rest<T: FromStream, S: StreamLike>(stream: &mut S, parsed: Vec<T::Output>) -> (res: Result<Vec<T::Output>, Error>)
    requires
        T::parse_requires(),
        T::productive(),
        (*old(stream)).inv(),
    ensures
        (*final(stream)).inv(),
        rest_outcome::<T>((*old(stream)).state(), parsed@, res, (*final(stream)).state()),
        (*final(stream)).state().tokens.len() <= (*old(stream)).state().tokens.len(),
{
    let ghost before = stream.state();
    let ghost prefix = parsed@;
    let mut items = parsed;
    proof {
        assert(prefix + Seq::<T::Output>::empty() =~= prefix);
    }
    loop
        invariant
            T::parse_requires(),
            T::productive(),
            stream.inv(),
            before == (*old(stream)).state(),
            prefix == parsed@,
            prefix.len() <= items@.len(),
            items@.take(prefix.len() as int) == prefix,
            parses_many::<T>(before, items@.skip(prefix.len() as int), stream.state()),
            stream.state().tokens.len() <= before.tokens.len(),
        decreases stream.state().tokens.len(),
    {
        let ghost mid = stream.state();
        let ghost got = items@.skip(prefix.len() as int);
        match T::from_stream(stream) {
            Ok(item) => {
                items.push(item);
                proof {
                    let now = items@.skip(prefix.len() as int);
                    assert(now.drop_last() =~= got);
                    assert(now.last() == item);
                    assert(items@.take(prefix.len() as int) =~= prefix);
                    assert(T::parses(mid, Ok(now.last()), stream.state()));
                }
            },
            Err(e) => {
                proof {
                    assert(T::parses(mid, Err(e), stream.state()));
                    assert(items@ =~= prefix + got);
                }
                if e.fatal {
                    return Err(e);
                } else {
                    let res: Result<Vec<T::Output>, Error> = Ok(items);
                    proof {
                        assert(parses_many::<T>(before, got, mid));
                        assert(res matches Ok(v) && v@ == prefix + got);
                    }
                    return res;
                }
            },
        }
    }
}

/// Parsing exactly `n` items with `T`, from a stream in state `before`, may
/// give `res` and leave the stream in state `after`: the items, or the
/// failure of the first item that fails.
pub open spec fn exactly_outcome<T: FromStream>(
    before: StreamState,
    n: int,
    res: Result<Vec<T::Output>, Error>,
    after: StreamState,
) -> bool {
    exists|items: Seq<T::Output>, mid: StreamState|
        #![trigger parses_many::<T>(before, items, mid)]
        {
            &&& parses_many::<T>(before, items, mid)
            &&& if items.len() == n {
                &&& after == mid
                &&& res matches Ok(v)
                &&& v@ == items
            } else {
                &&& items.len() < n
                &&& exists|e: Error| #[trigger] T::parses(mid, Err(e), after) && res == Err::<Vec<T::Output>, Error>(e)
            }
        }
}

/// Parses exactly `n` items with `T`.
pub fn parse_exactly<T: FromStream, S: StreamLike>(stream: &mut S, n: usize) -> (res: Result<Vec<T::Output>, Error>)
    requires
        T::parse_requires(),
        (*old(stream)).inv(),
    ensures
        (*final(stream)).inv(),
        exactly_outcome::<T>((*old(stream)).state(), n as int, res, (*final(stream)).state()),
        (*final(stream)).state().tokens.len() <= (*old(stream)).state().tokens.len(),
        T::productive() && n > 0 && res is Ok ==> (*final(stream)).state().tokens.len() < (
        *old(stream)).state().tokens.len(),
{
    let ghost before = stream.state();
    let mut items: Vec<T::Output> = Vec::new();
    let mut i: usize = 0;
    proof {
        assert(items@ =~= Seq::<T::Output>::empty());
    }
    while i < n
        invariant
            T::parse_requires(),
            stream.inv(),
            before == (*old(stream)).state(),
            i <= n,
            items@.len() == i,
            parses_many::<T>(before, items@, stream.state()),
            stream.state().tokens.len() <= before.tokens.len(),
            T::productive() && i > 0 ==> stream.state().tokens.len() < before.tokens.len(),
        decreases n - i,
    {
        let ghost mid = stream.state();
        let ghost got = items@;
        match T::from_stream(stream) {
            Ok(item) => {
                items.push(item);
                proof {
                    assert(items@.drop_last() =~= got);
                    assert(T::parses(mid, Ok(items@.last()), stream.state()));
                }
            },
            Err(e) => {
                proof {
                    assert(T::parses(mid, Err(e), stream.state()));
                    assert(parses_many::<T>(before, got, mid));
                }
                return Err(e);
            },
        }
        i += 1;
    }
    Ok(items)
}

/// Parsing optional items with `T` until `max` items are parsed in all or an
/// item fails, from a stream in state `before` and with `prefix` parsed
/// already, may give `res` and leave the stream in state `after`: a fatal
/// failure is the result, any other ends the items.
pub open spec fn up_to_outcome<T: FromStream>(
    before: StreamState,
    prefix: Seq<T::Output>,
    max: int,
    res: Result<Vec<T::Output>, Error>,
    after: StreamState,
) -> bool {
    exists|items: Seq<T::Output>, mid: StreamState|
        #![trigger parses_many::<T>(before, items, mid)]
        {
            &&& parses_many::<T>(before, items, mid)
            &&& if prefix.len() + items.len() == max {
                &&& after == mid
                &&& res matches Ok(v)
                &&& v@ == prefix + items
            } else {
                &&& prefix.len() + items.len() < max
                &&& exists|e: Error|
                    #[trigger] T::parses(mid, Err(e), after) && if e.fatal {
                        res == Err::<Vec<T::Output>, Error>(e)
                    } else {
                        res matches Ok(v) && v@ == prefix + items
                    }
            }
        }
}

/// Parses optional items with `T`, appending them to `parsed`, until `max`
/// items are parsed in all or an item fails.
pub fn parse_up_to<T: FromStream, S: StreamLike>(stream: &mut S, parsed: Vec<T::Output>, max: usize) -> (res: Result<Vec<T::Output>, Error>)
    requires
        T::parse_requires(),
        (*old(stream)).inv(),
        parsed@.len() <= max,
    ensures
        (*final(stream)).inv(),
        up_to_outcome::<T>((*old(stream)).state(), parsed@, max as int, res, (*final(stream)).state()),
        (*final(stream)).state().tokens.len() <= (*old(stream)).state().tokens.len(),
{
    let ghost before = stream.state();
    let ghost prefix = parsed@;
    let mut items = parsed;
    proof {
        assert(items@.skip(prefix.len() as int) =~= Seq::<T::Output>::empty());
    }
    while items.len() < max
        invariant
            T::parse_requires(),
            stream.inv(),
            before == (*old(stream)).state(),
            prefix == parsed@,
            prefix.len() <= items@.len() <= max,
            items@.take(prefix.len() as int) == prefix,
            parses_many::<T>(before, items@.skip(prefix.len() as int), stream.state()),
            stream.state().tokens.len() <= before.tokens.len(),
        decreases max - items@.len(),
    {
        let ghost mid = stream.state();
        let ghost got = items@.skip(prefix.len() as int);
        match T::from_stream(stream) {
            Ok(item) => {
                items.push(item);
                proof {
                    let now = items@.skip(prefix.len() as int);
                    assert(now.drop_last() =~= got);
                    assert(now.last() == item);
                    assert(items@.take(prefix.len() as int) =~= prefix);
                    assert(T::parses(mid, Ok(now.last()), stream.state()));
                }
            },
            Err(e) => {
                proof {
                    assert(T::parses(mid, Err(e), stream.state()));
                    assert(items@ =~= prefix + got);
                    assert(parses_many::<T>(before, got, mid));
                }
                if e.fatal {
                    return Err(e);
                } else {
                    return Ok(items);
                }
            },
        }
    }
    proof {
        let got = items@.skip(prefix.len() as int);
        assert(items@ =~= prefix + got);
        assert(parses_many::<T>(before, got, stream.state()));
    }
    Ok(items)
}

/// A helper for parsing one or more items.
pub struct RepeatPlus<T>(core::marker::PhantomData<T>);

impl<T: FromStream> FromStream for RepeatPlus<T> {
    type Output = Vec<T::Output>;

    open spec fn parse_requires() -> bool {
        T::parse_requires() && T::productive()
    }

    open spec fn productive() -> bool {
        T::productive()
    }

    /// The first item, whose failure is the result, then items until one
    /// fails.
    open spec fn parses(before: StreamState, res: Result<Vec<T::Output>, Error>, after: StreamState) -> bool {
        exists|r: Result<T::Output, Error>, mid: StreamState|
            #![trigger T::parses(before, r, mid)]
            {
                &&& T::parses(before, r, mid)
                &&& match r {
                    Err(e) => after == mid && res == Err::<Vec<T::Output>, Error>(e),
                    Ok(x) => rest_outcome::<T>(mid, seq![x], res, after),
                }
            }
    }

    fn from_stream<S: StreamLike>(stream: &mut S) -> (res: Result<Vec<T::Output>, Error>) {
        let ghost before = stream.state();
        let r = T::from_stream(stream);
        let ghost g = r;
        let ghost mid = stream.state();
        let first = match r {
            Ok(x) => x,
            Err(e) => {
                proof {
                    assert(T::parses(before, g, mid));
                }
                return Err(e);
            },
        };
        let items = vec![first];
        proof {
            assert(items@ =~= seq![first]);
        }
        let res = parse_rest::<T, S>(stream, items);
        proof {
            assert(T::parses(before, g, mid));
        }
        res
    }
}

/// A helper for parsing `N` or more items.
pub struct RepeatAtLeast<T, const N: usize>(core::marker::PhantomData<[T; N]>);

impl<T: FromStream, const N: usize> FromStream for RepeatAtLeast<T, N> {
    type Output = Vec<T::Output>;

    open spec fn parse_requires() -> bool {
        T::parse_requires() && T::productive()
    }

    open spec fn productive() -> bool {
        T::productive() && N > 0
    }

    /// `N` items, the failure of any of them being the result, then items
    /// until one fails.
    open spec fn parses(before: StreamState, res: Result<Vec<T::Output>, Error>, after: StreamState) -> bool {
        exists|r: Result<Vec<T::Output>, Error>, mid: StreamState|
            #![trigger exactly_outcome::<T>(before, N as int, r, mid)]
            {
                &&& exactly_outcome::<T>(before, N as int, r, mid)
                &&& match r {
                    Err(e) => after == mid && res == Err::<Vec<T::Output>, Error>(e),
                    Ok(v) => rest_outcome::<T>(mid, v@, res, after),
                }
            }
    }

    fn from_stream<S: StreamLike>(stream: &mut S) -> (res: Result<Vec<T::Output>, Error>) {
        let ghost before = stream.state();
        let r = parse_exactly::<T, S>(stream, N);
        let ghost g = r;
        let ghost mid = stream.state();
        let items = match r {
            Ok(v) => v,
            Err(e) => {
                proof {
                    assert(exactly_outcome::<T>(before, N as int, g, mid));
                }
                return Err(e);
            },
        };
        let res = parse_rest::<T, S>(stream, items);
        proof {
            assert(exactly_outcome::<T>(before, N as int, g, mid));
        }
        res
    }
}

/// A helper for parsing `0..=N` items.
pub struct RepeatAtMost<T, const N: usize>(core::marker::PhantomData<[T; N]>);

impl<T: FromStream, const N: usize> FromStream for RepeatAtMost<T, N> {
    type Output = Vec<T::Output>;

    open spec fn parse_requires() -> bool {
        T::parse_requires()
    }

    open spec fn productive() -> bool {
        false
    }

    /// Items until `N` are parsed or one fails.
    open spec fn parses(before: StreamState, res: Result<Vec<T::Output>, Error>, after: StreamState) -> bool {
        up_to_outcome::<T>(before, Seq::empty(), N as int, res, after)
    }

    fn from_stream<S: StreamLike>(stream: &mut S) -> (res: Result<Vec<T::Output>, Error>) {
        let items: Vec<T::Output> = Vec::new();
        proof {
            assert(items@ =~= Seq::empty());
        }
        parse_up_to::<T, S>(stream, items, N)
    }
}

/// A helper for parsing `N..=M` items.
pub struct RepeatRange<T, const N: usize, const M: usize>(core::marker::PhantomData<([T; N], [T; M])>);

impl<T: FromStream, const N: usize, const M: usize> FromStream for RepeatRange<T, N, M> {
    type Output = Vec<T::Output>;

    open spec fn parse_requires() -> bool {
        T::parse_requires() && N <= M
    }

    open spec fn productive() -> bool {
        T::productive() && N > 0
    }

    /// `N` items, the failure of any of them being the result, then items
    /// until `M` are parsed in all or one fails.
    open spec fn parses(before: StreamState, res: Result<Vec<T::Output>, Error>, after: StreamState) -> bool {
        exists|r: Result<Vec<T::Output>, Error>, mid: StreamState|
            #![trigger exactly_outcome::<T>(before, N as int, r, mid)]
            {
                &&& exactly_outcome::<T>(before, N as int, r, mid)
                &&& match r {
                    Err(e) => after == mid && res == Err::<Vec<T::Output>, Error>(e),
                    Ok(v) => up_to_outcome::<T>(mid, v@, M as int, res, after),
                }
            }
    }

    fn from_stream<S: StreamLike>(stream: &mut S) -> (res: Result<Vec<T::Output>, Error>) {
        let ghost before = stream.state();
        let r = parse_exactly::<T, S>(stream, N);
        let ghost g = r;
        let ghost mid = stream.state();
        let items = match r {
            Ok(v) => v,
            Err(e) => {
                proof {
                    assert(exactly_outcome::<T>(before, N as int, g, mid));
                }
                return Err(e);
            },
        };
        proof {
            let (its, m) = choose|its: Seq<T::Output>, m: StreamState|
                #![trigger parses_many::<T>(before, its, m)]
                {
                    &&& parses_many::<T>(before, its, m)
                    &&& if its.len() == N as int {
                        &&& mid == m
                        &&& g matches Ok(v)
                        &&& v@ == its
                    } else {
                        &&& its.len() < N as int
                        &&& exists|e: Error| #[trigger] T::parses(m, Err(e), mid) && g == Err::<Vec<T::Output>, Error>(e)
                    }
                };
        }
        let res = parse_up_to::<T, S>(stream, items, M);
        proof {
            assert(exactly_outcome::<T>(before, N as int, g, mid));
        }
        res
    }
}

} // verus!
