//! Items separated by delimiters.
use crate::error::Error;
use crate::stream::{FromStream, StreamLike, StreamState};
use vstd::prelude::*;

verus! {

/// A helper for parsing a series of items.
///
/// Parses a series of items (`T`), separated by delimiters (`D`), with an
/// optional trailing delimiter.
///
/// Note that this doesn't parse any brackets around the items; for example, if
/// you want to parse a tuple, you'd need to layer [`Parens`](crate::Parens).
pub struct Delimited<T, D> {
    _items: core::marker::PhantomData<T>,
    _delimiter: core::marker::PhantomData<D>,
}

/// Items `items`, each followed by a delimiter, parsed from a stream in
/// state `before`, leaving it in state `after`.
pub open spec fn delimited_many<T: FromStream, D: FromStream>(
    before: StreamState,
    items: Seq<T::Output>,
    after: StreamState,
) -> bool
    decreases items.len(),
{
    if items.len() == 0 {
        after == before
    } else {
        exists|m1: StreamState, m2: StreamState, d: D::Output|
            #![trigger T::parses(m1, Ok(items.last()), m2), D::parses(m2, Ok(d), after)]
            {
                &&& delimited_many::<T, D>(before, items.drop_last(), m1)
                &&& T::parses(m1, Ok(items.last()), m2)
                &&& D::parses(m2, Ok(d), after)
            }
    }
}

/// How parsing delimited items ends, from a stream in state `mid` where
/// `items` were parsed: an item fails (fatally: the error; else: the items),
/// or an item is followed by a failing delimiter (fatally: the error; else:
/// the items with that last one).
pub open spec fn delimited_end<T: FromStream, D: FromStream>(
    items: Seq<T::Output>,
    mid: StreamState,
    res: Result<Vec<T::Output>, Error>,
    after: StreamState,
) -> bool {
    exists|r: Result<T::Output, Error>, m: StreamState|
        #![trigger T::parses(mid, r, m)]
        {
            &&& T::parses(mid, r, m)
            &&& match r {
                Err(e) => {
                    &&& after == m
                    &&& if e.fatal {
                        res == Err::<Vec<T::Output>, Error>(e)
                    } else {
                        res matches Ok(v) && v@ == items
                    }
                },
                Ok(x) => delimiter_end::<D, T::Output>(items.push(x), m, res, after),
            }
        }
}

/// A delimiter fails after `items`, from a stream in state `mid`: fatally,
/// the error is the result; else the items are.
pub open spec fn delimiter_end<D: FromStream, O>(
    items: Seq<O>,
    mid: StreamState,
    res: Result<Vec<O>, Error>,
    after: StreamState,
) -> bool {
    exists|e: Error|
        #[trigger] D::parses(mid, Err(e), after) && if e.fatal {
            res == Err::<Vec<O>, Error>(e)
        } else {
            res matches Ok(v) && v@ == items
        }
}

impl<T: FromStream, D: FromStream> FromStream for Delimited<T, D> {
    type Output = Vec<T::Output>;

    open spec fn parse_requires() -> bool {
        T::parse_requires() && D::parse_requires() && (T::productive() || D::productive())
    }

    open spec fn productive() -> bool {
        false
    }

    open spec fn parses(before: StreamState, res: Result<Vec<T::Output>, Error>, after: StreamState) -> bool {
        exists|items: Seq<T::Output>, mid: StreamState|
            #![trigger delimited_many::<T, D>(before, items, mid)]
            delimited_many::<T, D>(before, items, mid) && delimited_end::<T, D>(items, mid, res, after)
    }

    fn from_stream<S: StreamLike>(stream: &mut S) -> (res: Result<Vec<T::Output>, Error>) {
        let ghost before = stream.state();
        let mut items: Vec<T::Output> = Vec::new();
        proof {
            assert(items@ =~= Seq::<T::Output>::empty());
        }
        loop
            invariant
                T::parse_requires(),
                D::parse_requires(),
                T::productive() || D::productive(),
                stream.inv(),
                before == (*old(stream)).state(),
                delimited_many::<T, D>(before, items@, stream.state()),
                stream.state().tokens.len() <= before.tokens.len(),
            decreases stream.state().tokens.len(),
        {
            let ghost mid = stream.state();
            let r = T::from_stream(stream);
            let ghost g = r;
            let ghost m = stream.state();
            let item = match r {
                Ok(x) => x,
                Err(e) => {
                    proof {
                        assert(T::parses(mid, g, m));
                    }
                    if e.fatal {
                        return Err(e);
                    } else {
                        let res: Result<Vec<T::Output>, Error> = Ok(items);
                        proof {
                            assert(T::parses(mid, g, m));
                            assert(delimited_end::<T, D>(items@, mid, res, m));
                        }
                        return res;
                    }
                },
            };
            let rd = D::from_stream(stream);
            let ghost prev = items@;
            match rd {
                Ok(d) => {
                    items.push(item);
                    proof {
                        assert(items@.drop_last() =~= prev);
                        assert(T::parses(mid, Ok(items@.last()), m));
                        assert(D::parses(m, Ok(d), stream.state()));
                    }
                },
                Err(e) => {
                    if e.fatal {
                        proof {
                            assert(D::parses(m, Err(e), stream.state()));
                            assert(T::parses(mid, g, m));
                            assert(delimited_end::<T, D>(prev, mid, Err(e), stream.state()));
                        }
                        return Err(e);
                    } else {
                        items.push(item);
                        let res: Result<Vec<T::Output>, Error> = Ok(items);
                        proof {
                            assert(D::parses(m, Err(e), stream.state()));
                            assert(T::parses(mid, g, m));
                            assert(res matches Ok(v) && v@ == prev.push(item));
                            assert(delimited_end::<T, D>(prev, mid, res, stream.state()));
                        }
                        return res;
                    }
                },
            }
        }
    }
}

} // verus!
