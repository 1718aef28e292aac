//! Committing to a parse.
use crate::error::Error;
use crate::stream::{FromStream, StreamLike, StreamState};
use vstd::prelude::*;

verus! {

/// A helper for committing to a parse tree.
///
/// Turns all parse errors of `T` into fatal ones.
pub struct Cut<T>(pub T);

/// `res` is `r` with any error turned fatal.
pub open spec fn made_fatal<O>(r: Result<O, Error>, res: Result<O, Error>) -> bool {
    match r {
        Ok(v) => res == Ok::<O, Error>(v),
        Err(e) => res == Err::<O, Error>(Error { fatal: true, ..e }),
    }
}

impl<T: FromStream> FromStream for Cut<T> {
    type Output = T::Output;

    open spec fn parse_requires() -> bool {
        T::parse_requires()
    }

    open spec fn productive() -> bool {
        T::productive()
    }

    open spec fn parses(before: StreamState, res: Result<T::Output, Error>, after: StreamState) -> bool {
        exists|r: Result<T::Output, Error>| #[trigger] T::parses(before, r, after) && made_fatal(r, res)
    }

    fn from_stream<S: StreamLike>(stream: &mut S) -> (res: Result<T::Output, Error>) {
        let r = T::from_stream(stream);
        let ghost g = r;
        let res = match r {
            Ok(v) => Ok(v),
            Err(e) => Err(e.fatal()),
        };
        proof {
            assert(T::parses((*old(stream)).state(), g, stream.state()) && made_fatal(g, res));
        }
        res
    }
}

} // verus!
