//! Requiring an item to be the last in the stream.
use crate::error::{error_is, Error, ErrorText, Text};
use crate::stream::{FromStream, StreamLike, StreamState};
use crate::text::joined;
use vstd::prelude::*;

verus! {

/// A helper for ensuring a given item is the last in the stream.
///
/// Errors if the stream is non-empty after parsing the item (`T`).
pub struct Greedy<T>(core::marker::PhantomData<T>);

/// What parsing an item and then requiring the end of the stream gives,
/// where parsing the item gave `r` and left the stream in state `after`: the
/// error of the item, the item where no token is left, else a recoverable
/// error that expected the end of the stream, got the remaining tokens, and
/// points to the first of them.
pub open spec fn greedy_outcome<O>(r: Result<O, Error>, after: StreamState, res: Result<O, Error>) -> bool {
    match r {
        Err(e) => res == Err::<O, Error>(e),
        Ok(v) => if after.tokens.len() == 0 {
            res == Ok::<O, Error>(v)
        } else {
            res matches Err(e) && error_is(
                e,
                Text::EndOfStream,
                Text::Backticks(joined(after.tokens)),
                after.tokens[0].span(),
            )
        },
    }
}

impl<T: FromStream> FromStream for Greedy<T> {
    type Output = T::Output;

    open spec fn parse_requires() -> bool {
        T::parse_requires()
    }

    open spec fn productive() -> bool {
        T::productive()
    }

    open spec fn parses(before: StreamState, res: Result<T::Output, Error>, after: StreamState) -> bool {
        exists|r: Result<T::Output, Error>|
            #[trigger] T::parses(before, r, after) && greedy_outcome(r, after, res)
    }

    fn from_stream<S: StreamLike>(stream: &mut S) -> (res: Result<T::Output, Error>) {
        let r = T::from_stream(stream);
        let ghost g = r;
        let ghost mid = stream.state();
        let item = match r {
            Ok(v) => v,
            Err(e) => {
                proof {
                    assert(T::parses((*old(stream)).state(), g, mid) && greedy_outcome(g, mid, Err(e)));
                }
                return Err(e);
            },
        };
        let next = match stream.peek() {
            Some(tt) => Some(tt.span()),
            None => None,
        };
        let res = if let Some(span) = next {
            Err(Error::new(ErrorText::EndOfStream, ErrorText::Backticks(stream.stringify()), span))
        } else {
            Ok(item)
        };
        proof {
            assert(T::parses((*old(stream)).state(), g, stream.state()) && greedy_outcome(
                g,
                stream.state(),
                res,
            ));
        }
        res
    }
}

} // verus!
