//! Parsers and patterns for tuples: each part in turn.
use crate::error::Error;
use crate::stream::{
    join_diag, DiagDisplay, FromStream, MatchResult, MatchStream, StreamLike, StreamState,
    StreamView,
};
use vstd::prelude::*;
use vstd::string::*;

verus! {

/// Matches `item` on the stream `stream` reads as after skipping `total`
/// tokens, leaving `stream` as it was.
pub fn match_step<T: MatchStream, S: StreamLike>(item: &T, stream: &mut StreamView<'_, S>, total: usize) -> (res: MatchResult)
    requires
        (*old(stream)).inv(),
        total <= (*old(stream)).state().tokens.len(),
    ensures
        (*final(stream)).inv(),
        final(stream).same_base(old(stream)),
        *final(final(stream).stream) == *final(old(stream).stream),
        final(stream).skip == old(stream).skip,
        final(stream).span_close == old(stream).span_close,
        item.matches((*old(stream)).state().skipped(total as int), res),
        res matches Ok(n) ==> total + n <= (*old(stream)).state().tokens.len(),
{
    item.match_stream(stream.sub_view(total))
}

/// The first part of a tuple parses as `r` and leaves the stream in state
/// `mid`; then the last part, `T`, parses from there: the result is the
/// first error, or all the parts.
pub open spec fn then_parses<P, T: FromStream, O>(
    r: Result<P, Error>,
    mid: StreamState,
    res: Result<O, Error>,
    after: StreamState,
    join: spec_fn(P, T::Output) -> O,
) -> bool {
    match r {
        Err(e) => after == mid && res == Err::<O, Error>(e),
        Ok(p) => exists|rl: Result<T::Output, Error>|
            #[trigger] T::parses(mid, rl, after) && match rl {
                Err(e) => res == Err::<O, Error>(e),
                Ok(l) => res == Ok::<O, Error>(join(p, l)),
            },
    }
}

impl<A: FromStream> FromStream for (A,) {
    type Output = (A::Output,);

    open spec fn parse_requires() -> bool {
        A::parse_requires()
    }

    open spec fn productive() -> bool {
        A::productive()
    }

    open spec fn parses(before: StreamState, res: Result<Self::Output, Error>, after: StreamState) -> bool {
        exists|r: Result<A::Output, Error>|
            #[trigger] A::parses(before, r, after) && match r {
                Err(e) => res == Err::<Self::Output, Error>(e),
                Ok(x) => res == Ok::<Self::Output, Error>((x,)),
            }
    }

    fn from_stream<S: StreamLike>(stream: &mut S) -> (res: Result<Self::Output, Error>) {
        let r = A::from_stream(stream);
        let ghost g = r;
        proof {
            assert(A::parses((*old(stream)).state(), g, stream.state()));
        }
        match r {
            Err(e) => Err(e),
            Ok(x) => Ok((x,)),
        }
    }
}

impl<A: FromStream, B: FromStream> FromStream for (A, B) {
    type Output = (A::Output, B::Output);

    open spec fn parse_requires() -> bool {
        <(A,) as FromStream>::parse_requires() && B::parse_requires()
    }

    open spec fn productive() -> bool {
        <(A,) as FromStream>::productive() || B::productive()
    }

    open spec fn parses(before: StreamState, res: Result<Self::Output, Error>, after: StreamState) -> bool {
        exists|r: Result<(A::Output,), Error>, mid: StreamState|
            #[trigger] <(A,) as FromStream>::parses(before, r, mid) && then_parses::<(A::Output,), B, Self::Output>(
                r,
                mid,
                res,
                after,
                |p: (A::Output,), l: B::Output| (p.0, l),
            )
    }

    fn from_stream<S: StreamLike>(stream: &mut S) -> (res: Result<Self::Output, Error>) {
        let ghost before = stream.state();
        let r = <(A,) as FromStream>::from_stream(stream);
        let ghost g = r;
        let ghost mid = stream.state();
        proof {
            assert(<(A,) as FromStream>::parses(before, g, mid));
        }
        let (x0,) = match r {
            Ok(p) => p,
            Err(e) => {
                return Err(e);
            },
        };
        let rl = B::from_stream(stream);
        proof {
            assert(B::parses(mid, rl, stream.state()));
        }
        match rl {
            Err(e) => Err(e),
            Ok(l) => Ok((x0, l)),
        }
    }
}

impl<A: FromStream, B: FromStream, C: FromStream> FromStream for (A, B, C) {
    type Output = (A::Output, B::Output, C::Output);

    open spec fn parse_requires() -> bool {
        <(A, B) as FromStream>::parse_requires() && C::parse_requires()
    }

    open spec fn productive() -> bool {
        <(A, B) as FromStream>::productive() || C::productive()
    }

    open spec fn parses(before: StreamState, res: Result<Self::Output, Error>, after: StreamState) -> bool {
        exists|r: Result<(A::Output, B::Output), Error>, mid: StreamState|
            #[trigger] <(A, B) as FromStream>::parses(before, r, mid) && then_parses::<(A::Output, B::Output), C, Self::Output>(
                r,
                mid,
                res,
                after,
                |p: (A::Output, B::Output), l: C::Output| (p.0, p.1, l),
            )
    }

    fn from_stream<S: StreamLike>(stream: &mut S) -> (res: Result<Self::Output, Error>) {
        let ghost before = stream.state();
        let r = <(A, B) as FromStream>::from_stream(stream);
        let ghost g = r;
        let ghost mid = stream.state();
        proof {
            assert(<(A, B) as FromStream>::parses(before, g, mid));
        }
        let (x0, x1) = match r {
            Ok(p) => p,
            Err(e) => {
                return Err(e);
            },
        };
        let rl = C::from_stream(stream);
        proof {
            assert(C::parses(mid, rl, stream.state()));
        }
        match rl {
            Err(e) => Err(e),
            Ok(l) => Ok((x0, x1, l)),
        }
    }
}

impl<A: FromStream, B: FromStream, C: FromStream, D: FromStream> FromStream for (A, B, C, D) {
    type Output = (A::Output, B::Output, C::Output, D::Output);

    open spec fn parse_requires() -> bool {
        <(A, B, C) as FromStream>::parse_requires() && D::parse_requires()
    }

    open spec fn productive() -> bool {
        <(A, B, C) as FromStream>::productive() || D::productive()
    }

    open spec fn parses(before: StreamState, res: Result<Self::Output, Error>, after: StreamState) -> bool {
        exists|r: Result<(A::Output, B::Output, C::Output), Error>, mid: StreamState|
            #[trigger] <(A, B, C) as FromStream>::parses(before, r, mid) && then_parses::<(A::Output, B::Output, C::Output), D, Self::Output>(
                r,
                mid,
                res,
                after,
                |p: (A::Output, B::Output, C::Output), l: D::Output| (p.0, p.1, p.2, l),
            )
    }

    fn from_stream<S: StreamLike>(stream: &mut S) -> (res: Result<Self::Output, Error>) {
        let ghost before = stream.state();
        let r = <(A, B, C) as FromStream>::from_stream(stream);
        let ghost g = r;
        let ghost mid = stream.state();
        proof {
            assert(<(A, B, C) as FromStream>::parses(before, g, mid));
        }
        let (x0, x1, x2) = match r {
            Ok(p) => p,
            Err(e) => {
                return Err(e);
            },
        };
        let rl = D::from_stream(stream);
        proof {
            assert(D::parses(mid, rl, stream.state()));
        }
        match rl {
            Err(e) => Err(e),
            Ok(l) => Ok((x0, x1, x2, l)),
        }
    }
}

impl<A: FromStream, B: FromStream, C: FromStream, D: FromStream, E: FromStream> FromStream for (A, B, C, D, E) {
    type Output = (A::Output, B::Output, C::Output, D::Output, E::Output);

    open spec fn parse_requires() -> bool {
        <(A, B, C, D) as FromStream>::parse_requires() && E::parse_requires()
    }

    open spec fn productive() -> bool {
        <(A, B, C, D) as FromStream>::productive() || E::productive()
    }

    open spec fn parses(before: StreamState, res: Result<Self::Output, Error>, after: StreamState) -> bool {
        exists|r: Result<(A::Output, B::Output, C::Output, D::Output), Error>, mid: StreamState|
            #[trigger] <(A, B, C, D) as FromStream>::parses(before, r, mid) && then_parses::<(A::Output, B::Output, C::Output, D::Output), E, Self::Output>(
                r,
                mid,
                res,
                after,
                |p: (A::Output, B::Output, C::Output, D::Output), l: E::Output| (p.0, p.1, p.2, p.3, l),
            )
    }

    fn from_stream<S: StreamLike>(stream: &mut S) -> (res: Result<Self::Output, Error>) {
        let ghost before = stream.state();
        let r = <(A, B, C, D) as FromStream>::from_stream(stream);
        let ghost g = r;
        let ghost mid = stream.state();
        proof {
            assert(<(A, B, C, D) as FromStream>::parses(before, g, mid));
        }
        let (x0, x1, x2, x3) = match r {
            Ok(p) => p,
            Err(e) => {
                return Err(e);
            },
        };
        let rl = E::from_stream(stream);
        proof {
            assert(E::parses(mid, rl, stream.state()));
        }
        match rl {
            Err(e) => Err(e),
            Ok(l) => Ok((x0, x1, x2, x3, l)),
        }
    }
}

impl<A: FromStream, B: FromStream, C: FromStream, D: FromStream, E: FromStream, F: FromStream> FromStream for (A, B, C, D, E, F) {
    type Output = (A::Output, B::Output, C::Output, D::Output, E::Output, F::Output);

    open spec fn parse_requires() -> bool {
        <(A, B, C, D, E) as FromStream>::parse_requires() && F::parse_requires()
    }

    open spec fn productive() -> bool {
        <(A, B, C, D, E) as FromStream>::productive() || F::productive()
    }

    open spec fn parses(before: StreamState, res: Result<Self::Output, Error>, after: StreamState) -> bool {
        exists|r: Result<(A::Output, B::Output, C::Output, D::Output, E::Output), Error>, mid: StreamState|
            #[trigger] <(A, B, C, D, E) as FromStream>::parses(before, r, mid) && then_parses::<(A::Output, B::Output, C::Output, D::Output, E::Output), F, Self::Output>(
                r,
                mid,
                res,
                after,
                |p: (A::Output, B::Output, C::Output, D::Output, E::Output), l: F::Output| (p.0, p.1, p.2, p.3, p.4, l),
            )
    }

    fn from_stream<S: StreamLike>(stream: &mut S) -> (res: Result<Self::Output, Error>) {
        let ghost before = stream.state();
        let r = <(A, B, C, D, E) as FromStream>::from_stream(stream);
        let ghost g = r;
        let ghost mid = stream.state();
        proof {
            assert(<(A, B, C, D, E) as FromStream>::parses(before, g, mid));
        }
        let (x0, x1, x2, x3, x4) = match r {
            Ok(p) => p,
            Err(e) => {
                return Err(e);
            },
        };
        let rl = F::from_stream(stream);
        proof {
            assert(F::parses(mid, rl, stream.state()));
        }
        match rl {
            Err(e) => Err(e),
            Ok(l) => Ok((x0, x1, x2, x3, x4, l)),
        }
    }
}

impl<A: FromStream, B: FromStream, C: FromStream, D: FromStream, E: FromStream, F: FromStream, G: FromStream> FromStream for (A, B, C, D, E, F, G) {
    type Output = (A::Output, B::Output, C::Output, D::Output, E::Output, F::Output, G::Output);

    open spec fn parse_requires() -> bool {
        <(A, B, C, D, E, F) as FromStream>::parse_requires() && G::parse_requires()
    }

    open spec fn productive() -> bool {
        <(A, B, C, D, E, F) as FromStream>::productive() || G::productive()
    }

    open spec fn parses(before: StreamState, res: Result<Self::Output, Error>, after: StreamState) -> bool {
        exists|r: Result<(A::Output, B::Output, C::Output, D::Output, E::Output, F::Output), Error>, mid: StreamState|
            #[trigger] <(A, B, C, D, E, F) as FromStream>::parses(before, r, mid) && then_parses::<(A::Output, B::Output, C::Output, D::Output, E::Output, F::Output), G, Self::Output>(
                r,
                mid,
                res,
                after,
                |p: (A::Output, B::Output, C::Output, D::Output, E::Output, F::Output), l: G::Output| (p.0, p.1, p.2, p.3, p.4, p.5, l),
            )
    }

    fn from_stream<S: StreamLike>(stream: &mut S) -> (res: Result<Self::Output, Error>) {
        let ghost before = stream.state();
        let r = <(A, B, C, D, E, F) as FromStream>::from_stream(stream);
        let ghost g = r;
        let ghost mid = stream.state();
        proof {
            assert(<(A, B, C, D, E, F) as FromStream>::parses(before, g, mid));
        }
        let (x0, x1, x2, x3, x4, x5) = match r {
            Ok(p) => p,
            Err(e) => {
                return Err(e);
            },
        };
        let rl = G::from_stream(stream);
        proof {
            assert(G::parses(mid, rl, stream.state()));
        }
        match rl {
            Err(e) => Err(e),
            Ok(l) => Ok((x0, x1, x2, x3, x4, x5, l)),
        }
    }
}

impl<A: FromStream, B: FromStream, C: FromStream, D: FromStream, E: FromStream, F: FromStream, G: FromStream, H: FromStream> FromStream for (A, B, C, D, E, F, G, H) {
    type Output = (A::Output, B::Output, C::Output, D::Output, E::Output, F::Output, G::Output, H::Output);

    open spec fn parse_requires() -> bool {
        <(A, B, C, D, E, F, G) as FromStream>::parse_requires() && H::parse_requires()
    }

    open spec fn productive() -> bool {
        <(A, B, C, D, E, F, G) as FromStream>::productive() || H::productive()
    }

    open spec fn parses(before: StreamState, res: Result<Self::Output, Error>, after: StreamState) -> bool {
        exists|r: Result<(A::Output, B::Output, C::Output, D::Output, E::Output, F::Output, G::Output), Error>, mid: StreamState|
            #[trigger] <(A, B, C, D, E, F, G) as FromStream>::parses(before, r, mid) && then_parses::<(A::Output, B::Output, C::Output, D::Output, E::Output, F::Output, G::Output), H, Self::Output>(
                r,
                mid,
                res,
                after,
                |p: (A::Output, B::Output, C::Output, D::Output, E::Output, F::Output, G::Output), l: H::Output| (p.0, p.1, p.2, p.3, p.4, p.5, p.6, l),
            )
    }

    fn from_stream<S: StreamLike>(stream: &mut S) -> (res: Result<Self::Output, Error>) {
        let ghost before = stream.state();
        let r = <(A, B, C, D, E, F, G) as FromStream>::from_stream(stream);
        let ghost g = r;
        let ghost mid = stream.state();
        proof {
            assert(<(A, B, C, D, E, F, G) as FromStream>::parses(before, g, mid));
        }
        let (x0, x1, x2, x3, x4, x5, x6) = match r {
            Ok(p) => p,
            Err(e) => {
                return Err(e);
            },
        };
        let rl = H::from_stream(stream);
        proof {
            assert(H::parses(mid, rl, stream.state()));
        }
        match rl {
            Err(e) => Err(e),
            Ok(l) => Ok((x0, x1, x2, x3, x4, x5, x6, l)),
        }
    }
}

impl<A: FromStream, B: FromStream, C: FromStream, D: FromStream, E: FromStream, F: FromStream, G: FromStream, H: FromStream, I: FromStream> FromStream for (A, B, C, D, E, F, G, H, I) {
    type Output = (A::Output, B::Output, C::Output, D::Output, E::Output, F::Output, G::Output, H::Output, I::Output);

    open spec fn parse_requires() -> bool {
        <(A, B, C, D, E, F, G, H) as FromStream>::parse_requires() && I::parse_requires()
    }

    open spec fn productive() -> bool {
        <(A, B, C, D, E, F, G, H) as FromStream>::productive() || I::productive()
    }

    open spec fn parses(before: StreamState, res: Result<Self::Output, Error>, after: StreamState) -> bool {
        exists|r: Result<(A::Output, B::Output, C::Output, D::Output, E::Output, F::Output, G::Output, H::Output), Error>, mid: StreamState|
            #[trigger] <(A, B, C, D, E, F, G, H) as FromStream>::parses(before, r, mid) && then_parses::<(A::Output, B::Output, C::Output, D::Output, E::Output, F::Output, G::Output, H::Output), I, Self::Output>(
                r,
                mid,
                res,
                after,
                |p: (A::Output, B::Output, C::Output, D::Output, E::Output, F::Output, G::Output, H::Output), l: I::Output| (p.0, p.1, p.2, p.3, p.4, p.5, p.6, p.7, l),
            )
    }

    fn from_stream<S: StreamLike>(stream: &mut S) -> (res: Result<Self::Output, Error>) {
        let ghost before = stream.state();
        let r = <(A, B, C, D, E, F, G, H) as FromStream>::from_stream(stream);
        let ghost g = r;
        let ghost mid = stream.state();
        proof {
            assert(<(A, B, C, D, E, F, G, H) as FromStream>::parses(before, g, mid));
        }
        let (x0, x1, x2, x3, x4, x5, x6, x7) = match r {
            Ok(p) => p,
            Err(e) => {
                return Err(e);
            },
        };
        let rl = I::from_stream(stream);
        proof {
            assert(I::parses(mid, rl, stream.state()));
        }
        match rl {
            Err(e) => Err(e),
            Ok(l) => Ok((x0, x1, x2, x3, x4, x5, x6, x7, l)),
        }
    }
}

impl<A: FromStream, B: FromStream, C: FromStream, D: FromStream, E: FromStream, F: FromStream, G: FromStream, H: FromStream, I: FromStream, J: FromStream> FromStream for (A, B, C, D, E, F, G, H, I, J) {
    type Output = (A::Output, B::Output, C::Output, D::Output, E::Output, F::Output, G::Output, H::Output, I::Output, J::Output);

    open spec fn parse_requires() -> bool {
        <(A, B, C, D, E, F, G, H, I) as FromStream>::parse_requires() && J::parse_requires()
    }

    open spec fn productive() -> bool {
        <(A, B, C, D, E, F, G, H, I) as FromStream>::productive() || J::productive()
    }

    open spec fn parses(before: StreamState, res: Result<Self::Output, Error>, after: StreamState) -> bool {
        exists|r: Result<(A::Output, B::Output, C::Output, D::Output, E::Output, F::Output, G::Output, H::Output, I::Output), Error>, mid: StreamState|
            #[trigger] <(A, B, C, D, E, F, G, H, I) as FromStream>::parses(before, r, mid) && then_parses::<(A::Output, B::Output, C::Output, D::Output, E::Output, F::Output, G::Output, H::Output, I::Output), J, Self::Output>(
                r,
                mid,
                res,
                after,
                |p: (A::Output, B::Output, C::Output, D::Output, E::Output, F::Output, G::Output, H::Output, I::Output), l: J::Output| (p.0, p.1, p.2, p.3, p.4, p.5, p.6, p.7, p.8, l),
            )
    }

    fn from_stream<S: StreamLike>(stream: &mut S) -> (res: Result<Self::Output, Error>) {
        let ghost before = stream.state();
        let r = <(A, B, C, D, E, F, G, H, I) as FromStream>::from_stream(stream);
        let ghost g = r;
        let ghost mid = stream.state();
        proof {
            assert(<(A, B, C, D, E, F, G, H, I) as FromStream>::parses(before, g, mid));
        }
        let (x0, x1, x2, x3, x4, x5, x6, x7, x8) = match r {
            Ok(p) => p,
            Err(e) => {
                return Err(e);
            },
        };
        let rl = J::from_stream(stream);
        proof {
            assert(J::parses(mid, rl, stream.state()));
        }
        match rl {
            Err(e) => Err(e),
            Ok(l) => Ok((x0, x1, x2, x3, x4, x5, x6, x7, x8, l)),
        }
    }
}

impl<A: FromStream, B: FromStream, C: FromStream, D: FromStream, E: FromStream, F: FromStream, G: FromStream, H: FromStream, I: FromStream, J: FromStream, K: FromStream> FromStream for (A, B, C, D, E, F, G, H, I, J, K) {
    type Output = (A::Output, B::Output, C::Output, D::Output, E::Output, F::Output, G::Output, H::Output, I::Output, J::Output, K::Output);

    open spec fn parse_requires() -> bool {
        <(A, B, C, D, E, F, G, H, I, J) as FromStream>::parse_requires() && K::parse_requires()
    }

    open spec fn productive() -> bool {
        <(A, B, C, D, E, F, G, H, I, J) as FromStream>::productive() || K::productive()
    }

    open spec fn parses(before: StreamState, res: Result<Self::Output, Error>, after: StreamState) -> bool {
        exists|r: Result<(A::Output, B::Output, C::Output, D::Output, E::Output, F::Output, G::Output, H::Output, I::Output, J::Output), Error>, mid: StreamState|
            #[trigger] <(A, B, C, D, E, F, G, H, I, J) as FromStream>::parses(before, r, mid) && then_parses::<(A::Output, B::Output, C::Output, D::Output, E::Output, F::Output, G::Output, H::Output, I::Output, J::Output), K, Self::Output>(
                r,
                mid,
                res,
                after,
                |p: (A::Output, B::Output, C::Output, D::Output, E::Output, F::Output, G::Output, H::Output, I::Output, J::Output), l: K::Output| (p.0, p.1, p.2, p.3, p.4, p.5, p.6, p.7, p.8, p.9, l),
            )
    }

    fn from_stream<S: StreamLike>(stream: &mut S) -> (res: Result<Self::Output, Error>) {
        let ghost before = stream.state();
        let r = <(A, B, C, D, E, F, G, H, I, J) as FromStream>::from_stream(stream);
        let ghost g = r;
        let ghost mid = stream.state();
        proof {
            assert(<(A, B, C, D, E, F, G, H, I, J) as FromStream>::parses(before, g, mid));
        }
        let (x0, x1, x2, x3, x4, x5, x6, x7, x8, x9) = match r {
            Ok(p) => p,
            Err(e) => {
                return Err(e);
            },
        };
        let rl = K::from_stream(stream);
        proof {
            assert(K::parses(mid, rl, stream.state()));
        }
        match rl {
            Err(e) => Err(e),
            Ok(l) => Ok((x0, x1, x2, x3, x4, x5, x6, x7, x8, x9, l)),
        }
    }
}

impl<A: FromStream, B: FromStream, C: FromStream, D: FromStream, E: FromStream, F: FromStream, G: FromStream, H: FromStream, I: FromStream, J: FromStream, K: FromStream, L: FromStream> FromStream for (A, B, C, D, E, F, G, H, I, J, K, L) {
    type Output = (A::Output, B::Output, C::Output, D::Output, E::Output, F::Output, G::Output, H::Output, I::Output, J::Output, K::Output, L::Output);

    open spec fn parse_requires() -> bool {
        <(A, B, C, D, E, F, G, H, I, J, K) as FromStream>::parse_requires() && L::parse_requires()
    }

    open spec fn productive() -> bool {
        <(A, B, C, D, E, F, G, H, I, J, K) as FromStream>::productive() || L::productive()
    }

    open spec fn parses(before: StreamState, res: Result<Self::Output, Error>, after: StreamState) -> bool {
        exists|r: Result<(A::Output, B::Output, C::Output, D::Output, E::Output, F::Output, G::Output, H::Output, I::Output, J::Output, K::Output), Error>, mid: StreamState|
            #[trigger] <(A, B, C, D, E, F, G, H, I, J, K) as FromStream>::parses(before, r, mid) && then_parses::<(A::Output, B::Output, C::Output, D::Output, E::Output, F::Output, G::Output, H::Output, I::Output, J::Output, K::Output), L, Self::Output>(
                r,
                mid,
                res,
                after,
                |p: (A::Output, B::Output, C::Output, D::Output, E::Output, F::Output, G::Output, H::Output, I::Output, J::Output, K::Output), l: L::Output| (p.0, p.1, p.2, p.3, p.4, p.5, p.6, p.7, p.8, p.9, p.10, l),
            )
    }

    fn from_stream<S: StreamLike>(stream: &mut S) -> (res: Result<Self::Output, Error>) {
        let ghost before = stream.state();
        let r = <(A, B, C, D, E, F, G, H, I, J, K) as FromStream>::from_stream(stream);
        let ghost g = r;
        let ghost mid = stream.state();
        proof {
            assert(<(A, B, C, D, E, F, G, H, I, J, K) as FromStream>::parses(before, g, mid));
        }
        let (x0, x1, x2, x3, x4, x5, x6, x7, x8, x9, x10) = match r {
            Ok(p) => p,
            Err(e) => {
                return Err(e);
            },
        };
        let rl = L::from_stream(stream);
        proof {
            assert(L::parses(mid, rl, stream.state()));
        }
        match rl {
            Err(e) => Err(e),
            Ok(l) => Ok((x0, x1, x2, x3, x4, x5, x6, x7, x8, x9, x10, l)),
        }
    }
}

impl<A: FromStream, B: FromStream, C: FromStream, D: FromStream, E: FromStream, F: FromStream, G: FromStream, H: FromStream, I: FromStream, J: FromStream, K: FromStream, L: FromStream, M: FromStream> FromStream for (A, B, C, D, E, F, G, H, I, J, K, L, M) {
    type Output = (A::Output, B::Output, C::Output, D::Output, E::Output, F::Output, G::Output, H::Output, I::Output, J::Output, K::Output, L::Output, M::Output);

    open spec fn parse_requires() -> bool {
        <(A, B, C, D, E, F, G, H, I, J, K, L) as FromStream>::parse_requires() && M::parse_requires()
    }

    open spec fn productive() -> bool {
        <(A, B, C, D, E, F, G, H, I, J, K, L) as FromStream>::productive() || M::productive()
    }

    open spec fn parses(before: StreamState, res: Result<Self::Output, Error>, after: StreamState) -> bool {
        exists|r: Result<(A::Output, B::Output, C::Output, D::Output, E::Output, F::Output, G::Output, H::Output, I::Output, J::Output, K::Output, L::Output), Error>, mid: StreamState|
            #[trigger] <(A, B, C, D, E, F, G, H, I, J, K, L) as FromStream>::parses(before, r, mid) && then_parses::<(A::Output, B::Output, C::Output, D::Output, E::Output, F::Output, G::Output, H::Output, I::Output, J::Output, K::Output, L::Output), M, Self::Output>(
                r,
                mid,
                res,
                after,
                |p: (A::Output, B::Output, C::Output, D::Output, E::Output, F::Output, G::Output, H::Output, I::Output, J::Output, K::Output, L::Output), l: M::Output| (p.0, p.1, p.2, p.3, p.4, p.5, p.6, p.7, p.8, p.9, p.10, p.11, l),
            )
    }

    fn from_stream<S: StreamLike>(stream: &mut S) -> (res: Result<Self::Output, Error>) {
        let ghost before = stream.state();
        let r = <(A, B, C, D, E, F, G, H, I, J, K, L) as FromStream>::from_stream(stream);
        let ghost g = r;
        let ghost mid = stream.state();
        proof {
            assert(<(A, B, C, D, E, F, G, H, I, J, K, L) as FromStream>::parses(before, g, mid));
        }
        let (x0, x1, x2, x3, x4, x5, x6, x7, x8, x9, x10, x11) = match r {
            Ok(p) => p,
            Err(e) => {
                return Err(e);
            },
        };
        let rl = M::from_stream(stream);
        proof {
            assert(M::parses(mid, rl, stream.state()));
        }
        match rl {
            Err(e) => Err(e),
            Ok(l) => Ok((x0, x1, x2, x3, x4, x5, x6, x7, x8, x9, x10, x11, l)),
        }
    }
}

impl<A: FromStream, B: FromStream, C: FromStream, D: FromStream, E: FromStream, F: FromStream, G: FromStream, H: FromStream, I: FromStream, J: FromStream, K: FromStream, L: FromStream, M: FromStream, N: FromStream> FromStream for (A, B, C, D, E, F, G, H, I, J, K, L, M, N) {
    type Output = (A::Output, B::Output, C::Output, D::Output, E::Output, F::Output, G::Output, H::Output, I::Output, J::Output, K::Output, L::Output, M::Output, N::Output);

    open spec fn parse_requires() -> bool {
        <(A, B, C, D, E, F, G, H, I, J, K, L, M) as FromStream>::parse_requires() && N::parse_requires()
    }

    open spec fn productive() -> bool {
        <(A, B, C, D, E, F, G, H, I, J, K, L, M) as FromStream>::productive() || N::productive()
    }

    open spec fn parses(before: StreamState, res: Result<Self::Output, Error>, after: StreamState) -> bool {
        exists|r: Result<(A::Output, B::Output, C::Output, D::Output, E::Output, F::Output, G::Output, H::Output, I::Output, J::Output, K::Output, L::Output, M::Output), Error>, mid: StreamState|
            #[trigger] <(A, B, C, D, E, F, G, H, I, J, K, L, M) as FromStream>::parses(before, r, mid) && then_parses::<(A::Output, B::Output, C::Output, D::Output, E::Output, F::Output, G::Output, H::Output, I::Output, J::Output, K::Output, L::Output, M::Output), N, Self::Output>(
                r,
                mid,
                res,
                after,
                |p: (A::Output, B::Output, C::Output, D::Output, E::Output, F::Output, G::Output, H::Output, I::Output, J::Output, K::Output, L::Output, M::Output), l: N::Output| (p.0, p.1, p.2, p.3, p.4, p.5, p.6, p.7, p.8, p.9, p.10, p.11, p.12, l),
            )
    }

    fn from_stream<S: StreamLike>(stream: &mut S) -> (res: Result<Self::Output, Error>) {
        let ghost before = stream.state();
        let r = <(A, B, C, D, E, F, G, H, I, J, K, L, M) as FromStream>::from_stream(stream);
        let ghost g = r;
        let ghost mid = stream.state();
        proof {
            assert(<(A, B, C, D, E, F, G, H, I, J, K, L, M) as FromStream>::parses(before, g, mid));
        }
        let (x0, x1, x2, x3, x4, x5, x6, x7, x8, x9, x10, x11, x12) = match r {
            Ok(p) => p,
            Err(e) => {
                return Err(e);
            },
        };
        let rl = N::from_stream(stream);
        proof {
            assert(N::parses(mid, rl, stream.state()));
        }
        match rl {
            Err(e) => Err(e),
            Ok(l) => Ok((x0, x1, x2, x3, x4, x5, x6, x7, x8, x9, x10, x11, x12, l)),
        }
    }
}

impl<A: FromStream, B: FromStream, C: FromStream, D: FromStream, E: FromStream, F: FromStream, G: FromStream, H: FromStream, I: FromStream, J: FromStream, K: FromStream, L: FromStream, M: FromStream, N: FromStream, O: FromStream> FromStream for (A, B, C, D, E, F, G, H, I, J, K, L, M, N, O) {
    type Output = (A::Output, B::Output, C::Output, D::Output, E::Output, F::Output, G::Output, H::Output, I::Output, J::Output, K::Output, L::Output, M::Output, N::Output, O::Output);

    open spec fn parse_requires() -> bool {
        <(A, B, C, D, E, F, G, H, I, J, K, L, M, N) as FromStream>::parse_requires() && O::parse_requires()
    }

    open spec fn productive() -> bool {
        <(A, B, C, D, E, F, G, H, I, J, K, L, M, N) as FromStream>::productive() || O::productive()
    }

    open spec fn parses(before: StreamState, res: Result<Self::Output, Error>, after: StreamState) -> bool {
        exists|r: Result<(A::Output, B::Output, C::Output, D::Output, E::Output, F::Output, G::Output, H::Output, I::Output, J::Output, K::Output, L::Output, M::Output, N::Output), Error>, mid: StreamState|
            #[trigger] <(A, B, C, D, E, F, G, H, I, J, K, L, M, N) as FromStream>::parses(before, r, mid) && then_parses::<(A::Output, B::Output, C::Output, D::Output, E::Output, F::Output, G::Output, H::Output, I::Output, J::Output, K::Output, L::Output, M::Output, N::Output), O, Self::Output>(
                r,
                mid,
                res,
                after,
                |p: (A::Output, B::Output, C::Output, D::Output, E::Output, F::Output, G::Output, H::Output, I::Output, J::Output, K::Output, L::Output, M::Output, N::Output), l: O::Output| (p.0, p.1, p.2, p.3, p.4, p.5, p.6, p.7, p.8, p.9, p.10, p.11, p.12, p.13, l),
            )
    }

    fn from_stream<S: StreamLike>(stream: &mut S) -> (res: Result<Self::Output, Error>) {
        let ghost before = stream.state();
        let r = <(A, B, C, D, E, F, G, H, I, J, K, L, M, N) as FromStream>::from_stream(stream);
        let ghost g = r;
        let ghost mid = stream.state();
        proof {
            assert(<(A, B, C, D, E, F, G, H, I, J, K, L, M, N) as FromStream>::parses(before, g, mid));
        }
        let (x0, x1, x2, x3, x4, x5, x6, x7, x8, x9, x10, x11, x12, x13) = match r {
            Ok(p) => p,
            Err(e) => {
                return Err(e);
            },
        };
        let rl = O::from_stream(stream);
        proof {
            assert(O::parses(mid, rl, stream.state()));
        }
        match rl {
            Err(e) => Err(e),
            Ok(l) => Ok((x0, x1, x2, x3, x4, x5, x6, x7, x8, x9, x10, x11, x12, x13, l)),
        }
    }
}

impl<A: FromStream, B: FromStream, C: FromStream, D: FromStream, E: FromStream, F: FromStream, G: FromStream, H: FromStream, I: FromStream, J: FromStream, K: FromStream, L: FromStream, M: FromStream, N: FromStream, O: FromStream, P: FromStream> FromStream for (A, B, C, D, E, F, G, H, I, J, K, L, M, N, O, P) {
    type Output = (A::Output, B::Output, C::Output, D::Output, E::Output, F::Output, G::Output, H::Output, I::Output, J::Output, K::Output, L::Output, M::Output, N::Output, O::Output, P::Output);

    open spec fn parse_requires() -> bool {
        <(A, B, C, D, E, F, G, H, I, J, K, L, M, N, O) as FromStream>::parse_requires() && P::parse_requires()
    }

    open spec fn productive() -> bool {
        <(A, B, C, D, E, F, G, H, I, J, K, L, M, N, O) as FromStream>::productive() || P::productive()
    }

    open spec fn parses(before: StreamState, res: Result<Self::Output, Error>, after: StreamState) -> bool {
        exists|r: Result<(A::Output, B::Output, C::Output, D::Output, E::Output, F::Output, G::Output, H::Output, I::Output, J::Output, K::Output, L::Output, M::Output, N::Output, O::Output), Error>, mid: StreamState|
            #[trigger] <(A, B, C, D, E, F, G, H, I, J, K, L, M, N, O) as FromStream>::parses(before, r, mid) && then_parses::<(A::Output, B::Output, C::Output, D::Output, E::Output, F::Output, G::Output, H::Output, I::Output, J::Output, K::Output, L::Output, M::Output, N::Output, O::Output), P, Self::Output>(
                r,
                mid,
                res,
                after,
                |p: (A::Output, B::Output, C::Output, D::Output, E::Output, F::Output, G::Output, H::Output, I::Output, J::Output, K::Output, L::Output, M::Output, N::Output, O::Output), l: P::Output| (p.0, p.1, p.2, p.3, p.4, p.5, p.6, p.7, p.8, p.9, p.10, p.11, p.12, p.13, p.14, l),
            )
    }

    fn from_stream<S: StreamLike>(stream: &mut S) -> (res: Result<Self::Output, Error>) {
        let ghost before = stream.state();
        let r = <(A, B, C, D, E, F, G, H, I, J, K, L, M, N, O) as FromStream>::from_stream(stream);
        let ghost g = r;
        let ghost mid = stream.state();
        proof {
            assert(<(A, B, C, D, E, F, G, H, I, J, K, L, M, N, O) as FromStream>::parses(before, g, mid));
        }
        let (x0, x1, x2, x3, x4, x5, x6, x7, x8, x9, x10, x11, x12, x13, x14) = match r {
            Ok(p) => p,
            Err(e) => {
                return Err(e);
            },
        };
        let rl = P::from_stream(stream);
        proof {
            assert(P::parses(mid, rl, stream.state()));
        }
        match rl {
            Err(e) => Err(e),
            Ok(l) => Ok((x0, x1, x2, x3, x4, x5, x6, x7, x8, x9, x10, x11, x12, x13, x14, l)),
        }
    }
}

impl<A: DiagDisplay> DiagDisplay for (A,) {
    open spec fn diag(&self) -> Option<Seq<char>> {
        self.0.diag()
    }

    fn diag_string(&self) -> (s: String) {
        let mut s = String::new();
        let d0 = self.0.diag_string();
        s.append(d0.as_str());
        proof {
            if self.0.diag() is Some {
                assert(s@ =~= d0@);
            }
        }
        s
    }
}

impl<A: MatchStream> MatchStream for (A,) {
    open spec fn matches(&self, st: StreamState, res: MatchResult) -> bool {
        exists|r0: MatchResult, t0: int|
#![trigger self.0.matches(st.skipped(t0), r0)]
{
&&& t0 == 0
&&& self.0.matches(st.skipped(t0), r0)
&&& match r0 {
Err(x) => res == Err::<usize, Option<String>>(x),
Ok(n0) => res == Ok::<usize, Option<String>>((t0 + n0) as usize),
}
}
    }

    fn match_stream<S: StreamLike>(&self, stream: StreamView<'_, S>) -> (res: MatchResult) {
        let mut stream = stream;
        let mut total: usize = 0;
        proof {
            stream.lemma_len_bound();
        }
        let n0 = match_step(&self.0, &mut stream, total)?;
        total = total + n0;
        Ok(total)
    }
}

impl<A: DiagDisplay, B: DiagDisplay> DiagDisplay for (A, B) {
    open spec fn diag(&self) -> Option<Seq<char>> {
        join_diag(self.0.diag(), self.1.diag())
    }

    fn diag_string(&self) -> (s: String) {
        let mut s = String::new();
        let d0 = self.0.diag_string();
        s.append(d0.as_str());
        let d1 = self.1.diag_string();
        s.append(d1.as_str());
        proof {
            if self.0.diag() is Some && self.1.diag() is Some {
                assert(s@ =~= d0@ + d1@);
            }
        }
        s
    }
}

impl<A: MatchStream, B: MatchStream> MatchStream for (A, B) {
    open spec fn matches(&self, st: StreamState, res: MatchResult) -> bool {
        exists|r0: MatchResult, t0: int|
#![trigger self.0.matches(st.skipped(t0), r0)]
{
&&& t0 == 0
&&& self.0.matches(st.skipped(t0), r0)
&&& match r0 {
Err(x) => res == Err::<usize, Option<String>>(x),
Ok(n0) => exists|r1: MatchResult, t1: int|
#![trigger self.1.matches(st.skipped(t1), r1)]
{
&&& t1 == t0 + n0
&&& self.1.matches(st.skipped(t1), r1)
&&& match r1 {
Err(x) => res == Err::<usize, Option<String>>(x),
Ok(n1) => res == Ok::<usize, Option<String>>((t1 + n1) as usize),
}
},
}
}
    }

    fn match_stream<S: StreamLike>(&self, stream: StreamView<'_, S>) -> (res: MatchResult) {
        let mut stream = stream;
        let mut total: usize = 0;
        proof {
            stream.lemma_len_bound();
        }
        let n0 = match_step(&self.0, &mut stream, total)?;
        total = total + n0;
        let n1 = match_step(&self.1, &mut stream, total)?;
        total = total + n1;
        Ok(total)
    }
}

impl<A: DiagDisplay, B: DiagDisplay, C: DiagDisplay> DiagDisplay for (A, B, C) {
    open spec fn diag(&self) -> Option<Seq<char>> {
        join_diag(join_diag(self.0.diag(), self.1.diag()), self.2.diag())
    }

    fn diag_string(&self) -> (s: String) {
        let mut s = String::new();
        let d0 = self.0.diag_string();
        s.append(d0.as_str());
        let d1 = self.1.diag_string();
        s.append(d1.as_str());
        let d2 = self.2.diag_string();
        s.append(d2.as_str());
        proof {
            if self.0.diag() is Some && self.1.diag() is Some && self.2.diag() is Some {
                assert(s@ =~= d0@ + d1@ + d2@);
            }
        }
        s
    }
}

impl<A: MatchStream, B: MatchStream, C: MatchStream> MatchStream for (A, B, C) {
    open spec fn matches(&self, st: StreamState, res: MatchResult) -> bool {
        exists|r0: MatchResult, t0: int|
#![trigger self.0.matches(st.skipped(t0), r0)]
{
&&& t0 == 0
&&& self.0.matches(st.skipped(t0), r0)
&&& match r0 {
Err(x) => res == Err::<usize, Option<String>>(x),
Ok(n0) => exists|r1: MatchResult, t1: int|
#![trigger self.1.matches(st.skipped(t1), r1)]
{
&&& t1 == t0 + n0
&&& self.1.matches(st.skipped(t1), r1)
&&& match r1 {
Err(x) => res == Err::<usize, Option<String>>(x),
Ok(n1) => exists|r2: MatchResult, t2: int|
#![trigger self.2.matches(st.skipped(t2), r2)]
{
&&& t2 == t1 + n1
&&& self.2.matches(st.skipped(t2), r2)
&&& match r2 {
Err(x) => res == Err::<usize, Option<String>>(x),
Ok(n2) => res == Ok::<usize, Option<String>>((t2 + n2) as usize),
}
},
}
},
}
}
    }

    fn match_stream<S: StreamLike>(&self, stream: StreamView<'_, S>) -> (res: MatchResult) {
        let mut stream = stream;
        let mut total: usize = 0;
        proof {
            stream.lemma_len_bound();
        }
        let n0 = match_step(&self.0, &mut stream, total)?;
        total = total + n0;
        let n1 = match_step(&self.1, &mut stream, total)?;
        total = total + n1;
        let n2 = match_step(&self.2, &mut stream, total)?;
        total = total + n2;
        Ok(total)
    }
}

impl<A: DiagDisplay, B: DiagDisplay, C: DiagDisplay, D: DiagDisplay> DiagDisplay for (A, B, C, D) {
    open spec fn diag(&self) -> Option<Seq<char>> {
        join_diag(join_diag(join_diag(self.0.diag(), self.1.diag()), self.2.diag()), self.3.diag())
    }

    fn diag_string(&self) -> (s: String) {
        let mut s = String::new();
        let d0 = self.0.diag_string();
        s.append(d0.as_str());
        let d1 = self.1.diag_string();
        s.append(d1.as_str());
        let d2 = self.2.diag_string();
        s.append(d2.as_str());
        let d3 = self.3.diag_string();
        s.append(d3.as_str());
        proof {
            if self.0.diag() is Some && self.1.diag() is Some && self.2.diag() is Some && self.3.diag() is Some {
                assert(s@ =~= d0@ + d1@ + d2@ + d3@);
            }
        }
        s
    }
}

impl<A: MatchStream, B: MatchStream, C: MatchStream, D: MatchStream> MatchStream for (A, B, C, D) {
    open spec fn matches(&self, st: StreamState, res: MatchResult) -> bool {
        exists|r0: MatchResult, t0: int|
#![trigger self.0.matches(st.skipped(t0), r0)]
{
&&& t0 == 0
&&& self.0.matches(st.skipped(t0), r0)
&&& match r0 {
Err(x) => res == Err::<usize, Option<String>>(x),
Ok(n0) => exists|r1: MatchResult, t1: int|
#![trigger self.1.matches(st.skipped(t1), r1)]
{
&&& t1 == t0 + n0
&&& self.1.matches(st.skipped(t1), r1)
&&& match r1 {
Err(x) => res == Err::<usize, Option<String>>(x),
Ok(n1) => exists|r2: MatchResult, t2: int|
#![trigger self.2.matches(st.skipped(t2), r2)]
{
&&& t2 == t1 + n1
&&& self.2.matches(st.skipped(t2), r2)
&&& match r2 {
Err(x) => res == Err::<usize, Option<String>>(x),
Ok(n2) => exists|r3: MatchResult, t3: int|
#![trigger self.3.matches(st.skipped(t3), r3)]
{
&&& t3 == t2 + n2
&&& self.3.matches(st.skipped(t3), r3)
&&& match r3 {
Err(x) => res == Err::<usize, Option<String>>(x),
Ok(n3) => res == Ok::<usize, Option<String>>((t3 + n3) as usize),
}
},
}
},
}
},
}
}
    }

    fn match_stream<S: StreamLike>(&self, stream: StreamView<'_, S>) -> (res: MatchResult) {
        let mut stream = stream;
        let mut total: usize = 0;
        proof {
            stream.lemma_len_bound();
        }
        let n0 = match_step(&self.0, &mut stream, total)?;
        total = total + n0;
        let n1 = match_step(&self.1, &mut stream, total)?;
        total = total + n1;
        let n2 = match_step(&self.2, &mut stream, total)?;
        total = total + n2;
        let n3 = match_step(&self.3, &mut stream, total)?;
        total = total + n3;
        Ok(total)
    }
}

impl<A: DiagDisplay, B: DiagDisplay, C: DiagDisplay, D: DiagDisplay, E: DiagDisplay> DiagDisplay for (A, B, C, D, E) {
    open spec fn diag(&self) -> Option<Seq<char>> {
        join_diag(join_diag(join_diag(join_diag(self.0.diag(), self.1.diag()), self.2.diag()), self.3.diag()), self.4.diag())
    }

    fn diag_string(&self) -> (s: String) {
        let mut s = String::new();
        let d0 = self.0.diag_string();
        s.append(d0.as_str());
        let d1 = self.1.diag_string();
        s.append(d1.as_str());
        let d2 = self.2.diag_string();
        s.append(d2.as_str());
        let d3 = self.3.diag_string();
        s.append(d3.as_str());
        let d4 = self.4.diag_string();
        s.append(d4.as_str());
        proof {
            if self.0.diag() is Some && self.1.diag() is Some && self.2.diag() is Some && self.3.diag() is Some && self.4.diag() is Some {
                assert(s@ =~= d0@ + d1@ + d2@ + d3@ + d4@);
            }
        }
        s
    }
}

impl<A: MatchStream, B: MatchStream, C: MatchStream, D: MatchStream, E: MatchStream> MatchStream for (A, B, C, D, E) {
    open spec fn matches(&self, st: StreamState, res: MatchResult) -> bool {
        exists|r0: MatchResult, t0: int|
#![trigger self.0.matches(st.skipped(t0), r0)]
{
&&& t0 == 0
&&& self.0.matches(st.skipped(t0), r0)
&&& match r0 {
Err(x) => res == Err::<usize, Option<String>>(x),
Ok(n0) => exists|r1: MatchResult, t1: int|
#![trigger self.1.matches(st.skipped(t1), r1)]
{
&&& t1 == t0 + n0
&&& self.1.matches(st.skipped(t1), r1)
&&& match r1 {
Err(x) => res == Err::<usize, Option<String>>(x),
Ok(n1) => exists|r2: MatchResult, t2: int|
#![trigger self.2.matches(st.skipped(t2), r2)]
{
&&& t2 == t1 + n1
&&& self.2.matches(st.skipped(t2), r2)
&&& match r2 {
Err(x) => res == Err::<usize, Option<String>>(x),
Ok(n2) => exists|r3: MatchResult, t3: int|
#![trigger self.3.matches(st.skipped(t3), r3)]
{
&&& t3 == t2 + n2
&&& self.3.matches(st.skipped(t3), r3)
&&& match r3 {
Err(x) => res == Err::<usize, Option<String>>(x),
Ok(n3) => exists|r4: MatchResult, t4: int|
#![trigger self.4.matches(st.skipped(t4), r4)]
{
&&& t4 == t3 + n3
&&& self.4.matches(st.skipped(t4), r4)
&&& match r4 {
Err(x) => res == Err::<usize, Option<String>>(x),
Ok(n4) => res == Ok::<usize, Option<String>>((t4 + n4) as usize),
}
},
}
},
}
},
}
},
}
}
    }

    fn match_stream<S: StreamLike>(&self, stream: StreamView<'_, S>) -> (res: MatchResult) {
        let mut stream = stream;
        let mut total: usize = 0;
        proof {
            stream.lemma_len_bound();
        }
        let n0 = match_step(&self.0, &mut stream, total)?;
        total = total + n0;
        let n1 = match_step(&self.1, &mut stream, total)?;
        total = total + n1;
        let n2 = match_step(&self.2, &mut stream, total)?;
        total = total + n2;
        let n3 = match_step(&self.3, &mut stream, total)?;
        total = total + n3;
        let n4 = match_step(&self.4, &mut stream, total)?;
        total = total + n4;
        Ok(total)
    }
}

impl<A: DiagDisplay, B: DiagDisplay, C: DiagDisplay, D: DiagDisplay, E: DiagDisplay, F: DiagDisplay> DiagDisplay for (A, B, C, D, E, F) {
    open spec fn diag(&self) -> Option<Seq<char>> {
        join_diag(join_diag(join_diag(join_diag(join_diag(self.0.diag(), self.1.diag()), self.2.diag()), self.3.diag()), self.4.diag()), self.5.diag())
    }

    fn diag_string(&self) -> (s: String) {
        let mut s = String::new();
        let d0 = self.0.diag_string();
        s.append(d0.as_str());
        let d1 = self.1.diag_string();
        s.append(d1.as_str());
        let d2 = self.2.diag_string();
        s.append(d2.as_str());
        let d3 = self.3.diag_string();
        s.append(d3.as_str());
        let d4 = self.4.diag_string();
        s.append(d4.as_str());
        let d5 = self.5.diag_string();
        s.append(d5.as_str());
        proof {
            if self.0.diag() is Some && self.1.diag() is Some && self.2.diag() is Some && self.3.diag() is Some && self.4.diag() is Some && self.5.diag() is Some {
                assert(s@ =~= d0@ + d1@ + d2@ + d3@ + d4@ + d5@);
            }
        }
        s
    }
}

impl<A: MatchStream, B: MatchStream, C: MatchStream, D: MatchStream, E: MatchStream, F: MatchStream> MatchStream for (A, B, C, D, E, F) {
    open spec fn matches(&self, st: StreamState, res: MatchResult) -> bool {
        exists|r0: MatchResult, t0: int|
#![trigger self.0.matches(st.skipped(t0), r0)]
{
&&& t0 == 0
&&& self.0.matches(st.skipped(t0), r0)
&&& match r0 {
Err(x) => res == Err::<usize, Option<String>>(x),
Ok(n0) => exists|r1: MatchResult, t1: int|
#![trigger self.1.matches(st.skipped(t1), r1)]
{
&&& t1 == t0 + n0
&&& self.1.matches(st.skipped(t1), r1)
&&& match r1 {
Err(x) => res == Err::<usize, Option<String>>(x),
Ok(n1) => exists|r2: MatchResult, t2: int|
#![trigger self.2.matches(st.skipped(t2), r2)]
{
&&& t2 == t1 + n1
&&& self.2.matches(st.skipped(t2), r2)
&&& match r2 {
Err(x) => res == Err::<usize, Option<String>>(x),
Ok(n2) => exists|r3: MatchResult, t3: int|
#![trigger self.3.matches(st.skipped(t3), r3)]
{
&&& t3 == t2 + n2
&&& self.3.matches(st.skipped(t3), r3)
&&& match r3 {
Err(x) => res == Err::<usize, Option<String>>(x),
Ok(n3) => exists|r4: MatchResult, t4: int|
#![trigger self.4.matches(st.skipped(t4), r4)]
{
&&& t4 == t3 + n3
&&& self.4.matches(st.skipped(t4), r4)
&&& match r4 {
Err(x) => res == Err::<usize, Option<String>>(x),
Ok(n4) => exists|r5: MatchResult, t5: int|
#![trigger self.5.matches(st.skipped(t5), r5)]
{
&&& t5 == t4 + n4
&&& self.5.matches(st.skipped(t5), r5)
&&& match r5 {
Err(x) => res == Err::<usize, Option<String>>(x),
Ok(n5) => res == Ok::<usize, Option<String>>((t5 + n5) as usize),
}
},
}
},
}
},
}
},
}
},
}
}
    }

    fn match_stream<S: StreamLike>(&self, stream: StreamView<'_, S>) -> (res: MatchResult) {
        let mut stream = stream;
        let mut total: usize = 0;
        proof {
            stream.lemma_len_bound();
        }
        let n0 = match_step(&self.0, &mut stream, total)?;
        total = total + n0;
        let n1 = match_step(&self.1, &mut stream, total)?;
        total = total + n1;
        let n2 = match_step(&self.2, &mut stream, total)?;
        total = total + n2;
        let n3 = match_step(&self.3, &mut stream, total)?;
        total = total + n3;
        let n4 = match_step(&self.4, &mut stream, total)?;
        total = total + n4;
        let n5 = match_step(&self.5, &mut stream, total)?;
        total = total + n5;
        Ok(total)
    }
}

impl<A: DiagDisplay, B: DiagDisplay, C: DiagDisplay, D: DiagDisplay, E: DiagDisplay, F: DiagDisplay, G: DiagDisplay> DiagDisplay for (A, B, C, D, E, F, G) {
    open spec fn diag(&self) -> Option<Seq<char>> {
        join_diag(join_diag(join_diag(join_diag(join_diag(join_diag(self.0.diag(), self.1.diag()), self.2.diag()), self.3.diag()), self.4.diag()), self.5.diag()), self.6.diag())
    }

    fn diag_string(&self) -> (s: String) {
        let mut s = String::new();
        let d0 = self.0.diag_string();
        s.append(d0.as_str());
        let d1 = self.1.diag_string();
        s.append(d1.as_str());
        let d2 = self.2.diag_string();
        s.append(d2.as_str());
        let d3 = self.3.diag_string();
        s.append(d3.as_str());
        let d4 = self.4.diag_string();
        s.append(d4.as_str());
        let d5 = self.5.diag_string();
        s.append(d5.as_str());
        let d6 = self.6.diag_string();
        s.append(d6.as_str());
        proof {
            if self.0.diag() is Some && self.1.diag() is Some && self.2.diag() is Some && self.3.diag() is Some && self.4.diag() is Some && self.5.diag() is Some && self.6.diag() is Some {
                assert(s@ =~= d0@ + d1@ + d2@ + d3@ + d4@ + d5@ + d6@);
            }
        }
        s
    }
}

impl<A: MatchStream, B: MatchStream, C: MatchStream, D: MatchStream, E: MatchStream, F: MatchStream, G: MatchStream> MatchStream for (A, B, C, D, E, F, G) {
    open spec fn matches(&self, st: StreamState, res: MatchResult) -> bool {
        exists|r0: MatchResult, t0: int|
#![trigger self.0.matches(st.skipped(t0), r0)]
{
&&& t0 == 0
&&& self.0.matches(st.skipped(t0), r0)
&&& match r0 {
Err(x) => res == Err::<usize, Option<String>>(x),
Ok(n0) => exists|r1: MatchResult, t1: int|
#![trigger self.1.matches(st.skipped(t1), r1)]
{
&&& t1 == t0 + n0
&&& self.1.matches(st.skipped(t1), r1)
&&& match r1 {
Err(x) => res == Err::<usize, Option<String>>(x),
Ok(n1) => exists|r2: MatchResult, t2: int|
#![trigger self.2.matches(st.skipped(t2), r2)]
{
&&& t2 == t1 + n1
&&& self.2.matches(st.skipped(t2), r2)
&&& match r2 {
Err(x) => res == Err::<usize, Option<String>>(x),
Ok(n2) => exists|r3: MatchResult, t3: int|
#![trigger self.3.matches(st.skipped(t3), r3)]
{
&&& t3 == t2 + n2
&&& self.3.matches(st.skipped(t3), r3)
&&& match r3 {
Err(x) => res == Err::<usize, Option<String>>(x),
Ok(n3) => exists|r4: MatchResult, t4: int|
#![trigger self.4.matches(st.skipped(t4), r4)]
{
&&& t4 == t3 + n3
&&& self.4.matches(st.skipped(t4), r4)
&&& match r4 {
Err(x) => res == Err::<usize, Option<String>>(x),
Ok(n4) => exists|r5: MatchResult, t5: int|
#![trigger self.5.matches(st.skipped(t5), r5)]
{
&&& t5 == t4 + n4
&&& self.5.matches(st.skipped(t5), r5)
&&& match r5 {
Err(x) => res == Err::<usize, Option<String>>(x),
Ok(n5) => exists|r6: MatchResult, t6: int|
#![trigger self.6.matches(st.skipped(t6), r6)]
{
&&& t6 == t5 + n5
&&& self.6.matches(st.skipped(t6), r6)
&&& match r6 {
Err(x) => res == Err::<usize, Option<String>>(x),
Ok(n6) => res == Ok::<usize, Option<String>>((t6 + n6) as usize),
}
},
}
},
}
},
}
},
}
},
}
},
}
}
    }

    fn match_stream<S: StreamLike>(&self, stream: StreamView<'_, S>) -> (res: MatchResult) {
        let mut stream = stream;
        let mut total: usize = 0;
        proof {
            stream.lemma_len_bound();
        }
        let n0 = match_step(&self.0, &mut stream, total)?;
        total = total + n0;
        let n1 = match_step(&self.1, &mut stream, total)?;
        total = total + n1;
        let n2 = match_step(&self.2, &mut stream, total)?;
        total = total + n2;
        let n3 = match_step(&self.3, &mut stream, total)?;
        total = total + n3;
        let n4 = match_step(&self.4, &mut stream, total)?;
        total = total + n4;
        let n5 = match_step(&self.5, &mut stream, total)?;
        total = total + n5;
        let n6 = match_step(&self.6, &mut stream, total)?;
        total = total + n6;
        Ok(total)
    }
}

impl<A: DiagDisplay, B: DiagDisplay, C: DiagDisplay, D: DiagDisplay, E: DiagDisplay, F: DiagDisplay, G: DiagDisplay, H: DiagDisplay> DiagDisplay for (A, B, C, D, E, F, G, H) {
    open spec fn diag(&self) -> Option<Seq<char>> {
        join_diag(join_diag(join_diag(join_diag(join_diag(join_diag(join_diag(self.0.diag(), self.1.diag()), self.2.diag()), self.3.diag()), self.4.diag()), self.5.diag()), self.6.diag()), self.7.diag())
    }

    fn diag_string(&self) -> (s: String) {
        let mut s = String::new();
        let d0 = self.0.diag_string();
        s.append(d0.as_str());
        let d1 = self.1.diag_string();
        s.append(d1.as_str());
        let d2 = self.2.diag_string();
        s.append(d2.as_str());
        let d3 = self.3.diag_string();
        s.append(d3.as_str());
        let d4 = self.4.diag_string();
        s.append(d4.as_str());
        let d5 = self.5.diag_string();
        s.append(d5.as_str());
        let d6 = self.6.diag_string();
        s.append(d6.as_str());
        let d7 = self.7.diag_string();
        s.append(d7.as_str());
        proof {
            if self.0.diag() is Some && self.1.diag() is Some && self.2.diag() is Some && self.3.diag() is Some && self.4.diag() is Some && self.5.diag() is Some && self.6.diag() is Some && self.7.diag() is Some {
                assert(s@ =~= d0@ + d1@ + d2@ + d3@ + d4@ + d5@ + d6@ + d7@);
            }
        }
        s
    }
}

impl<A: MatchStream, B: MatchStream, C: MatchStream, D: MatchStream, E: MatchStream, F: MatchStream, G: MatchStream, H: MatchStream> MatchStream for (A, B, C, D, E, F, G, H) {
    open spec fn matches(&self, st: StreamState, res: MatchResult) -> bool {
        exists|r0: MatchResult, t0: int|
#![trigger self.0.matches(st.skipped(t0), r0)]
{
&&& t0 == 0
&&& self.0.matches(st.skipped(t0), r0)
&&& match r0 {
Err(x) => res == Err::<usize, Option<String>>(x),
Ok(n0) => exists|r1: MatchResult, t1: int|
#![trigger self.1.matches(st.skipped(t1), r1)]
{
&&& t1 == t0 + n0
&&& self.1.matches(st.skipped(t1), r1)
&&& match r1 {
Err(x) => res == Err::<usize, Option<String>>(x),
Ok(n1) => exists|r2: MatchResult, t2: int|
#![trigger self.2.matches(st.skipped(t2), r2)]
{
&&& t2 == t1 + n1
&&& self.2.matches(st.skipped(t2), r2)
&&& match r2 {
Err(x) => res == Err::<usize, Option<String>>(x),
Ok(n2) => exists|r3: MatchResult, t3: int|
#![trigger self.3.matches(st.skipped(t3), r3)]
{
&&& t3 == t2 + n2
&&& self.3.matches(st.skipped(t3), r3)
&&& match r3 {
Err(x) => res == Err::<usize, Option<String>>(x),
Ok(n3) => exists|r4: MatchResult, t4: int|
#![trigger self.4.matches(st.skipped(t4), r4)]
{
&&& t4 == t3 + n3
&&& self.4.matches(st.skipped(t4), r4)
&&& match r4 {
Err(x) => res == Err::<usize, Option<String>>(x),
Ok(n4) => exists|r5: MatchResult, t5: int|
#![trigger self.5.matches(st.skipped(t5), r5)]
{
&&& t5 == t4 + n4
&&& self.5.matches(st.skipped(t5), r5)
&&& match r5 {
Err(x) => res == Err::<usize, Option<String>>(x),
Ok(n5) => exists|r6: MatchResult, t6: int|
#![trigger self.6.matches(st.skipped(t6), r6)]
{
&&& t6 == t5 + n5
&&& self.6.matches(st.skipped(t6), r6)
&&& match r6 {
Err(x) => res == Err::<usize, Option<String>>(x),
Ok(n6) => exists|r7: MatchResult, t7: int|
#![trigger self.7.matches(st.skipped(t7), r7)]
{
&&& t7 == t6 + n6
&&& self.7.matches(st.skipped(t7), r7)
&&& match r7 {
Err(x) => res == Err::<usize, Option<String>>(x),
Ok(n7) => res == Ok::<usize, Option<String>>((t7 + n7) as usize),
}
},
}
},
}
},
}
},
}
},
}
},
}
},
}
}
    }

    fn match_stream<S: StreamLike>(&self, stream: StreamView<'_, S>) -> (res: MatchResult) {
        let mut stream = stream;
        let mut total: usize = 0;
        proof {
            stream.lemma_len_bound();
        }
        let n0 = match_step(&self.0, &mut stream, total)?;
        total = total + n0;
        let n1 = match_step(&self.1, &mut stream, total)?;
        total = total + n1;
        let n2 = match_step(&self.2, &mut stream, total)?;
        total = total + n2;
        let n3 = match_step(&self.3, &mut stream, total)?;
        total = total + n3;
        let n4 = match_step(&self.4, &mut stream, total)?;
        total = total + n4;
        let n5 = match_step(&self.5, &mut stream, total)?;
        total = total + n5;
        let n6 = match_step(&self.6, &mut stream, total)?;
        total = total + n6;
        let n7 = match_step(&self.7, &mut stream, total)?;
        total = total + n7;
        Ok(total)
    }
}

impl<A: DiagDisplay, B: DiagDisplay, C: DiagDisplay, D: DiagDisplay, E: DiagDisplay, F: DiagDisplay, G: DiagDisplay, H: DiagDisplay, I: DiagDisplay> DiagDisplay for (A, B, C, D, E, F, G, H, I) {
    open spec fn diag(&self) -> Option<Seq<char>> {
        join_diag(join_diag(join_diag(join_diag(join_diag(join_diag(join_diag(join_diag(self.0.diag(), self.1.diag()), self.2.diag()), self.3.diag()), self.4.diag()), self.5.diag()), self.6.diag()), self.7.diag()), self.8.diag())
    }

    fn diag_string(&self) -> (s: String) {
        let mut s = String::new();
        let d0 = self.0.diag_string();
        s.append(d0.as_str());
        let d1 = self.1.diag_string();
        s.append(d1.as_str());
        let d2 = self.2.diag_string();
        s.append(d2.as_str());
        let d3 = self.3.diag_string();
        s.append(d3.as_str());
        let d4 = self.4.diag_string();
        s.append(d4.as_str());
        let d5 = self.5.diag_string();
        s.append(d5.as_str());
        let d6 = self.6.diag_string();
        s.append(d6.as_str());
        let d7 = self.7.diag_string();
        s.append(d7.as_str());
        let d8 = self.8.diag_string();
        s.append(d8.as_str());
        proof {
            if self.0.diag() is Some && self.1.diag() is Some && self.2.diag() is Some && self.3.diag() is Some && self.4.diag() is Some && self.5.diag() is Some && self.6.diag() is Some && self.7.diag() is Some && self.8.diag() is Some {
                assert(s@ =~= d0@ + d1@ + d2@ + d3@ + d4@ + d5@ + d6@ + d7@ + d8@);
            }
        }
        s
    }
}

impl<A: MatchStream, B: MatchStream, C: MatchStream, D: MatchStream, E: MatchStream, F: MatchStream, G: MatchStream, H: MatchStream, I: MatchStream> MatchStream for (A, B, C, D, E, F, G, H, I) {
    open spec fn matches(&self, st: StreamState, res: MatchResult) -> bool {
        exists|r0: MatchResult, t0: int|
#![trigger self.0.matches(st.skipped(t0), r0)]
{
&&& t0 == 0
&&& self.0.matches(st.skipped(t0), r0)
&&& match r0 {
Err(x) => res == Err::<usize, Option<String>>(x),
Ok(n0) => exists|r1: MatchResult, t1: int|
#![trigger self.1.matches(st.skipped(t1), r1)]
{
&&& t1 == t0 + n0
&&& self.1.matches(st.skipped(t1), r1)
&&& match r1 {
Err(x) => res == Err::<usize, Option<String>>(x),
Ok(n1) => exists|r2: MatchResult, t2: int|
#![trigger self.2.matches(st.skipped(t2), r2)]
{
&&& t2 == t1 + n1
&&& self.2.matches(st.skipped(t2), r2)
&&& match r2 {
Err(x) => res == Err::<usize, Option<String>>(x),
Ok(n2) => exists|r3: MatchResult, t3: int|
#![trigger self.3.matches(st.skipped(t3), r3)]
{
&&& t3 == t2 + n2
&&& self.3.matches(st.skipped(t3), r3)
&&& match r3 {
Err(x) => res == Err::<usize, Option<String>>(x),
Ok(n3) => exists|r4: MatchResult, t4: int|
#![trigger self.4.matches(st.skipped(t4), r4)]
{
&&& t4 == t3 + n3
&&& self.4.matches(st.skipped(t4), r4)
&&& match r4 {
Err(x) => res == Err::<usize, Option<String>>(x),
Ok(n4) => exists|r5: MatchResult, t5: int|
#![trigger self.5.matches(st.skipped(t5), r5)]
{
&&& t5 == t4 + n4
&&& self.5.matches(st.skipped(t5), r5)
&&& match r5 {
Err(x) => res == Err::<usize, Option<String>>(x),
Ok(n5) => exists|r6: MatchResult, t6: int|
#![trigger self.6.matches(st.skipped(t6), r6)]
{
&&& t6 == t5 + n5
&&& self.6.matches(st.skipped(t6), r6)
&&& match r6 {
Err(x) => res == Err::<usize, Option<String>>(x),
Ok(n6) => exists|r7: MatchResult, t7: int|
#![trigger self.7.matches(st.skipped(t7), r7)]
{
&&& t7 == t6 + n6
&&& self.7.matches(st.skipped(t7), r7)
&&& match r7 {
Err(x) => res == Err::<usize, Option<String>>(x),
Ok(n7) => exists|r8: MatchResult, t8: int|
#![trigger self.8.matches(st.skipped(t8), r8)]
{
&&& t8 == t7 + n7
&&& self.8.matches(st.skipped(t8), r8)
&&& match r8 {
Err(x) => res == Err::<usize, Option<String>>(x),
Ok(n8) => res == Ok::<usize, Option<String>>((t8 + n8) as usize),
}
},
}
},
}
},
}
},
}
},
}
},
}
},
}
},
}
}
    }

    fn match_stream<S: StreamLike>(&self, stream: StreamView<'_, S>) -> (res: MatchResult) {
        let mut stream = stream;
        let mut total: usize = 0;
        proof {
            stream.lemma_len_bound();
        }
        let n0 = match_step(&self.0, &mut stream, total)?;
        total = total + n0;
        let n1 = match_step(&self.1, &mut stream, total)?;
        total = total + n1;
        let n2 = match_step(&self.2, &mut stream, total)?;
        total = total + n2;
        let n3 = match_step(&self.3, &mut stream, total)?;
        total = total + n3;
        let n4 = match_step(&self.4, &mut stream, total)?;
        total = total + n4;
        let n5 = match_step(&self.5, &mut stream, total)?;
        total = total + n5;
        let n6 = match_step(&self.6, &mut stream, total)?;
        total = total + n6;
        let n7 = match_step(&self.7, &mut stream, total)?;
        total = total + n7;
        let n8 = match_step(&self.8, &mut stream, total)?;
        total = total + n8;
        Ok(total)
    }
}

impl<A: DiagDisplay, B: DiagDisplay, C: DiagDisplay, D: DiagDisplay, E: DiagDisplay, F: DiagDisplay, G: DiagDisplay, H: DiagDisplay, I: DiagDisplay, J: DiagDisplay> DiagDisplay for (A, B, C, D, E, F, G, H, I, J) {
    open spec fn diag(&self) -> Option<Seq<char>> {
        join_diag(join_diag(join_diag(join_diag(join_diag(join_diag(join_diag(join_diag(join_diag(self.0.diag(), self.1.diag()), self.2.diag()), self.3.diag()), self.4.diag()), self.5.diag()), self.6.diag()), self.7.diag()), self.8.diag()), self.9.diag())
    }

    fn diag_string(&self) -> (s: String) {
        let mut s = String::new();
        let d0 = self.0.diag_string();
        s.append(d0.as_str());
        let d1 = self.1.diag_string();
        s.append(d1.as_str());
        let d2 = self.2.diag_string();
        s.append(d2.as_str());
        let d3 = self.3.diag_string();
        s.append(d3.as_str());
        let d4 = self.4.diag_string();
        s.append(d4.as_str());
        let d5 = self.5.diag_string();
        s.append(d5.as_str());
        let d6 = self.6.diag_string();
        s.append(d6.as_str());
        let d7 = self.7.diag_string();
        s.append(d7.as_str());
        let d8 = self.8.diag_string();
        s.append(d8.as_str());
        let d9 = self.9.diag_string();
        s.append(d9.as_str());
        proof {
            if self.0.diag() is Some && self.1.diag() is Some && self.2.diag() is Some && self.3.diag() is Some && self.4.diag() is Some && self.5.diag() is Some && self.6.diag() is Some && self.7.diag() is Some && self.8.diag() is Some && self.9.diag() is Some {
                assert(s@ =~= d0@ + d1@ + d2@ + d3@ + d4@ + d5@ + d6@ + d7@ + d8@ + d9@);
            }
        }
        s
    }
}

impl<A: MatchStream, B: MatchStream, C: MatchStream, D: MatchStream, E: MatchStream, F: MatchStream, G: MatchStream, H: MatchStream, I: MatchStream, J: MatchStream> MatchStream for (A, B, C, D, E, F, G, H, I, J) {
    open spec fn matches(&self, st: StreamState, res: MatchResult) -> bool {
        exists|r0: MatchResult, t0: int|
#![trigger self.0.matches(st.skipped(t0), r0)]
{
&&& t0 == 0
&&& self.0.matches(st.skipped(t0), r0)
&&& match r0 {
Err(x) => res == Err::<usize, Option<String>>(x),
Ok(n0) => exists|r1: MatchResult, t1: int|
#![trigger self.1.matches(st.skipped(t1), r1)]
{
&&& t1 == t0 + n0
&&& self.1.matches(st.skipped(t1), r1)
&&& match r1 {
Err(x) => res == Err::<usize, Option<String>>(x),
Ok(n1) => exists|r2: MatchResult, t2: int|
#![trigger self.2.matches(st.skipped(t2), r2)]
{
&&& t2 == t1 + n1
&&& self.2.matches(st.skipped(t2), r2)
&&& match r2 {
Err(x) => res == Err::<usize, Option<String>>(x),
Ok(n2) => exists|r3: MatchResult, t3: int|
#![trigger self.3.matches(st.skipped(t3), r3)]
{
&&& t3 == t2 + n2
&&& self.3.matches(st.skipped(t3), r3)
&&& match r3 {
Err(x) => res == Err::<usize, Option<String>>(x),
Ok(n3) => exists|r4: MatchResult, t4: int|
#![trigger self.4.matches(st.skipped(t4), r4)]
{
&&& t4 == t3 + n3
&&& self.4.matches(st.skipped(t4), r4)
&&& match r4 {
Err(x) => res == Err::<usize, Option<String>>(x),
Ok(n4) => exists|r5: MatchResult, t5: int|
#![trigger self.5.matches(st.skipped(t5), r5)]
{
&&& t5 == t4 + n4
&&& self.5.matches(st.skipped(t5), r5)
&&& match r5 {
Err(x) => res == Err::<usize, Option<String>>(x),
Ok(n5) => exists|r6: MatchResult, t6: int|
#![trigger self.6.matches(st.skipped(t6), r6)]
{
&&& t6 == t5 + n5
&&& self.6.matches(st.skipped(t6), r6)
&&& match r6 {
Err(x) => res == Err::<usize, Option<String>>(x),
Ok(n6) => exists|r7: MatchResult, t7: int|
#![trigger self.7.matches(st.skipped(t7), r7)]
{
&&& t7 == t6 + n6
&&& self.7.matches(st.skipped(t7), r7)
&&& match r7 {
Err(x) => res == Err::<usize, Option<String>>(x),
Ok(n7) => exists|r8: MatchResult, t8: int|
#![trigger self.8.matches(st.skipped(t8), r8)]
{
&&& t8 == t7 + n7
&&& self.8.matches(st.skipped(t8), r8)
&&& match r8 {
Err(x) => res == Err::<usize, Option<String>>(x),
Ok(n8) => exists|r9: MatchResult, t9: int|
#![trigger self.9.matches(st.skipped(t9), r9)]
{
&&& t9 == t8 + n8
&&& self.9.matches(st.skipped(t9), r9)
&&& match r9 {
Err(x) => res == Err::<usize, Option<String>>(x),
Ok(n9) => res == Ok::<usize, Option<String>>((t9 + n9) as usize),
}
},
}
},
}
},
}
},
}
},
}
},
}
},
}
},
}
},
}
}
    }

    fn match_stream<S: StreamLike>(&self, stream: StreamView<'_, S>) -> (res: MatchResult) {
        let mut stream = stream;
        let mut total: usize = 0;
        proof {
            stream.lemma_len_bound();
        }
        let n0 = match_step(&self.0, &mut stream, total)?;
        total = total + n0;
        let n1 = match_step(&self.1, &mut stream, total)?;
        total = total + n1;
        let n2 = match_step(&self.2, &mut stream, total)?;
        total = total + n2;
        let n3 = match_step(&self.3, &mut stream, total)?;
        total = total + n3;
        let n4 = match_step(&self.4, &mut stream, total)?;
        total = total + n4;
        let n5 = match_step(&self.5, &mut stream, total)?;
        total = total + n5;
        let n6 = match_step(&self.6, &mut stream, total)?;
        total = total + n6;
        let n7 = match_step(&self.7, &mut stream, total)?;
        total = total + n7;
        let n8 = match_step(&self.8, &mut stream, total)?;
        total = total + n8;
        let n9 = match_step(&self.9, &mut stream, total)?;
        total = total + n9;
        Ok(total)
    }
}

impl<A: DiagDisplay, B: DiagDisplay, C: DiagDisplay, D: DiagDisplay, E: DiagDisplay, F: DiagDisplay, G: DiagDisplay, H: DiagDisplay, I: DiagDisplay, J: DiagDisplay, K: DiagDisplay> DiagDisplay for (A, B, C, D, E, F, G, H, I, J, K) {
    open spec fn diag(&self) -> Option<Seq<char>> {
        join_diag(join_diag(join_diag(join_diag(join_diag(join_diag(join_diag(join_diag(join_diag(join_diag(self.0.diag(), self.1.diag()), self.2.diag()), self.3.diag()), self.4.diag()), self.5.diag()), self.6.diag()), self.7.diag()), self.8.diag()), self.9.diag()), self.10.diag())
    }

    fn diag_string(&self) -> (s: String) {
        let mut s = String::new();
        let d0 = self.0.diag_string();
        s.append(d0.as_str());
        let d1 = self.1.diag_string();
        s.append(d1.as_str());
        let d2 = self.2.diag_string();
        s.append(d2.as_str());
        let d3 = self.3.diag_string();
        s.append(d3.as_str());
        let d4 = self.4.diag_string();
        s.append(d4.as_str());
        let d5 = self.5.diag_string();
        s.append(d5.as_str());
        let d6 = self.6.diag_string();
        s.append(d6.as_str());
        let d7 = self.7.diag_string();
        s.append(d7.as_str());
        let d8 = self.8.diag_string();
        s.append(d8.as_str());
        let d9 = self.9.diag_string();
        s.append(d9.as_str());
        let d10 = self.10.diag_string();
        s.append(d10.as_str());
        proof {
            if self.0.diag() is Some && self.1.diag() is Some && self.2.diag() is Some && self.3.diag() is Some && self.4.diag() is Some && self.5.diag() is Some && self.6.diag() is Some && self.7.diag() is Some && self.8.diag() is Some && self.9.diag() is Some && self.10.diag() is Some {
                assert(s@ =~= d0@ + d1@ + d2@ + d3@ + d4@ + d5@ + d6@ + d7@ + d8@ + d9@ + d10@);
            }
        }
        s
    }
}

impl<A: MatchStream, B: MatchStream, C: MatchStream, D: MatchStream, E: MatchStream, F: MatchStream, G: MatchStream, H: MatchStream, I: MatchStream, J: MatchStream, K: MatchStream> MatchStream for (A, B, C, D, E, F, G, H, I, J, K) {
    open spec fn matches(&self, st: StreamState, res: MatchResult) -> bool {
        exists|r0: MatchResult, t0: int|
#![trigger self.0.matches(st.skipped(t0), r0)]
{
&&& t0 == 0
&&& self.0.matches(st.skipped(t0), r0)
&&& match r0 {
Err(x) => res == Err::<usize, Option<String>>(x),
Ok(n0) => exists|r1: MatchResult, t1: int|
#![trigger self.1.matches(st.skipped(t1), r1)]
{
&&& t1 == t0 + n0
&&& self.1.matches(st.skipped(t1), r1)
&&& match r1 {
Err(x) => res == Err::<usize, Option<String>>(x),
Ok(n1) => exists|r2: MatchResult, t2: int|
#![trigger self.2.matches(st.skipped(t2), r2)]
{
&&& t2 == t1 + n1
&&& self.2.matches(st.skipped(t2), r2)
&&& match r2 {
Err(x) => res == Err::<usize, Option<String>>(x),
Ok(n2) => exists|r3: MatchResult, t3: int|
#![trigger self.3.matches(st.skipped(t3), r3)]
{
&&& t3 == t2 + n2
&&& self.3.matches(st.skipped(t3), r3)
&&& match r3 {
Err(x) => res == Err::<usize, Option<String>>(x),
Ok(n3) => exists|r4: MatchResult, t4: int|
#![trigger self.4.matches(st.skipped(t4), r4)]
{
&&& t4 == t3 + n3
&&& self.4.matches(st.skipped(t4), r4)
&&& match r4 {
Err(x) => res == Err::<usize, Option<String>>(x),
Ok(n4) => exists|r5: MatchResult, t5: int|
#![trigger self.5.matches(st.skipped(t5), r5)]
{
&&& t5 == t4 + n4
&&& self.5.matches(st.skipped(t5), r5)
&&& match r5 {
Err(x) => res == Err::<usize, Option<String>>(x),
Ok(n5) => exists|r6: MatchResult, t6: int|
#![trigger self.6.matches(st.skipped(t6), r6)]
{
&&& t6 == t5 + n5
&&& self.6.matches(st.skipped(t6), r6)
&&& match r6 {
Err(x) => res == Err::<usize, Option<String>>(x),
Ok(n6) => exists|r7: MatchResult, t7: int|
#![trigger self.7.matches(st.skipped(t7), r7)]
{
&&& t7 == t6 + n6
&&& self.7.matches(st.skipped(t7), r7)
&&& match r7 {
Err(x) => res == Err::<usize, Option<String>>(x),
Ok(n7) => exists|r8: MatchResult, t8: int|
#![trigger self.8.matches(st.skipped(t8), r8)]
{
&&& t8 == t7 + n7
&&& self.8.matches(st.skipped(t8), r8)
&&& match r8 {
Err(x) => res == Err::<usize, Option<String>>(x),
Ok(n8) => exists|r9: MatchResult, t9: int|
#![trigger self.9.matches(st.skipped(t9), r9)]
{
&&& t9 == t8 + n8
&&& self.9.matches(st.skipped(t9), r9)
&&& match r9 {
Err(x) => res == Err::<usize, Option<String>>(x),
Ok(n9) => exists|r10: MatchResult, t10: int|
#![trigger self.10.matches(st.skipped(t10), r10)]
{
&&& t10 == t9 + n9
&&& self.10.matches(st.skipped(t10), r10)
&&& match r10 {
Err(x) => res == Err::<usize, Option<String>>(x),
Ok(n10) => res == Ok::<usize, Option<String>>((t10 + n10) as usize),
}
},
}
},
}
},
}
},
}
},
}
},
}
},
}
},
}
},
}
},
}
}
    }

    fn match_stream<S: StreamLike>(&self, stream: StreamView<'_, S>) -> (res: MatchResult) {
        let mut stream = stream;
        let mut total: usize = 0;
        proof {
            stream.lemma_len_bound();
        }
        let n0 = match_step(&self.0, &mut stream, total)?;
        total = total + n0;
        let n1 = match_step(&self.1, &mut stream, total)?;
        total = total + n1;
        let n2 = match_step(&self.2, &mut stream, total)?;
        total = total + n2;
        let n3 = match_step(&self.3, &mut stream, total)?;
        total = total + n3;
        let n4 = match_step(&self.4, &mut stream, total)?;
        total = total + n4;
        let n5 = match_step(&self.5, &mut stream, total)?;
        total = total + n5;
        let n6 = match_step(&self.6, &mut stream, total)?;
        total = total + n6;
        let n7 = match_step(&self.7, &mut stream, total)?;
        total = total + n7;
        let n8 = match_step(&self.8, &mut stream, total)?;
        total = total + n8;
        let n9 = match_step(&self.9, &mut stream, total)?;
        total = total + n9;
        let n10 = match_step(&self.10, &mut stream, total)?;
        total = total + n10;
        Ok(total)
    }
}

impl<A: DiagDisplay, B: DiagDisplay, C: DiagDisplay, D: DiagDisplay, E: DiagDisplay, F: DiagDisplay, G: DiagDisplay, H: DiagDisplay, I: DiagDisplay, J: DiagDisplay, K: DiagDisplay, L: DiagDisplay> DiagDisplay for (A, B, C, D, E, F, G, H, I, J, K, L) {
    open spec fn diag(&self) -> Option<Seq<char>> {
        join_diag(join_diag(join_diag(join_diag(join_diag(join_diag(join_diag(join_diag(join_diag(join_diag(join_diag(self.0.diag(), self.1.diag()), self.2.diag()), self.3.diag()), self.4.diag()), self.5.diag()), self.6.diag()), self.7.diag()), self.8.diag()), self.9.diag()), self.10.diag()), self.11.diag())
    }

    fn diag_string(&self) -> (s: String) {
        let mut s = String::new();
        let d0 = self.0.diag_string();
        s.append(d0.as_str());
        let d1 = self.1.diag_string();
        s.append(d1.as_str());
        let d2 = self.2.diag_string();
        s.append(d2.as_str());
        let d3 = self.3.diag_string();
        s.append(d3.as_str());
        let d4 = self.4.diag_string();
        s.append(d4.as_str());
        let d5 = self.5.diag_string();
        s.append(d5.as_str());
        let d6 = self.6.diag_string();
        s.append(d6.as_str());
        let d7 = self.7.diag_string();
        s.append(d7.as_str());
        let d8 = self.8.diag_string();
        s.append(d8.as_str());
        let d9 = self.9.diag_string();
        s.append(d9.as_str());
        let d10 = self.10.diag_string();
        s.append(d10.as_str());
        let d11 = self.11.diag_string();
        s.append(d11.as_str());
        proof {
            if self.0.diag() is Some && self.1.diag() is Some && self.2.diag() is Some && self.3.diag() is Some && self.4.diag() is Some && self.5.diag() is Some && self.6.diag() is Some && self.7.diag() is Some && self.8.diag() is Some && self.9.diag() is Some && self.10.diag() is Some && self.11.diag() is Some {
                assert(s@ =~= d0@ + d1@ + d2@ + d3@ + d4@ + d5@ + d6@ + d7@ + d8@ + d9@ + d10@ + d11@);
            }
        }
        s
    }
}

impl<A: MatchStream, B: MatchStream, C: MatchStream, D: MatchStream, E: MatchStream, F: MatchStream, G: MatchStream, H: MatchStream, I: MatchStream, J: MatchStream, K: MatchStream, L: MatchStream> MatchStream for (A, B, C, D, E, F, G, H, I, J, K, L) {
    open spec fn matches(&self, st: StreamState, res: MatchResult) -> bool {
        exists|r0: MatchResult, t0: int|
#![trigger self.0.matches(st.skipped(t0), r0)]
{
&&& t0 == 0
&&& self.0.matches(st.skipped(t0), r0)
&&& match r0 {
Err(x) => res == Err::<usize, Option<String>>(x),
Ok(n0) => exists|r1: MatchResult, t1: int|
#![trigger self.1.matches(st.skipped(t1), r1)]
{
&&& t1 == t0 + n0
&&& self.1.matches(st.skipped(t1), r1)
&&& match r1 {
Err(x) => res == Err::<usize, Option<String>>(x),
Ok(n1) => exists|r2: MatchResult, t2: int|
#![trigger self.2.matches(st.skipped(t2), r2)]
{
&&& t2 == t1 + n1
&&& self.2.matches(st.skipped(t2), r2)
&&& match r2 {
Err(x) => res == Err::<usize, Option<String>>(x),
Ok(n2) => exists|r3: MatchResult, t3: int|
#![trigger self.3.matches(st.skipped(t3), r3)]
{
&&& t3 == t2 + n2
&&& self.3.matches(st.skipped(t3), r3)
&&& match r3 {
Err(x) => res == Err::<usize, Option<String>>(x),
Ok(n3) => exists|r4: MatchResult, t4: int|
#![trigger self.4.matches(st.skipped(t4), r4)]
{
&&& t4 == t3 + n3
&&& self.4.matches(st.skipped(t4), r4)
&&& match r4 {
Err(x) => res == Err::<usize, Option<String>>(x),
Ok(n4) => exists|r5: MatchResult, t5: int|
#![trigger self.5.matches(st.skipped(t5), r5)]
{
&&& t5 == t4 + n4
&&& self.5.matches(st.skipped(t5), r5)
&&& match r5 {
Err(x) => res == Err::<usize, Option<String>>(x),
Ok(n5) => exists|r6: MatchResult, t6: int|
#![trigger self.6.matches(st.skipped(t6), r6)]
{
&&& t6 == t5 + n5
&&& self.6.matches(st.skipped(t6), r6)
&&& match r6 {
Err(x) => res == Err::<usize, Option<String>>(x),
Ok(n6) => exists|r7: MatchResult, t7: int|
#![trigger self.7.matches(st.skipped(t7), r7)]
{
&&& t7 == t6 + n6
&&& self.7.matches(st.skipped(t7), r7)
&&& match r7 {
Err(x) => res == Err::<usize, Option<String>>(x),
Ok(n7) => exists|r8: MatchResult, t8: int|
#![trigger self.8.matches(st.skipped(t8), r8)]
{
&&& t8 == t7 + n7
&&& self.8.matches(st.skipped(t8), r8)
&&& match r8 {
Err(x) => res == Err::<usize, Option<String>>(x),
Ok(n8) => exists|r9: MatchResult, t9: int|
#![trigger self.9.matches(st.skipped(t9), r9)]
{
&&& t9 == t8 + n8
&&& self.9.matches(st.skipped(t9), r9)
&&& match r9 {
Err(x) => res == Err::<usize, Option<String>>(x),
Ok(n9) => exists|r10: MatchResult, t10: int|
#![trigger self.10.matches(st.skipped(t10), r10)]
{
&&& t10 == t9 + n9
&&& self.10.matches(st.skipped(t10), r10)
&&& match r10 {
Err(x) => res == Err::<usize, Option<String>>(x),
Ok(n10) => exists|r11: MatchResult, t11: int|
#![trigger self.11.matches(st.skipped(t11), r11)]
{
&&& t11 == t10 + n10
&&& self.11.matches(st.skipped(t11), r11)
&&& match r11 {
Err(x) => res == Err::<usize, Option<String>>(x),
Ok(n11) => res == Ok::<usize, Option<String>>((t11 + n11) as usize),
}
},
}
},
}
},
}
},
}
},
}
},
}
},
}
},
}
},
}
},
}
},
}
}
    }

    fn match_stream<S: StreamLike>(&self, stream: StreamView<'_, S>) -> (res: MatchResult) {
        let mut stream = stream;
        let mut total: usize = 0;
        proof {
            stream.lemma_len_bound();
        }
        let n0 = match_step(&self.0, &mut stream, total)?;
        total = total + n0;
        let n1 = match_step(&self.1, &mut stream, total)?;
        total = total + n1;
        let n2 = match_step(&self.2, &mut stream, total)?;
        total = total + n2;
        let n3 = match_step(&self.3, &mut stream, total)?;
        total = total + n3;
        let n4 = match_step(&self.4, &mut stream, total)?;
        total = total + n4;
        let n5 = match_step(&self.5, &mut stream, total)?;
        total = total + n5;
        let n6 = match_step(&self.6, &mut stream, total)?;
        total = total + n6;
        let n7 = match_step(&self.7, &mut stream, total)?;
        total = total + n7;
        let n8 = match_step(&self.8, &mut stream, total)?;
        total = total + n8;
        let n9 = match_step(&self.9, &mut stream, total)?;
        total = total + n9;
        let n10 = match_step(&self.10, &mut stream, total)?;
        total = total + n10;
        let n11 = match_step(&self.11, &mut stream, total)?;
        total = total + n11;
        Ok(total)
    }
}

impl<A: DiagDisplay, B: DiagDisplay, C: DiagDisplay, D: DiagDisplay, E: DiagDisplay, F: DiagDisplay, G: DiagDisplay, H: DiagDisplay, I: DiagDisplay, J: DiagDisplay, K: DiagDisplay, L: DiagDisplay, M: DiagDisplay> DiagDisplay for (A, B, C, D, E, F, G, H, I, J, K, L, M) {
    open spec fn diag(&self) -> Option<Seq<char>> {
        join_diag(join_diag(join_diag(join_diag(join_diag(join_diag(join_diag(join_diag(join_diag(join_diag(join_diag(join_diag(self.0.diag(), self.1.diag()), self.2.diag()), self.3.diag()), self.4.diag()), self.5.diag()), self.6.diag()), self.7.diag()), self.8.diag()), self.9.diag()), self.10.diag()), self.11.diag()), self.12.diag())
    }

    fn diag_string(&self) -> (s: String) {
        let mut s = String::new();
        let d0 = self.0.diag_string();
        s.append(d0.as_str());
        let d1 = self.1.diag_string();
        s.append(d1.as_str());
        let d2 = self.2.diag_string();
        s.append(d2.as_str());
        let d3 = self.3.diag_string();
        s.append(d3.as_str());
        let d4 = self.4.diag_string();
        s.append(d4.as_str());
        let d5 = self.5.diag_string();
        s.append(d5.as_str());
        let d6 = self.6.diag_string();
        s.append(d6.as_str());
        let d7 = self.7.diag_string();
        s.append(d7.as_str());
        let d8 = self.8.diag_string();
        s.append(d8.as_str());
        let d9 = self.9.diag_string();
        s.append(d9.as_str());
        let d10 = self.10.diag_string();
        s.append(d10.as_str());
        let d11 = self.11.diag_string();
        s.append(d11.as_str());
        let d12 = self.12.diag_string();
        s.append(d12.as_str());
        proof {
            if self.0.diag() is Some && self.1.diag() is Some && self.2.diag() is Some && self.3.diag() is Some && self.4.diag() is Some && self.5.diag() is Some && self.6.diag() is Some && self.7.diag() is Some && self.8.diag() is Some && self.9.diag() is Some && self.10.diag() is Some && self.11.diag() is Some && self.12.diag() is Some {
                assert(s@ =~= d0@ + d1@ + d2@ + d3@ + d4@ + d5@ + d6@ + d7@ + d8@ + d9@ + d10@ + d11@ + d12@);
            }
        }
        s
    }
}

impl<A: MatchStream, B: MatchStream, C: MatchStream, D: MatchStream, E: MatchStream, F: MatchStream, G: MatchStream, H: MatchStream, I: MatchStream, J: MatchStream, K: MatchStream, L: MatchStream, M: MatchStream> MatchStream for (A, B, C, D, E, F, G, H, I, J, K, L, M) {
    open spec fn matches(&self, st: StreamState, res: MatchResult) -> bool {
        exists|r0: MatchResult, t0: int|
#![trigger self.0.matches(st.skipped(t0), r0)]
{
&&& t0 == 0
&&& self.0.matches(st.skipped(t0), r0)
&&& match r0 {
Err(x) => res == Err::<usize, Option<String>>(x),
Ok(n0) => exists|r1: MatchResult, t1: int|
#![trigger self.1.matches(st.skipped(t1), r1)]
{
&&& t1 == t0 + n0
&&& self.1.matches(st.skipped(t1), r1)
&&& match r1 {
Err(x) => res == Err::<usize, Option<String>>(x),
Ok(n1) => exists|r2: MatchResult, t2: int|
#![trigger self.2.matches(st.skipped(t2), r2)]
{
&&& t2 == t1 + n1
&&& self.2.matches(st.skipped(t2), r2)
&&& match r2 {
Err(x) => res == Err::<usize, Option<String>>(x),
Ok(n2) => exists|r3: MatchResult, t3: int|
#![trigger self.3.matches(st.skipped(t3), r3)]
{
&&& t3 == t2 + n2
&&& self.3.matches(st.skipped(t3), r3)
&&& match r3 {
Err(x) => res == Err::<usize, Option<String>>(x),
Ok(n3) => exists|r4: MatchResult, t4: int|
#![trigger self.4.matches(st.skipped(t4), r4)]
{
&&& t4 == t3 + n3
&&& self.4.matches(st.skipped(t4), r4)
&&& match r4 {
Err(x) => res == Err::<usize, Option<String>>(x),
Ok(n4) => exists|r5: MatchResult, t5: int|
#![trigger self.5.matches(st.skipped(t5), r5)]
{
&&& t5 == t4 + n4
&&& self.5.matches(st.skipped(t5), r5)
&&& match r5 {
Err(x) => res == Err::<usize, Option<String>>(x),
Ok(n5) => exists|r6: MatchResult, t6: int|
#![trigger self.6.matches(st.skipped(t6), r6)]
{
&&& t6 == t5 + n5
&&& self.6.matches(st.skipped(t6), r6)
&&& match r6 {
Err(x) => res == Err::<usize, Option<String>>(x),
Ok(n6) => exists|r7: MatchResult, t7: int|
#![trigger self.7.matches(st.skipped(t7), r7)]
{
&&& t7 == t6 + n6
&&& self.7.matches(st.skipped(t7), r7)
&&& match r7 {
Err(x) => res == Err::<usize, Option<String>>(x),
Ok(n7) => exists|r8: MatchResult, t8: int|
#![trigger self.8.matches(st.skipped(t8), r8)]
{
&&& t8 == t7 + n7
&&& self.8.matches(st.skipped(t8), r8)
&&& match r8 {
Err(x) => res == Err::<usize, Option<String>>(x),
Ok(n8) => exists|r9: MatchResult, t9: int|
#![trigger self.9.matches(st.skipped(t9), r9)]
{
&&& t9 == t8 + n8
&&& self.9.matches(st.skipped(t9), r9)
&&& match r9 {
Err(x) => res == Err::<usize, Option<String>>(x),
Ok(n9) => exists|r10: MatchResult, t10: int|
#![trigger self.10.matches(st.skipped(t10), r10)]
{
&&& t10 == t9 + n9
&&& self.10.matches(st.skipped(t10), r10)
&&& match r10 {
Err(x) => res == Err::<usize, Option<String>>(x),
Ok(n10) => exists|r11: MatchResult, t11: int|
#![trigger self.11.matches(st.skipped(t11), r11)]
{
&&& t11 == t10 + n10
&&& self.11.matches(st.skipped(t11), r11)
&&& match r11 {
Err(x) => res == Err::<usize, Option<String>>(x),
Ok(n11) => exists|r12: MatchResult, t12: int|
#![trigger self.12.matches(st.skipped(t12), r12)]
{
&&& t12 == t11 + n11
&&& self.12.matches(st.skipped(t12), r12)
&&& match r12 {
Err(x) => res == Err::<usize, Option<String>>(x),
Ok(n12) => res == Ok::<usize, Option<String>>((t12 + n12) as usize),
}
},
}
},
}
},
}
},
}
},
}
},
}
},
}
},
}
},
}
},
}
},
}
},
}
}
    }

    fn match_stream<S: StreamLike>(&self, stream: StreamView<'_, S>) -> (res: MatchResult) {
        let mut stream = stream;
        let mut total: usize = 0;
        proof {
            stream.lemma_len_bound();
        }
        let n0 = match_step(&self.0, &mut stream, total)?;
        total = total + n0;
        let n1 = match_step(&self.1, &mut stream, total)?;
        total = total + n1;
        let n2 = match_step(&self.2, &mut stream, total)?;
        total = total + n2;
        let n3 = match_step(&self.3, &mut stream, total)?;
        total = total + n3;
        let n4 = match_step(&self.4, &mut stream, total)?;
        total = total + n4;
        let n5 = match_step(&self.5, &mut stream, total)?;
        total = total + n5;
        let n6 = match_step(&self.6, &mut stream, total)?;
        total = total + n6;
        let n7 = match_step(&self.7, &mut stream, total)?;
        total = total + n7;
        let n8 = match_step(&self.8, &mut stream, total)?;
        total = total + n8;
        let n9 = match_step(&self.9, &mut stream, total)?;
        total = total + n9;
        let n10 = match_step(&self.10, &mut stream, total)?;
        total = total + n10;
        let n11 = match_step(&self.11, &mut stream, total)?;
        total = total + n11;
        let n12 = match_step(&self.12, &mut stream, total)?;
        total = total + n12;
        Ok(total)
    }
}

impl<A: DiagDisplay, B: DiagDisplay, C: DiagDisplay, D: DiagDisplay, E: DiagDisplay, F: DiagDisplay, G: DiagDisplay, H: DiagDisplay, I: DiagDisplay, J: DiagDisplay, K: DiagDisplay, L: DiagDisplay, M: DiagDisplay, N: DiagDisplay> DiagDisplay for (A, B, C, D, E, F, G, H, I, J, K, L, M, N) {
    open spec fn diag(&self) -> Option<Seq<char>> {
        join_diag(join_diag(join_diag(join_diag(join_diag(join_diag(join_diag(join_diag(join_diag(join_diag(join_diag(join_diag(join_diag(self.0.diag(), self.1.diag()), self.2.diag()), self.3.diag()), self.4.diag()), self.5.diag()), self.6.diag()), self.7.diag()), self.8.diag()), self.9.diag()), self.10.diag()), self.11.diag()), self.12.diag()), self.13.diag())
    }

    fn diag_string(&self) -> (s: String) {
        let mut s = String::new();
        let d0 = self.0.diag_string();
        s.append(d0.as_str());
        let d1 = self.1.diag_string();
        s.append(d1.as_str());
        let d2 = self.2.diag_string();
        s.append(d2.as_str());
        let d3 = self.3.diag_string();
        s.append(d3.as_str());
        let d4 = self.4.diag_string();
        s.append(d4.as_str());
        let d5 = self.5.diag_string();
        s.append(d5.as_str());
        let d6 = self.6.diag_string();
        s.append(d6.as_str());
        let d7 = self.7.diag_string();
        s.append(d7.as_str());
        let d8 = self.8.diag_string();
        s.append(d8.as_str());
        let d9 = self.9.diag_string();
        s.append(d9.as_str());
        let d10 = self.10.diag_string();
        s.append(d10.as_str());
        let d11 = self.11.diag_string();
        s.append(d11.as_str());
        let d12 = self.12.diag_string();
        s.append(d12.as_str());
        let d13 = self.13.diag_string();
        s.append(d13.as_str());
        proof {
            if self.0.diag() is Some && self.1.diag() is Some && self.2.diag() is Some && self.3.diag() is Some && self.4.diag() is Some && self.5.diag() is Some && self.6.diag() is Some && self.7.diag() is Some && self.8.diag() is Some && self.9.diag() is Some && self.10.diag() is Some && self.11.diag() is Some && self.12.diag() is Some && self.13.diag() is Some {
                assert(s@ =~= d0@ + d1@ + d2@ + d3@ + d4@ + d5@ + d6@ + d7@ + d8@ + d9@ + d10@ + d11@ + d12@ + d13@);
            }
        }
        s
    }
}

impl<A: MatchStream, B: MatchStream, C: MatchStream, D: MatchStream, E: MatchStream, F: MatchStream, G: MatchStream, H: MatchStream, I: MatchStream, J: MatchStream, K: MatchStream, L: MatchStream, M: MatchStream, N: MatchStream> MatchStream for (A, B, C, D, E, F, G, H, I, J, K, L, M, N) {
    open spec fn matches(&self, st: StreamState, res: MatchResult) -> bool {
        exists|r0: MatchResult, t0: int|
#![trigger self.0.matches(st.skipped(t0), r0)]
{
&&& t0 == 0
&&& self.0.matches(st.skipped(t0), r0)
&&& match r0 {
Err(x) => res == Err::<usize, Option<String>>(x),
Ok(n0) => exists|r1: MatchResult, t1: int|
#![trigger self.1.matches(st.skipped(t1), r1)]
{
&&& t1 == t0 + n0
&&& self.1.matches(st.skipped(t1), r1)
&&& match r1 {
Err(x) => res == Err::<usize, Option<String>>(x),
Ok(n1) => exists|r2: MatchResult, t2: int|
#![trigger self.2.matches(st.skipped(t2), r2)]
{
&&& t2 == t1 + n1
&&& self.2.matches(st.skipped(t2), r2)
&&& match r2 {
Err(x) => res == Err::<usize, Option<String>>(x),
Ok(n2) => exists|r3: MatchResult, t3: int|
#![trigger self.3.matches(st.skipped(t3), r3)]
{
&&& t3 == t2 + n2
&&& self.3.matches(st.skipped(t3), r3)
&&& match r3 {
Err(x) => res == Err::<usize, Option<String>>(x),
Ok(n3) => exists|r4: MatchResult, t4: int|
#![trigger self.4.matches(st.skipped(t4), r4)]
{
&&& t4 == t3 + n3
&&& self.4.matches(st.skipped(t4), r4)
&&& match r4 {
Err(x) => res == Err::<usize, Option<String>>(x),
Ok(n4) => exists|r5: MatchResult, t5: int|
#![trigger self.5.matches(st.skipped(t5), r5)]
{
&&& t5 == t4 + n4
&&& self.5.matches(st.skipped(t5), r5)
&&& match r5 {
Err(x) => res == Err::<usize, Option<String>>(x),
Ok(n5) => exists|r6: MatchResult, t6: int|
#![trigger self.6.matches(st.skipped(t6), r6)]
{
&&& t6 == t5 + n5
&&& self.6.matches(st.skipped(t6), r6)
&&& match r6 {
Err(x) => res == Err::<usize, Option<String>>(x),
Ok(n6) => exists|r7: MatchResult, t7: int|
#![trigger self.7.matches(st.skipped(t7), r7)]
{
&&& t7 == t6 + n6
&&& self.7.matches(st.skipped(t7), r7)
&&& match r7 {
Err(x) => res == Err::<usize, Option<String>>(x),
Ok(n7) => exists|r8: MatchResult, t8: int|
#![trigger self.8.matches(st.skipped(t8), r8)]
{
&&& t8 == t7 + n7
&&& self.8.matches(st.skipped(t8), r8)
&&& match r8 {
Err(x) => res == Err::<usize, Option<String>>(x),
Ok(n8) => exists|r9: MatchResult, t9: int|
#![trigger self.9.matches(st.skipped(t9), r9)]
{
&&& t9 == t8 + n8
&&& self.9.matches(st.skipped(t9), r9)
&&& match r9 {
Err(x) => res == Err::<usize, Option<String>>(x),
Ok(n9) => exists|r10: MatchResult, t10: int|
#![trigger self.10.matches(st.skipped(t10), r10)]
{
&&& t10 == t9 + n9
&&& self.10.matches(st.skipped(t10), r10)
&&& match r10 {
Err(x) => res == Err::<usize, Option<String>>(x),
Ok(n10) => exists|r11: MatchResult, t11: int|
#![trigger self.11.matches(st.skipped(t11), r11)]
{
&&& t11 == t10 + n10
&&& self.11.matches(st.skipped(t11), r11)
&&& match r11 {
Err(x) => res == Err::<usize, Option<String>>(x),
Ok(n11) => exists|r12: MatchResult, t12: int|
#![trigger self.12.matches(st.skipped(t12), r12)]
{
&&& t12 == t11 + n11
&&& self.12.matches(st.skipped(t12), r12)
&&& match r12 {
Err(x) => res == Err::<usize, Option<String>>(x),
Ok(n12) => exists|r13: MatchResult, t13: int|
#![trigger self.13.matches(st.skipped(t13), r13)]
{
&&& t13 == t12 + n12
&&& self.13.matches(st.skipped(t13), r13)
&&& match r13 {
Err(x) => res == Err::<usize, Option<String>>(x),
Ok(n13) => res == Ok::<usize, Option<String>>((t13 + n13) as usize),
}
},
}
},
}
},
}
},
}
},
}
},
}
},
}
},
}
},
}
},
}
},
}
},
}
},
}
}
    }

    fn match_stream<S: StreamLike>(&self, stream: StreamView<'_, S>) -> (res: MatchResult) {
        let mut stream = stream;
        let mut total: usize = 0;
        proof {
            stream.lemma_len_bound();
        }
        let n0 = match_step(&self.0, &mut stream, total)?;
        total = total + n0;
        let n1 = match_step(&self.1, &mut stream, total)?;
        total = total + n1;
        let n2 = match_step(&self.2, &mut stream, total)?;
        total = total + n2;
        let n3 = match_step(&self.3, &mut stream, total)?;
        total = total + n3;
        let n4 = match_step(&self.4, &mut stream, total)?;
        total = total + n4;
        let n5 = match_step(&self.5, &mut stream, total)?;
        total = total + n5;
        let n6 = match_step(&self.6, &mut stream, total)?;
        total = total + n6;
        let n7 = match_step(&self.7, &mut stream, total)?;
        total = total + n7;
        let n8 = match_step(&self.8, &mut stream, total)?;
        total = total + n8;
        let n9 = match_step(&self.9, &mut stream, total)?;
        total = total + n9;
        let n10 = match_step(&self.10, &mut stream, total)?;
        total = total + n10;
        let n11 = match_step(&self.11, &mut stream, total)?;
        total = total + n11;
        let n12 = match_step(&self.12, &mut stream, total)?;
        total = total + n12;
        let n13 = match_step(&self.13, &mut stream, total)?;
        total = total + n13;
        Ok(total)
    }
}

impl<A: DiagDisplay, B: DiagDisplay, C: DiagDisplay, D: DiagDisplay, E: DiagDisplay, F: DiagDisplay, G: DiagDisplay, H: DiagDisplay, I: DiagDisplay, J: DiagDisplay, K: DiagDisplay, L: DiagDisplay, M: DiagDisplay, N: DiagDisplay, O: DiagDisplay> DiagDisplay for (A, B, C, D, E, F, G, H, I, J, K, L, M, N, O) {
    open spec fn diag(&self) -> Option<Seq<char>> {
        join_diag(join_diag(join_diag(join_diag(join_diag(join_diag(join_diag(join_diag(join_diag(join_diag(join_diag(join_diag(join_diag(join_diag(self.0.diag(), self.1.diag()), self.2.diag()), self.3.diag()), self.4.diag()), self.5.diag()), self.6.diag()), self.7.diag()), self.8.diag()), self.9.diag()), self.10.diag()), self.11.diag()), self.12.diag()), self.13.diag()), self.14.diag())
    }

    fn diag_string(&self) -> (s: String) {
        let mut s = String::new();
        let d0 = self.0.diag_string();
        s.append(d0.as_str());
        let d1 = self.1.diag_string();
        s.append(d1.as_str());
        let d2 = self.2.diag_string();
        s.append(d2.as_str());
        let d3 = self.3.diag_string();
        s.append(d3.as_str());
        let d4 = self.4.diag_string();
        s.append(d4.as_str());
        let d5 = self.5.diag_string();
        s.append(d5.as_str());
        let d6 = self.6.diag_string();
        s.append(d6.as_str());
        let d7 = self.7.diag_string();
        s.append(d7.as_str());
        let d8 = self.8.diag_string();
        s.append(d8.as_str());
        let d9 = self.9.diag_string();
        s.append(d9.as_str());
        let d10 = self.10.diag_string();
        s.append(d10.as_str());
        let d11 = self.11.diag_string();
        s.append(d11.as_str());
        let d12 = self.12.diag_string();
        s.append(d12.as_str());
        let d13 = self.13.diag_string();
        s.append(d13.as_str());
        let d14 = self.14.diag_string();
        s.append(d14.as_str());
        proof {
            if self.0.diag() is Some && self.1.diag() is Some && self.2.diag() is Some && self.3.diag() is Some && self.4.diag() is Some && self.5.diag() is Some && self.6.diag() is Some && self.7.diag() is Some && self.8.diag() is Some && self.9.diag() is Some && self.10.diag() is Some && self.11.diag() is Some && self.12.diag() is Some && self.13.diag() is Some && self.14.diag() is Some {
                assert(s@ =~= d0@ + d1@ + d2@ + d3@ + d4@ + d5@ + d6@ + d7@ + d8@ + d9@ + d10@ + d11@ + d12@ + d13@ + d14@);
            }
        }
        s
    }
}

impl<A: MatchStream, B: MatchStream, C: MatchStream, D: MatchStream, E: MatchStream, F: MatchStream, G: MatchStream, H: MatchStream, I: MatchStream, J: MatchStream, K: MatchStream, L: MatchStream, M: MatchStream, N: MatchStream, O: MatchStream> MatchStream for (A, B, C, D, E, F, G, H, I, J, K, L, M, N, O) {
    open spec fn matches(&self, st: StreamState, res: MatchResult) -> bool {
        exists|r0: MatchResult, t0: int|
#![trigger self.0.matches(st.skipped(t0), r0)]
{
&&& t0 == 0
&&& self.0.matches(st.skipped(t0), r0)
&&& match r0 {
Err(x) => res == Err::<usize, Option<String>>(x),
Ok(n0) => exists|r1: MatchResult, t1: int|
#![trigger self.1.matches(st.skipped(t1), r1)]
{
&&& t1 == t0 + n0
&&& self.1.matches(st.skipped(t1), r1)
&&& match r1 {
Err(x) => res == Err::<usize, Option<String>>(x),
Ok(n1) => exists|r2: MatchResult, t2: int|
#![trigger self.2.matches(st.skipped(t2), r2)]
{
&&& t2 == t1 + n1
&&& self.2.matches(st.skipped(t2), r2)
&&& match r2 {
Err(x) => res == Err::<usize, Option<String>>(x),
Ok(n2) => exists|r3: MatchResult, t3: int|
#![trigger self.3.matches(st.skipped(t3), r3)]
{
&&& t3 == t2 + n2
&&& self.3.matches(st.skipped(t3), r3)
&&& match r3 {
Err(x) => res == Err::<usize, Option<String>>(x),
Ok(n3) => exists|r4: MatchResult, t4: int|
#![trigger self.4.matches(st.skipped(t4), r4)]
{
&&& t4 == t3 + n3
&&& self.4.matches(st.skipped(t4), r4)
&&& match r4 {
Err(x) => res == Err::<usize, Option<String>>(x),
Ok(n4) => exists|r5: MatchResult, t5: int|
#![trigger self.5.matches(st.skipped(t5), r5)]
{
&&& t5 == t4 + n4
&&& self.5.matches(st.skipped(t5), r5)
&&& match r5 {
Err(x) => res == Err::<usize, Option<String>>(x),
Ok(n5) => exists|r6: MatchResult, t6: int|
#![trigger self.6.matches(st.skipped(t6), r6)]
{
&&& t6 == t5 + n5
&&& self.6.matches(st.skipped(t6), r6)
&&& match r6 {
Err(x) => res == Err::<usize, Option<String>>(x),
Ok(n6) => exists|r7: MatchResult, t7: int|
#![trigger self.7.matches(st.skipped(t7), r7)]
{
&&& t7 == t6 + n6
&&& self.7.matches(st.skipped(t7), r7)
&&& match r7 {
Err(x) => res == Err::<usize, Option<String>>(x),
Ok(n7) => exists|r8: MatchResult, t8: int|
#![trigger self.8.matches(st.skipped(t8), r8)]
{
&&& t8 == t7 + n7
&&& self.8.matches(st.skipped(t8), r8)
&&& match r8 {
Err(x) => res == Err::<usize, Option<String>>(x),
Ok(n8) => exists|r9: MatchResult, t9: int|
#![trigger self.9.matches(st.skipped(t9), r9)]
{
&&& t9 == t8 + n8
&&& self.9.matches(st.skipped(t9), r9)
&&& match r9 {
Err(x) => res == Err::<usize, Option<String>>(x),
Ok(n9) => exists|r10: MatchResult, t10: int|
#![trigger self.10.matches(st.skipped(t10), r10)]
{
&&& t10 == t9 + n9
&&& self.10.matches(st.skipped(t10), r10)
&&& match r10 {
Err(x) => res == Err::<usize, Option<String>>(x),
Ok(n10) => exists|r11: MatchResult, t11: int|
#![trigger self.11.matches(st.skipped(t11), r11)]
{
&&& t11 == t10 + n10
&&& self.11.matches(st.skipped(t11), r11)
&&& match r11 {
Err(x) => res == Err::<usize, Option<String>>(x),
Ok(n11) => exists|r12: MatchResult, t12: int|
#![trigger self.12.matches(st.skipped(t12), r12)]
{
&&& t12 == t11 + n11
&&& self.12.matches(st.skipped(t12), r12)
&&& match r12 {
Err(x) => res == Err::<usize, Option<String>>(x),
Ok(n12) => exists|r13: MatchResult, t13: int|
#![trigger self.13.matches(st.skipped(t13), r13)]
{
&&& t13 == t12 + n12
&&& self.13.matches(st.skipped(t13), r13)
&&& match r13 {
Err(x) => res == Err::<usize, Option<String>>(x),
Ok(n13) => exists|r14: MatchResult, t14: int|
#![trigger self.14.matches(st.skipped(t14), r14)]
{
&&& t14 == t13 + n13
&&& self.14.matches(st.skipped(t14), r14)
&&& match r14 {
Err(x) => res == Err::<usize, Option<String>>(x),
Ok(n14) => res == Ok::<usize, Option<String>>((t14 + n14) as usize),
}
},
}
},
}
},
}
},
}
},
}
},
}
},
}
},
}
},
}
},
}
},
}
},
}
},
}
},
}
}
    }

    fn match_stream<S: StreamLike>(&self, stream: StreamView<'_, S>) -> (res: MatchResult) {
        let mut stream = stream;
        let mut total: usize = 0;
        proof {
            stream.lemma_len_bound();
        }
        let n0 = match_step(&self.0, &mut stream, total)?;
        total = total + n0;
        let n1 = match_step(&self.1, &mut stream, total)?;
        total = total + n1;
        let n2 = match_step(&self.2, &mut stream, total)?;
        total = total + n2;
        let n3 = match_step(&self.3, &mut stream, total)?;
        total = total + n3;
        let n4 = match_step(&self.4, &mut stream, total)?;
        total = total + n4;
        let n5 = match_step(&self.5, &mut stream, total)?;
        total = total + n5;
        let n6 = match_step(&self.6, &mut stream, total)?;
        total = total + n6;
        let n7 = match_step(&self.7, &mut stream, total)?;
        total = total + n7;
        let n8 = match_step(&self.8, &mut stream, total)?;
        total = total + n8;
        let n9 = match_step(&self.9, &mut stream, total)?;
        total = total + n9;
        let n10 = match_step(&self.10, &mut stream, total)?;
        total = total + n10;
        let n11 = match_step(&self.11, &mut stream, total)?;
        total = total + n11;
        let n12 = match_step(&self.12, &mut stream, total)?;
        total = total + n12;
        let n13 = match_step(&self.13, &mut stream, total)?;
        total = total + n13;
        let n14 = match_step(&self.14, &mut stream, total)?;
        total = total + n14;
        Ok(total)
    }
}

impl<A: DiagDisplay, B: DiagDisplay, C: DiagDisplay, D: DiagDisplay, E: DiagDisplay, F: DiagDisplay, G: DiagDisplay, H: DiagDisplay, I: DiagDisplay, J: DiagDisplay, K: DiagDisplay, L: DiagDisplay, M: DiagDisplay, N: DiagDisplay, O: DiagDisplay, P: DiagDisplay> DiagDisplay for (A, B, C, D, E, F, G, H, I, J, K, L, M, N, O, P) {
    open spec fn diag(&self) -> Option<Seq<char>> {
        join_diag(join_diag(join_diag(join_diag(join_diag(join_diag(join_diag(join_diag(join_diag(join_diag(join_diag(join_diag(join_diag(join_diag(join_diag(self.0.diag(), self.1.diag()), self.2.diag()), self.3.diag()), self.4.diag()), self.5.diag()), self.6.diag()), self.7.diag()), self.8.diag()), self.9.diag()), self.10.diag()), self.11.diag()), self.12.diag()), self.13.diag()), self.14.diag()), self.15.diag())
    }

    fn diag_string(&self) -> (s: String) {
        let mut s = String::new();
        let d0 = self.0.diag_string();
        s.append(d0.as_str());
        let d1 = self.1.diag_string();
        s.append(d1.as_str());
        let d2 = self.2.diag_string();
        s.append(d2.as_str());
        let d3 = self.3.diag_string();
        s.append(d3.as_str());
        let d4 = self.4.diag_string();
        s.append(d4.as_str());
        let d5 = self.5.diag_string();
        s.append(d5.as_str());
        let d6 = self.6.diag_string();
        s.append(d6.as_str());
        let d7 = self.7.diag_string();
        s.append(d7.as_str());
        let d8 = self.8.diag_string();
        s.append(d8.as_str());
        let d9 = self.9.diag_string();
        s.append(d9.as_str());
        let d10 = self.10.diag_string();
        s.append(d10.as_str());
        let d11 = self.11.diag_string();
        s.append(d11.as_str());
        let d12 = self.12.diag_string();
        s.append(d12.as_str());
        let d13 = self.13.diag_string();
        s.append(d13.as_str());
        let d14 = self.14.diag_string();
        s.append(d14.as_str());
        let d15 = self.15.diag_string();
        s.append(d15.as_str());
        proof {
            if self.0.diag() is Some && self.1.diag() is Some && self.2.diag() is Some && self.3.diag() is Some && self.4.diag() is Some && self.5.diag() is Some && self.6.diag() is Some && self.7.diag() is Some && self.8.diag() is Some && self.9.diag() is Some && self.10.diag() is Some && self.11.diag() is Some && self.12.diag() is Some && self.13.diag() is Some && self.14.diag() is Some && self.15.diag() is Some {
                assert(s@ =~= d0@ + d1@ + d2@ + d3@ + d4@ + d5@ + d6@ + d7@ + d8@ + d9@ + d10@ + d11@ + d12@ + d13@ + d14@ + d15@);
            }
        }
        s
    }
}

impl<A: MatchStream, B: MatchStream, C: MatchStream, D: MatchStream, E: MatchStream, F: MatchStream, G: MatchStream, H: MatchStream, I: MatchStream, J: MatchStream, K: MatchStream, L: MatchStream, M: MatchStream, N: MatchStream, O: MatchStream, P: MatchStream> MatchStream for (A, B, C, D, E, F, G, H, I, J, K, L, M, N, O, P) {
    open spec fn matches(&self, st: StreamState, res: MatchResult) -> bool {
        exists|r0: MatchResult, t0: int|
#![trigger self.0.matches(st.skipped(t0), r0)]
{
&&& t0 == 0
&&& self.0.matches(st.skipped(t0), r0)
&&& match r0 {
Err(x) => res == Err::<usize, Option<String>>(x),
Ok(n0) => exists|r1: MatchResult, t1: int|
#![trigger self.1.matches(st.skipped(t1), r1)]
{
&&& t1 == t0 + n0
&&& self.1.matches(st.skipped(t1), r1)
&&& match r1 {
Err(x) => res == Err::<usize, Option<String>>(x),
Ok(n1) => exists|r2: MatchResult, t2: int|
#![trigger self.2.matches(st.skipped(t2), r2)]
{
&&& t2 == t1 + n1
&&& self.2.matches(st.skipped(t2), r2)
&&& match r2 {
Err(x) => res == Err::<usize, Option<String>>(x),
Ok(n2) => exists|r3: MatchResult, t3: int|
#![trigger self.3.matches(st.skipped(t3), r3)]
{
&&& t3 == t2 + n2
&&& self.3.matches(st.skipped(t3), r3)
&&& match r3 {
Err(x) => res == Err::<usize, Option<String>>(x),
Ok(n3) => exists|r4: MatchResult, t4: int|
#![trigger self.4.matches(st.skipped(t4), r4)]
{
&&& t4 == t3 + n3
&&& self.4.matches(st.skipped(t4), r4)
&&& match r4 {
Err(x) => res == Err::<usize, Option<String>>(x),
Ok(n4) => exists|r5: MatchResult, t5: int|
#![trigger self.5.matches(st.skipped(t5), r5)]
{
&&& t5 == t4 + n4
&&& self.5.matches(st.skipped(t5), r5)
&&& match r5 {
Err(x) => res == Err::<usize, Option<String>>(x),
Ok(n5) => exists|r6: MatchResult, t6: int|
#![trigger self.6.matches(st.skipped(t6), r6)]
{
&&& t6 == t5 + n5
&&& self.6.matches(st.skipped(t6), r6)
&&& match r6 {
Err(x) => res == Err::<usize, Option<String>>(x),
Ok(n6) => exists|r7: MatchResult, t7: int|
#![trigger self.7.matches(st.skipped(t7), r7)]
{
&&& t7 == t6 + n6
&&& self.7.matches(st.skipped(t7), r7)
&&& match r7 {
Err(x) => res == Err::<usize, Option<String>>(x),
Ok(n7) => exists|r8: MatchResult, t8: int|
#![trigger self.8.matches(st.skipped(t8), r8)]
{
&&& t8 == t7 + n7
&&& self.8.matches(st.skipped(t8), r8)
&&& match r8 {
Err(x) => res == Err::<usize, Option<String>>(x),
Ok(n8) => exists|r9: MatchResult, t9: int|
#![trigger self.9.matches(st.skipped(t9), r9)]
{
&&& t9 == t8 + n8
&&& self.9.matches(st.skipped(t9), r9)
&&& match r9 {
Err(x) => res == Err::<usize, Option<String>>(x),
Ok(n9) => exists|r10: MatchResult, t10: int|
#![trigger self.10.matches(st.skipped(t10), r10)]
{
&&& t10 == t9 + n9
&&& self.10.matches(st.skipped(t10), r10)
&&& match r10 {
Err(x) => res == Err::<usize, Option<String>>(x),
Ok(n10) => exists|r11: MatchResult, t11: int|
#![trigger self.11.matches(st.skipped(t11), r11)]
{
&&& t11 == t10 + n10
&&& self.11.matches(st.skipped(t11), r11)
&&& match r11 {
Err(x) => res == Err::<usize, Option<String>>(x),
Ok(n11) => exists|r12: MatchResult, t12: int|
#![trigger self.12.matches(st.skipped(t12), r12)]
{
&&& t12 == t11 + n11
&&& self.12.matches(st.skipped(t12), r12)
&&& match r12 {
Err(x) => res == Err::<usize, Option<String>>(x),
Ok(n12) => exists|r13: MatchResult, t13: int|
#![trigger self.13.matches(st.skipped(t13), r13)]
{
&&& t13 == t12 + n12
&&& self.13.matches(st.skipped(t13), r13)
&&& match r13 {
Err(x) => res == Err::<usize, Option<String>>(x),
Ok(n13) => exists|r14: MatchResult, t14: int|
#![trigger self.14.matches(st.skipped(t14), r14)]
{
&&& t14 == t13 + n13
&&& self.14.matches(st.skipped(t14), r14)
&&& match r14 {
Err(x) => res == Err::<usize, Option<String>>(x),
Ok(n14) => exists|r15: MatchResult, t15: int|
#![trigger self.15.matches(st.skipped(t15), r15)]
{
&&& t15 == t14 + n14
&&& self.15.matches(st.skipped(t15), r15)
&&& match r15 {
Err(x) => res == Err::<usize, Option<String>>(x),
Ok(n15) => res == Ok::<usize, Option<String>>((t15 + n15) as usize),
}
},
}
},
}
},
}
},
}
},
}
},
}
},
}
},
}
},
}
},
}
},
}
},
}
},
}
},
}
},
}
}
    }

    fn match_stream<S: StreamLike>(&self, stream: StreamView<'_, S>) -> (res: MatchResult) {
        let mut stream = stream;
        let mut total: usize = 0;
        proof {
            stream.lemma_len_bound();
        }
        let n0 = match_step(&self.0, &mut stream, total)?;
        total = total + n0;
        let n1 = match_step(&self.1, &mut stream, total)?;
        total = total + n1;
        let n2 = match_step(&self.2, &mut stream, total)?;
        total = total + n2;
        let n3 = match_step(&self.3, &mut stream, total)?;
        total = total + n3;
        let n4 = match_step(&self.4, &mut stream, total)?;
        total = total + n4;
        let n5 = match_step(&self.5, &mut stream, total)?;
        total = total + n5;
        let n6 = match_step(&self.6, &mut stream, total)?;
        total = total + n6;
        let n7 = match_step(&self.7, &mut stream, total)?;
        total = total + n7;
        let n8 = match_step(&self.8, &mut stream, total)?;
        total = total + n8;
        let n9 = match_step(&self.9, &mut stream, total)?;
        total = total + n9;
        let n10 = match_step(&self.10, &mut stream, total)?;
        total = total + n10;
        let n11 = match_step(&self.11, &mut stream, total)?;
        total = total + n11;
        let n12 = match_step(&self.12, &mut stream, total)?;
        total = total + n12;
        let n13 = match_step(&self.13, &mut stream, total)?;
        total = total + n13;
        let n14 = match_step(&self.14, &mut stream, total)?;
        total = total + n14;
        let n15 = match_step(&self.15, &mut stream, total)?;
        total = total + n15;
        Ok(total)
    }
}

} // verus!
