//! Matching the inverse of a pattern.
use crate::stream::{join_diag, DiagDisplay, MatchResult, MatchStream, StreamLike, StreamState, StreamView};
use vstd::prelude::*;
use vstd::string::*;

verus! {

/// A helper for matching the inverse of a pattern.
///
/// When the inner pattern matches, returns `Err(None)`; else, returns `Ok(0)`.
pub struct Neg<T>(pub T);

impl<T: MatchStream> MatchStream for Neg<T> {
    open spec fn matches(&self, st: StreamState, res: MatchResult) -> bool {
        exists|r: MatchResult|
            #[trigger] self.0.matches(st, r) && if r is Err {
                res == Ok::<usize, Option<String>>(0)
            } else {
                res == Err::<usize, Option<String>>(None)
            }
    }

    fn match_stream<S: StreamLike>(&self, stream: StreamView<'_, S>) -> (res: MatchResult) {
        let ghost st = stream.state();
        let r = self.0.match_stream(stream);
        let res = if r.is_err() {
            Ok(0)
        } else {
            Err(None)
        };
        proof {
            assert(self.0.matches(st, r));
        }
        res
    }
}

impl<T: DiagDisplay> DiagDisplay for Neg<T> {
    open spec fn diag(&self) -> Option<Seq<char>> {
        join_diag(Some("!"@), self.0.diag())
    }

    fn diag_string(&self) -> (s: String) {
        proof {
            reveal_strlit("!");
        }
        let inner = self.0.diag_string();
        String::from_str("!").concat(inner.as_str())
    }
}

} // verus!
