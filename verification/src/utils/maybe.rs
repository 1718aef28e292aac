//! Optionally matching a pattern.
use crate::stream::{DiagDisplay, MatchResult, MatchStream, StreamLike, StreamState, StreamView};
use vstd::prelude::*;

verus! {

/// A helper for optionally matching a given pattern.
///
/// This is not for optionally [*parsing*](crate::FromStream) a given pattern;
/// for that, use `Option<T>`.
pub struct Maybe<T>(pub T);

impl<T: MatchStream> MatchStream for Maybe<T> {
    /// What the pattern matched, or nothing.
    open spec fn matches(&self, st: StreamState, res: MatchResult) -> bool {
        exists|r: MatchResult|
            #[trigger] self.0.matches(st, r) && res == Ok::<usize, Option<String>>(
                match r {
                    Ok(n) => n,
                    Err(_) => 0,
                },
            )
    }

    fn match_stream<S: StreamLike>(&self, stream: StreamView<'_, S>) -> (res: MatchResult) {
        let ghost st = stream.state();
        let r = self.0.match_stream(stream);
        let n = match r {
            Ok(n) => n,
            Err(_) => 0,
        };
        proof {
            assert(self.0.matches(st, r));
        }
        Ok(n)
    }
}

impl<T: DiagDisplay> DiagDisplay for Maybe<T> {
    open spec fn diag(&self) -> Option<Seq<char>> {
        self.0.diag()
    }

    fn diag_string(&self) -> (s: String) {
        self.0.diag_string()
    }
}

} // verus!
