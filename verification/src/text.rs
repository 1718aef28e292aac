//! How tokens and token sequences print.
use crate::tokens::{lemma_trees_view, tree_view, trees_view, TokenTree, Tree};
use proc_macro2::Span;
use vstd::prelude::*;
use vstd::string::*;

verus! {

/// `String::from(char)` gives the string holding that one character.
#[verifier::external_body]
pub(crate) fn string_of_char(c: char) -> (s: String)
    ensures
        s@ == seq![c],
{
    String::from(c)
}

/// The remaining tokens printed one after the other, with a space between
/// each one and the text printed so far (none where nothing was printed yet).
pub open spec fn joined(ts: Seq<Tree>) -> Seq<char>
    decreases ts.len(),
{
    if ts.len() == 0 {
        Seq::empty()
    } else {
        let before = joined(ts.drop_last());
        (if before.len() == 0 {
            before
        } else {
            before + " "@
        }) + ts.last().text()
    }
}

impl TokenTree {
    /// The text the token prints as.
    pub fn to_string(&self) -> (s: String)
        ensures
            s@ == self@.text(),
    {
        match self {
            TokenTree::Group(g) => g.text.clone(),
            TokenTree::Ident(i) => i.text.clone(),
            TokenTree::Punct(p) => string_of_char(p.ch),
            TokenTree::Literal(l) => l.text.clone(),
        }
    }

    /// The span of the token (for a group, that of the whole group).
    pub fn span(&self) -> (s: Span)
        ensures
            s == self@.span(),
    {
        match self {
            TokenTree::Group(g) => g.span,
            TokenTree::Ident(i) => i.span,
            TokenTree::Punct(p) => p.span,
            TokenTree::Literal(l) => l.span,
        }
    }
}

/// Prints the given tokens, separated by spaces.
pub fn join_trees(ts: &[TokenTree]) -> (s: String)
    ensures
        s@ == joined(trees_view(ts@)),
{
    let mut s = String::new();
    let mut i: usize = 0;
    proof {
        lemma_trees_view(ts@);
        reveal_strlit(" ");
    }
    while i < ts.len()
        invariant
            i <= ts@.len(),
            trees_view(ts@).len() == ts@.len(),
            forall|j: int| 0 <= j < ts@.len() ==> #[trigger] trees_view(ts@)[j] == tree_view(ts@[j]),
            s@ == joined(trees_view(ts@).take(i as int)),
        decreases ts.len() - i,
    {
        let ghost before = s@;
        if !s.as_str().is_empty() {
            s.append(" ");
        }
        let t = ts[i].to_string();
        s.append(t.as_str());
        proof {
            let tv = trees_view(ts@);
            assert(tv.take(i + 1).drop_last() =~= tv.take(i as int));
            assert(tv.take(i + 1).last() == tree_view(ts@[i as int]));
        }
        i += 1;
    }
    proof {
        assert(trees_view(ts@).take(ts@.len() as int) =~= trees_view(ts@));
    }
    s
}

} // verus!
