//! The token model the parsers work on: trees of groups, identifiers,
//! punctuation and literals, each carrying the text it prints as and its span.
use proc_macro2::Span;
use vstd::prelude::*;

verus! {

/// The source location type of the compiler's token streams. Values of it
/// are only carried through the library, never inspected.
#[verifier::external_type_specification]
#[verifier::external_body]
pub struct ExSpan(proc_macro2::Span);

/// `Span::call_site` gives the span of the macro invocation; nothing is known
/// of which span that is.
pub assume_specification[ proc_macro2::Span::call_site ]() -> proc_macro2::Span;

/// `Span` is `Copy`, and its `Clone` is the derived one: the clone is the
/// same span.
pub assume_specification[ <proc_macro2::Span as Clone>::clone ](s: &proc_macro2::Span) -> (res: proc_macro2::Span)
    ensures
        res == *s,
;

/// The delimiter of a token group.
#[derive(Debug, Clone, Copy, PartialEq, Eq, Structural)]
pub enum Delimiter {
    /// `( ... )`
    Parenthesis,
    /// `{ ... }`
    Brace,
    /// `[ ... ]`
    Bracket,
    /// An invisible delimiter.
    Invisible,
}

/// A sequence of token trees, with the text the sequence prints as.
#[derive(Debug)]
pub struct TokenStream {
    /// The trees, in order.
    pub trees: Vec<TokenTree>,
    /// How the whole sequence prints.
    pub text: String,
}

/// A delimited group of tokens.
#[derive(Debug)]
pub struct TokenGroup {
    /// The delimiter around the group.
    pub delimiter: Delimiter,
    /// The tokens inside the delimiters.
    pub stream: TokenStream,
    /// How the group prints, delimiters included.
    pub text: String,
    /// The span of the whole group.
    pub span: Span,
    /// The span of the opening delimiter.
    pub span_open: Span,
    /// The span of the closing delimiter.
    pub span_close: Span,
}

/// An identifier token.
#[derive(Debug)]
pub struct TokenIdent {
    /// The identifier as it prints.
    pub text: String,
    /// Its span.
    pub span: Span,
}

/// A single punctuation character.
#[derive(Debug)]
pub struct TokenPunct {
    /// The character.
    pub ch: char,
    /// Whether it is joined to the following punctuation (as in `->`).
    pub joint: bool,
    /// Its span.
    pub span: Span,
}

/// A literal token (string, character, number, ...).
#[derive(Debug)]
pub struct TokenLiteral {
    /// The literal as it prints.
    pub text: String,
    /// Its span.
    pub span: Span,
}

/// A single token tree.
#[derive(Debug)]
pub enum TokenTree {
    /// A delimited group.
    Group(TokenGroup),
    /// An identifier.
    Ident(TokenIdent),
    /// A punctuation character.
    Punct(TokenPunct),
    /// A literal.
    Literal(TokenLiteral),
}

/// The mathematical value of a token tree.
pub enum Tree {
    Group {
        delimiter: Delimiter,
        trees: Seq<Tree>,
        inner_text: Seq<char>,
        text: Seq<char>,
        span: Span,
        span_open: Span,
        span_close: Span,
    },
    Ident { text: Seq<char>, span: Span },
    Punct { ch: char, joint: bool, span: Span },
    Literal { text: Seq<char>, span: Span },
}

impl Tree {
    /// The text a token prints as.
    pub open spec fn text(self) -> Seq<char> {
        match self {
            Tree::Group { text, .. } => text,
            Tree::Ident { text, .. } => text,
            Tree::Punct { ch, .. } => seq![ch],
            Tree::Literal { text, .. } => text,
        }
    }

    /// The span of a token (for a group, the span of the whole group).
    pub open spec fn span(self) -> Span {
        match self {
            Tree::Group { span, .. } => span,
            Tree::Ident { span, .. } => span,
            Tree::Punct { span, .. } => span,
            Tree::Literal { span, .. } => span,
        }
    }
}

/// The values of a sequence of token trees.
pub open spec fn trees_view(s: Seq<TokenTree>) -> Seq<Tree>
    decreases s,
{
    if s.len() == 0 {
        Seq::empty()
    } else {
        trees_view(s.drop_last()).push(tree_view(s.last()))
    }
}

/// The value of a token tree.
pub open spec fn tree_view(t: TokenTree) -> Tree
    decreases t,
{
    match t {
        TokenTree::Group(g) => Tree::Group {
            delimiter: g.delimiter,
            trees: trees_view(g.stream.trees@),
            inner_text: g.stream.text@,
            text: g.text@,
            span: g.span,
            span_open: g.span_open,
            span_close: g.span_close,
        },
        TokenTree::Ident(i) => Tree::Ident { text: i.text@, span: i.span },
        TokenTree::Punct(p) => Tree::Punct { ch: p.ch, joint: p.joint, span: p.span },
        TokenTree::Literal(l) => Tree::Literal { text: l.text@, span: l.span },
    }
}

impl View for TokenTree {
    type V = Tree;

    open spec fn view(&self) -> Tree {
        tree_view(*self)
    }
}

impl View for TokenStream {
    type V = (Seq<Tree>, Seq<char>);

    open spec fn view(&self) -> (Seq<Tree>, Seq<char>) {
        (trees_view(self.trees@), self.text@)
    }
}

/// The values of a sequence of trees, element by element.
pub proof fn lemma_trees_view(s: Seq<TokenTree>)
    ensures
        trees_view(s).len() == s.len(),
        forall|i: int| 0 <= i < s.len() ==> #[trigger] trees_view(s)[i] == tree_view(s[i]),
    decreases s.len(),
{
    if s.len() > 0 {
        lemma_trees_view(s.drop_last());
    }
}

fn clone_tree(t: &TokenTree) -> (res: TokenTree)
    ensures
        res@ == t@,
    decreases t,
{
    match t {
        TokenTree::Group(g) => {
            let trees = clone_trees(&g.stream.trees);
            TokenTree::Group(TokenGroup {
                delimiter: g.delimiter,
                stream: TokenStream { trees, text: g.stream.text.clone() },
                text: g.text.clone(),
                span: g.span,
                span_open: g.span_open,
                span_close: g.span_close,
            })
        },
        TokenTree::Ident(i) => TokenTree::Ident(TokenIdent { text: i.text.clone(), span: i.span }),
        TokenTree::Punct(p) => TokenTree::Punct(TokenPunct { ch: p.ch, joint: p.joint, span: p.span }),
        TokenTree::Literal(l) => TokenTree::Literal(
            TokenLiteral { text: l.text.clone(), span: l.span },
        ),
    }
}

fn clone_trees(v: &Vec<TokenTree>) -> (res: Vec<TokenTree>)
    ensures
        trees_view(res@) == trees_view(v@),
    decreases v,
{
    let mut res: Vec<TokenTree> = Vec::new();
    let mut i: usize = 0;
    proof { lemma_trees_view(v@); }
    while i < v.len()
        invariant
            i <= v.len(),
            res@.len() == i,
            trees_view(v@).len() == v@.len(),
            forall|j: int| 0 <= j < v@.len() ==> #[trigger] trees_view(v@)[j] == tree_view(v@[j]),
            forall|j: int| 0 <= j < i ==> #[trigger] tree_view(res@[j]) == trees_view(v@)[j],
        decreases v.len() - i,
    {
        proof {
            assert(decreases_to!(v => v@));
            assert(decreases_to!(v@ => v@[i as int]));
        }
        let t = clone_tree(&v[i]);
        res.push(t);
        i += 1;
    }
    proof {
        lemma_trees_view(res@);
        assert(trees_view(res@) =~= trees_view(v@));
    }
    res
}

impl Clone for TokenTree {
    /// A deep copy of the tree.
    fn clone(&self) -> (res: Self)
        ensures
            res@ == self@,
    {
        clone_tree(self)
    }
}

impl Clone for TokenStream {
    /// A deep copy of the sequence.
    fn clone(&self) -> (res: Self)
        ensures
            res@ == self@,
    {
        TokenStream { trees: clone_trees(&self.trees), text: self.text.clone() }
    }
}

} // verus!
