#![allow(missing_docs)]

use matcha::{
    punct, Braces, Brackets, Cut, Delimited, Delimiter, FromStream, Greedy, Group, GroupKind,
    Ident, Literal, MatchStream, Maybe, Neg, Parens, Punct, RepeatAny, RepeatPlus, RepeatRange,
    Stream, StreamLike, TokenGroup, TokenIdent, TokenLiteral, TokenPunct, TokenStream, TokenTree,
};

/// Lexes source text into the library's token model.
fn lex(s: &str) -> TokenStream {
    convert(s.parse::<proc_macro2::TokenStream>().expect("invalid test input"))
}

fn convert(ts: proc_macro2::TokenStream) -> TokenStream {
    let text = ts.to_string();
    let trees = ts.into_iter().map(convert_tree).collect();
    TokenStream { trees, text }
}

fn convert_tree(tt: proc_macro2::TokenTree) -> TokenTree {
    match tt {
        proc_macro2::TokenTree::Group(g) => TokenTree::Group(TokenGroup {
            delimiter: match g.delimiter() {
                proc_macro2::Delimiter::Parenthesis => Delimiter::Parenthesis,
                proc_macro2::Delimiter::Brace => Delimiter::Brace,
                proc_macro2::Delimiter::Bracket => Delimiter::Bracket,
                proc_macro2::Delimiter::None => Delimiter::Invisible,
            },
            stream: convert(g.stream()),
            text: g.to_string(),
            span: g.span(),
            span_open: g.span_open(),
            span_close: g.span_close(),
        }),
        proc_macro2::TokenTree::Ident(i) => TokenTree::Ident(TokenIdent {
            text: i.to_string(),
            span: i.span(),
        }),
        proc_macro2::TokenTree::Punct(p) => TokenTree::Punct(TokenPunct {
            ch: p.as_char(),
            joint: p.spacing() == proc_macro2::Spacing::Joint,
            span: p.span(),
        }),
        proc_macro2::TokenTree::Literal(l) => TokenTree::Literal(TokenLiteral {
            text: l.to_string(),
            span: l.span(),
        }),
    }
}

#[test]
fn utils_main() {
    let s = r#"
        (1, 2, 3) { 1 2 3 } []
        a; b; c;
        [ foo ]
    "#;
    let mut stream = Stream::from(lex(s));

    let g1 = Parens::from_stream(&mut stream).unwrap();
    assert_eq!(g1.kind, GroupKind::Paren);
    let g2 = Braces::from_stream(&mut stream).unwrap();
    assert_eq!(g2.kind, GroupKind::Brace);
    let g3 = Brackets::from_stream(&mut stream).unwrap();
    assert_eq!(g3.kind, GroupKind::Bracket);

    let mut g2_stream = Stream::from(g2.inner);
    let lits = RepeatAny::<Literal>::from_stream(&mut g2_stream.view()).unwrap();
    assert_eq!(lits, ["1", "2", "3"]);
    let lits = RepeatPlus::<Literal>::from_stream(&mut g2_stream.view()).unwrap();
    assert_eq!(lits, ["1", "2", "3"]);
    let lits = RepeatRange::<Literal, 2, 4>::from_stream(&mut g2_stream.view()).unwrap();
    assert_eq!(lits, ["1", "2", "3"]);
    let lits = RepeatRange::<Literal, 0, 2>::from_stream(&mut g2_stream.view()).unwrap();
    assert_eq!(lits, ["1", "2"]);

    let mut g3_stream = Stream::from(g3.inner);
    let lits = RepeatAny::<Literal>::from_stream(&mut g3_stream.view()).unwrap();
    assert_eq!(lits, [""; 0]);
    assert!(RepeatPlus::<Literal>::from_stream(&mut g3_stream.view()).is_err());
    let lits = RepeatRange::<Literal, 0, 4>::from_stream(&mut g3_stream.view()).unwrap();
    assert_eq!(lits, [""; 0]);
    assert!(RepeatRange::<Literal, 2, 4>::from_stream(&mut g3_stream.view()).is_err());

    let idents = Cut::<Delimited<Ident, punct::Semicolon>>::from_stream(&mut stream).unwrap();
    assert_eq!(idents, ["a", "b", "c"]);

    assert!(
        Cut::<Literal>::from_stream(&mut stream)
            .map_err(|e| e.fatal)
            .unwrap_err()
    );

    assert_eq!(Neg("123").match_stream(stream.view()), Ok(0));
    let mut inner = Stream::from(Group::from_stream(&mut stream).unwrap().inner);

    let tt = Greedy::<TokenTree>::from_stream(&mut inner).unwrap();
    assert_eq!(tt.to_string(), "foo");

    assert_eq!(
        Maybe(Punct {
            ch: ':',
            span: proc_macro2::Span::call_site()
        })
        .match_stream(stream.view()),
        Ok(0)
    );
}
