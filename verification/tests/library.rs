#![allow(missing_docs)]

use matcha::{
    punct, Braces, Cut, Delimited, Delimiter, DiagDisplay, Error, ErrorText, FromStream, Greedy,
    Group, GroupKind, Ident, Literal, MatchStream, Maybe, Neg, Parens, Punct, RepeatAtLeast,
    RepeatAtMost, RepeatPlus, RepeatRange, Stream, StreamLike, TokenGroup, TokenIdent,
    TokenLiteral, TokenPunct, TokenStream, TokenTree,
};

/// Lexes source text into the library's token model.
fn lex(s: &str) -> TokenStream {
    convert(s.parse::<proc_macro2::TokenStream>().expect("invalid test input"))
}

fn convert(ts: proc_macro2::TokenStream) -> TokenStream {
    let text = ts.to_string();
    let trees = ts.into_iter().map(convert_tree).collect();
    TokenStream { trees, text }
}

fn convert_tree(tt: proc_macro2::TokenTree) -> TokenTree {
    match tt {
        proc_macro2::TokenTree::Group(g) => TokenTree::Group(TokenGroup {
            delimiter: match g.delimiter() {
                proc_macro2::Delimiter::Parenthesis => Delimiter::Parenthesis,
                proc_macro2::Delimiter::Brace => Delimiter::Brace,
                proc_macro2::Delimiter::Bracket => Delimiter::Bracket,
                proc_macro2::Delimiter::None => Delimiter::Invisible,
            },
            stream: convert(g.stream()),
            text: g.to_string(),
            span: g.span(),
            span_open: g.span_open(),
            span_close: g.span_close(),
        }),
        proc_macro2::TokenTree::Ident(i) => TokenTree::Ident(TokenIdent {
            text: i.to_string(),
            span: i.span(),
        }),
        proc_macro2::TokenTree::Punct(p) => TokenTree::Punct(TokenPunct {
            ch: p.as_char(),
            joint: p.spacing() == proc_macro2::Spacing::Joint,
            span: p.span(),
        }),
        proc_macro2::TokenTree::Literal(l) => TokenTree::Literal(TokenLiteral {
            text: l.to_string(),
            span: l.span(),
        }),
    }
}

fn stream(s: &str) -> Stream {
    Stream::from(lex(s))
}

fn texts(e: &Error) -> (String, String) {
    (e.expected.to_string(), e.got.to_string())
}

#[test]
fn error_texts_render() {
    assert_eq!(ErrorText::EndOfStream.to_string(), "end of stream");
    assert_eq!(ErrorText::Token.to_string(), "token");
    assert_eq!(ErrorText::Plain("a b".into()).to_string(), "a b");
    assert_eq!(ErrorText::Backticks("x".into()).to_string(), "`x`");
    let e = Error::new(
        ErrorText::Backticks(",".into()),
        ErrorText::EndOfStream,
        proc_macro2::Span::call_site(),
    );
    assert_eq!(e.to_string(), "expected `,`, got end of stream");
}

#[test]
fn error_fatal_flags() {
    let e = Error::new(ErrorText::Token, ErrorText::Token, proc_macro2::Span::call_site());
    assert!(!e.fatal);
    let e = e.fatal();
    assert!(e.fatal);
    let e = e.with_fatal(false);
    assert!(!e.fatal);
    assert!(e.with_fatal(true).fatal);
}

#[test]
fn stream_peeks_without_consuming() {
    let mut s = stream("a b c");
    assert_eq!(s.peek().unwrap().to_string(), "a");
    assert_eq!(s.peek_nth(2).unwrap().to_string(), "c");
    assert!(s.peek_nth(3).is_none());
    assert_eq!(s.peek_last().unwrap().to_string(), "c");
    let many: Vec<String> = s.peek_many(2).iter().map(|t| t.to_string()).collect();
    assert_eq!(many, ["a", "b"]);
    let many: Vec<String> = s.peek_many_at(5, 1).iter().map(|t| t.to_string()).collect();
    assert_eq!(many, ["b", "c"]);
    let from: Vec<String> = s.peek_from(2).iter().map(|t| t.to_string()).collect();
    assert_eq!(from, ["c"]);
    assert!(s.peek_from(7).is_empty());
    assert_eq!(s.stringify(), "a b c");
    assert!(!s.is_empty());
}

#[test]
fn stream_pops_and_skips() {
    let mut s = stream("a b c d");
    assert!(s.span_close().is_some());
    assert!(stream("").span_close().is_none());
    assert_eq!(s.pop().unwrap().to_string(), "a");
    s.skip(2);
    assert_eq!(s.stringify(), "d");
    s.skip(5);
    assert!(s.is_empty());
    assert!(s.pop().is_none());
    assert!(s.peek_last().is_none());
}

#[test]
fn stream_stringifies_groups() {
    let mut s = stream("x + (y z)");
    assert_eq!(s.stringify(), "x + (y z)");
}

#[test]
fn views_leave_the_stream_as_it_was() {
    let mut s = stream("a b c");
    {
        let mut v = s.view();
        assert_eq!(v.pop().unwrap().to_string(), "a");
        v.skip(1);
        assert_eq!(v.skipped(), 2);
        assert_eq!(v.stringify(), "c");
        assert_eq!(v.peek_last().unwrap().to_string(), "c");
        v.skip(4);
        assert!(v.is_empty());
        assert_eq!(v.peek_last().unwrap().to_string(), "c");
        v.reset_skip();
        assert_eq!(v.skipped(), 0);
        assert_eq!(v.peek().unwrap().to_string(), "a");
    }
    assert_eq!(s.stringify(), "a b c");
    let mut v = s.view_from(1);
    assert_eq!(v.peek().unwrap().to_string(), "b");
}

#[test]
fn idents_and_literals_parse() {
    let mut s = stream("foo \"C\" + bar");
    assert_eq!(Ident::from_stream(&mut s).unwrap().ident, "foo");
    assert_eq!(Literal::from_stream(&mut s).unwrap().literal, "\"C\"");
    let e = Ident::from_stream(&mut s).unwrap_err();
    assert_eq!(texts(&e), ("ident".to_string(), "`+`".to_string()));
    assert!(!e.fatal);
    let p = Punct::from_stream(&mut s).unwrap();
    assert_eq!(p.ch, '+');
    let e = Literal::from_stream(&mut s).unwrap_err();
    assert_eq!(texts(&e), ("literal".to_string(), "`bar`".to_string()));
    assert!(Ident::from_stream(&mut s).is_ok());
    let e = Ident::from_stream(&mut s).unwrap_err();
    assert_eq!(texts(&e), ("ident".to_string(), "end of stream".to_string()));
    let e = Punct::from_stream(&mut s).unwrap_err();
    assert_eq!(texts(&e), ("punctuation".to_string(), "end of stream".to_string()));
}

#[test]
fn punct_helpers_parse_their_character() {
    let mut s = stream(", ;");
    assert!(punct::Comma::from_stream(&mut s).is_ok());
    let e = punct::Comma::from_stream(&mut s).unwrap_err();
    assert_eq!(texts(&e), ("`,`".to_string(), "`;`".to_string()));
    assert_eq!(punct::Semicolon::from_stream(&mut s).unwrap(), punct::Semicolon);
    let e = punct::Bang::from_stream(&mut s).unwrap_err();
    assert_eq!(texts(&e), ("`!`".to_string(), "end of stream".to_string()));
    assert_eq!(punct::Dash.diag_string(), "-");
}

#[test]
fn token_trees_parse_and_match() {
    let mut s = stream("a (b)");
    let t = TokenTree::from_stream(&mut s).unwrap();
    assert_eq!(t.to_string(), "a");
    assert_eq!(t.match_stream(s.view()), Err(Some("(b)".to_string())));
    let g = TokenTree::from_stream(&mut s).unwrap();
    let mut again = stream("(b)");
    assert_eq!(g.match_stream(again.view()), Ok(1));
    let e = TokenTree::from_stream(&mut s).unwrap_err();
    assert_eq!(texts(&e), ("token".to_string(), "end of stream".to_string()));
}

#[test]
fn groups_parse_by_kind() {
    let mut s = stream("[x] {y} (z) w");
    let e = Parens::from_stream(&mut s).unwrap_err();
    assert_eq!(texts(&e), ("`(`".to_string(), "`[`".to_string()));
    // a group of the wrong kind is consumed all the same
    let g = Braces::from_stream(&mut s).unwrap();
    assert_eq!(g.kind, GroupKind::Brace);
    assert_eq!(g.inner.text, "y");
    let g = Group::from_stream(&mut s).unwrap();
    assert_eq!(g.kind, GroupKind::Paren);
    assert_eq!(g.diag_string(), "( z )");
    let e = Group::from_stream(&mut s).unwrap_err();
    assert_eq!(texts(&e), ("`(`, `[`, or `{`".to_string(), "`w`".to_string()));
    let e = Parens::from_stream(&mut s).unwrap_err();
    assert_eq!(texts(&e), ("`(`".to_string(), "`w`".to_string()));
    s.skip(1);
    let e = Group::from_stream(&mut s).unwrap_err();
    assert_eq!(texts(&e), ("(, [, or {".to_string(), "end of stream".to_string()));
    let e = Braces::from_stream(&mut s).unwrap_err();
    assert_eq!(texts(&e), ("`(`".to_string(), "end of stream".to_string()));
}

#[test]
fn group_kinds_and_delimiters() {
    assert_eq!(GroupKind::Paren.open(), '(');
    assert_eq!(GroupKind::Brace.close(), '}');
    assert_eq!(GroupKind::Bracket.open(), '[');
    assert_eq!(GroupKind::from(Delimiter::Invisible), GroupKind::Paren);
    for k in [GroupKind::Paren, GroupKind::Brace, GroupKind::Bracket] {
        assert_eq!(GroupKind::from(Delimiter::from(k)), k);
    }
}

#[test]
fn group_streams_keep_the_closing_span() {
    let mut s = stream("(a)");
    let g = Parens::from_stream(&mut s).unwrap();
    let mut inner = Stream::from(g);
    assert!(inner.span_close().is_some());
    assert!(Ident::from_stream(&mut inner).is_ok());
    let e = Ident::from_stream(&mut inner).unwrap_err();
    assert_eq!(e.got.to_string(), "end of stream");
}

#[test]
fn options_bubble_fatal_errors() {
    let mut s = stream("1");
    assert!(Option::<Ident>::from_stream(&mut s).unwrap().is_none());
    assert_eq!(s.stringify(), "1");
    let e = Option::<Cut<Ident>>::from_stream(&mut s).unwrap_err();
    assert!(e.fatal);
    assert_eq!(Option::<Literal>::from_stream(&mut s).unwrap().unwrap().literal, "1");
}

#[test]
fn vectors_stop_at_the_first_failure() {
    let mut s = stream("a b 1 c");
    let v = Vec::<Ident>::from_stream(&mut s).unwrap();
    assert_eq!(v, ["a", "b"]);
    assert_eq!(s.stringify(), "1 c");
    let mut s = stream("a b 1");
    assert!(Vec::<Cut<Ident>>::from_stream(&mut s).unwrap_err().fatal);
}

#[test]
fn cut_makes_errors_fatal() {
    let mut s = stream("a 1");
    assert_eq!(Cut::<Ident>::from_stream(&mut s).unwrap().ident, "a");
    let e = Cut::<Ident>::from_stream(&mut s).unwrap_err();
    assert!(e.fatal);
    assert_eq!(texts(&e), ("ident".to_string(), "`1`".to_string()));
}

#[test]
fn delimited_items_take_a_trailing_delimiter() {
    let mut s = stream("a, b, c");
    assert_eq!(Delimited::<Ident, punct::Comma>::from_stream(&mut s).unwrap(), ["a", "b", "c"]);
    let mut s = stream("a, b,");
    assert_eq!(Delimited::<Ident, punct::Comma>::from_stream(&mut s).unwrap(), ["a", "b"]);
    assert!(s.is_empty());
    let mut s = stream("a, b; c");
    assert_eq!(Delimited::<Ident, punct::Comma>::from_stream(&mut s).unwrap(), ["a", "b"]);
    assert_eq!(s.stringify(), "; c");
    let mut s = stream("a, 1");
    assert!(Delimited::<Cut<Ident>, punct::Comma>::from_stream(&mut s).unwrap_err().fatal);
    let mut s = stream("a b");
    assert!(Delimited::<Ident, Cut<punct::Comma>>::from_stream(&mut s).unwrap_err().fatal);
}

#[test]
fn greedy_requires_the_end() {
    let mut s = stream("a");
    assert_eq!(Greedy::<Ident>::from_stream(&mut s).unwrap().ident, "a");
    let mut s = stream("a b c");
    let e = Greedy::<Ident>::from_stream(&mut s).unwrap_err();
    assert_eq!(texts(&e), ("end of stream".to_string(), "`b c`".to_string()));
    assert!(!e.fatal);
}

#[test]
fn repeats_respect_their_bounds() {
    let mut s = stream("a b c");
    assert_eq!(RepeatAtMost::<Ident, 2>::from_stream(&mut s).unwrap(), ["a", "b"]);
    let mut s = stream("a");
    assert!(RepeatAtLeast::<Ident, 2>::from_stream(&mut s).is_err());
    let mut s = stream("a b c");
    assert_eq!(RepeatAtLeast::<Ident, 2>::from_stream(&mut s).unwrap(), ["a", "b", "c"]);
    let mut s = stream("1");
    assert!(RepeatPlus::<Ident>::from_stream(&mut s).is_err());
    let mut s = stream("a b c d e");
    assert_eq!(RepeatRange::<Ident, 1, 3>::from_stream(&mut s).unwrap(), ["a", "b", "c"]);
    assert_eq!(s.stringify(), "d e");
}

#[test]
fn tuples_parse_and_match_in_turn() {
    let mut s = stream("x : y z");
    let (a, _, b) = <(Ident, punct::Colon, Ident)>::from_stream(&mut s).unwrap();
    assert_eq!((a.ident.as_str(), b.ident.as_str()), ("x", "y"));
    let mut s = stream("x : 1");
    let e = <(Ident, punct::Colon, Ident)>::from_stream(&mut s).unwrap_err();
    assert_eq!(texts(&e), ("ident".to_string(), "`1`".to_string()));
    let mut s = stream("x : y");
    assert_eq!(("x", punct::Colon).match_stream(s.view()), Ok(2));
    assert_eq!(("x", punct::Comma).match_stream(s.view()), Err(Some(":".to_string())));
    assert_eq!(("x", punct::Colon, "y", "z").match_stream(s.view()), Err(None));
    assert_eq!(("x", punct::Colon).diag_string(), "x:");
    assert_eq!(s.stringify(), "x : y");
}

#[test]
fn sequences_of_patterns_match_in_turn() {
    let mut s = stream("a b c");
    assert_eq!(["a", "b"].match_stream(s.view()), Ok(2));
    assert_eq!(vec!["a", "c"].match_stream(s.view()), Err(Some("b".to_string())));
    assert_eq!(["a", "b", "c", "d"][..].match_stream(s.view()), Err(None));
    assert_eq!(["a", "b"].diag_string(), "ab");
    assert_eq!(s.stringify(), "a b c");
}

#[test]
fn negation_and_maybe() {
    let mut s = stream("a");
    assert_eq!(Neg("a").match_stream(s.view()), Err(None));
    assert_eq!(Neg("b").match_stream(s.view()), Ok(0));
    assert_eq!(Maybe("a").match_stream(s.view()), Ok(1));
    assert_eq!(Maybe("b").match_stream(s.view()), Ok(0));
    assert_eq!(Neg("b").diag_string(), "!b");
    assert_eq!(Maybe("b").diag_string(), "b");
}

#[test]
fn single_token_patterns() {
    let mut s = stream("foo 1 + (x)");
    let ident = Ident { ident: "foo".into(), span: proc_macro2::Span::call_site() };
    assert_eq!(ident.match_stream(s.view()), Ok(1));
    s.skip(1);
    let lit = Literal { literal: "1".into(), span: proc_macro2::Span::call_site() };
    assert_eq!(lit.match_stream(s.view()), Ok(1));
    assert_eq!(ident.match_stream(s.view()), Err(Some("1".to_string())));
    s.skip(1);
    let plus = Punct { ch: '+', span: proc_macro2::Span::call_site() };
    assert_eq!(plus.match_stream(s.view()), Ok(1));
    assert_eq!(punct::Plus.match_stream(s.view()), Ok(1));
    assert_eq!(plus.diag_string(), "+");
    s.skip(1);
    let mut g = stream("(x)");
    let group = Group::from_stream(&mut g).unwrap();
    assert_eq!(group.match_stream(s.view()), Ok(1));
    s.skip(1);
    assert_eq!(ident.match_stream(s.view()), Err(None));
}

#[test]
fn idents_compare_by_text() {
    let a = Ident { ident: "a".into(), span: proc_macro2::Span::call_site() };
    let b = Ident { ident: "a".into(), span: proc_macro2::Span::mixed_site() };
    assert!(a == b);
    assert!(a == "a");
    assert!(*"a" != *"b");
    assert!(a != "b");
}

#[test]
fn idents_and_literals_hash_by_text() {
    let mut idents = std::collections::HashSet::new();
    idents.insert(Ident { ident: "a".into(), span: proc_macro2::Span::call_site() });
    idents.insert(Ident { ident: "a".into(), span: proc_macro2::Span::mixed_site() });
    idents.insert(Ident { ident: "b".into(), span: proc_macro2::Span::call_site() });
    assert_eq!(idents.len(), 2);
    let mut literals = std::collections::HashSet::new();
    literals.insert(Literal { literal: "1".into(), span: proc_macro2::Span::call_site() });
    literals.insert(Literal { literal: "1".into(), span: proc_macro2::Span::mixed_site() });
    assert_eq!(literals.len(), 1);
}

#[test]
fn streams_convert_from_tokens_and_groups() {
    let mut s = Stream::from(lex("a b"));
    assert_eq!(s.stringify(), "a b");
    assert!(s.span_close().is_some());
    assert!(Stream::from(lex("")).span_close().is_none());
    let mut s = stream("[x y]");
    let g = Group::from_stream(&mut s).unwrap();
    let mut inner = Stream::from(g);
    assert_eq!(inner.stringify(), "x y");
}

#[test]
fn views_count_what_they_skip() {
    let mut s = stream("a b c");
    let mut v = s.view_from(1);
    assert_eq!(v.skipped(), 1);
    assert!(v.peek().is_some());
    assert_eq!(v.skipped(), 1);
    v.skip(1);
    assert_eq!(v.skipped(), 2);
    assert!(v.pop().is_some());
    assert_eq!(v.skipped(), 3);
    assert!(v.pop().is_none());
    assert_eq!(v.skipped(), 3);
    v.skip(4);
    assert_eq!(v.skipped(), 7);
}

#[test]
fn puncts_compare_and_hash_by_character() {
    let a = Punct { ch: ',', span: proc_macro2::Span::call_site() };
    let b = Punct { ch: ',', span: proc_macro2::Span::mixed_site() };
    let c = Punct { ch: ';', span: proc_macro2::Span::call_site() };
    assert!(a == b);
    assert!(a != c);
    let mut set = std::collections::HashSet::new();
    set.insert(a);
    set.insert(b);
    set.insert(c);
    assert_eq!(set.len(), 2);
}

#[test]
fn repeats_take_every_available_item() {
    let mut s = stream("a b c 1");
    assert_eq!(RepeatAtLeast::<Ident, 1>::from_stream(&mut s).unwrap(), ["a", "b", "c"]);
    assert!(Ident::from_stream(&mut s).is_err());
    assert_eq!(s.stringify(), "1");
    let mut s = stream("a b 1");
    assert_eq!(RepeatRange::<Ident, 1, 3>::from_stream(&mut s).unwrap(), ["a", "b"]);
    assert!(Ident::from_stream(&mut s).is_err());
    let mut s = stream("a 1");
    let e = RepeatRange::<Ident, 2, 3>::from_stream(&mut s).unwrap_err();
    assert_eq!(e.got.to_string(), "`1`");
    assert!(!e.fatal);
}
