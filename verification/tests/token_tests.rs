use chumsky_proc::token::{Delim, Ident, Literal, Punct, RustToken, Spacing};
use std::collections::hash_map::DefaultHasher;
use std::hash::{Hash, Hasher};

#[test]
fn predicates_report_the_variant() {
    let lit = RustToken::Literal(Literal::new(String::from("1")));
    let ident = RustToken::Ident(Ident::new(String::from("foo")));
    let punct = RustToken::Punct(Punct::new('+', Spacing::Alone));
    let start = RustToken::StartDelim(Delim::Parenthesis);
    let end = RustToken::EndDelim(Delim::Parenthesis);

    assert!(lit.is_literal() && !lit.is_ident() && !lit.is_punct() && !lit.is_delim());
    assert!(ident.is_ident() && !ident.is_literal());
    assert!(punct.is_punct() && !punct.is_delim());
    assert!(start.is_start_delim() && !start.is_end_delim() && start.is_delim());
    assert!(end.is_end_delim() && !end.is_start_delim() && end.is_delim());
}

#[test]
fn narrowing_accessors_return_the_inner_value() {
    let lit = RustToken::Literal(Literal::new(String::from("42")));
    assert_eq!(lit.as_literal().unwrap().text, "42");
    assert!(lit.as_ident().is_none());
    assert!(lit.as_punct().is_none());

    let punct = RustToken::Punct(Punct::new('#', Spacing::Joint));
    assert_eq!(punct.as_punct().unwrap().ch, '#');
    assert_eq!(punct.as_punct().unwrap().spacing, Spacing::Joint);

    let start = RustToken::StartDelim(Delim::Brace);
    assert_eq!(*start.as_delim().unwrap(), Delim::Brace);
    let end = RustToken::EndDelim(Delim::Bracket);
    assert_eq!(*end.as_delim().unwrap(), Delim::Bracket);
    let ident = RustToken::Ident(Ident::new(String::from("x")));
    assert!(ident.as_delim().is_none());
}

#[test]
fn consuming_narrowing_returns_the_token_unchanged_on_mismatch() {
    let ident = RustToken::Ident(Ident::new(String::from("foo")));
    let back = ident.into_literal().unwrap_err();
    assert_eq!(back, RustToken::Ident(Ident::new(String::from("foo"))));

    let again = back.into_punct().unwrap_err();
    let name = again.into_ident().unwrap();
    assert_eq!(name.name, "foo");

    let start = RustToken::StartDelim(Delim::Invisible);
    assert_eq!(start.into_delim().unwrap(), Delim::Invisible);
    let end = RustToken::EndDelim(Delim::Brace);
    assert_eq!(end.into_delim().unwrap(), Delim::Brace);
    let lit = RustToken::Literal(Literal::new(String::from("7")));
    let back = lit.into_delim().unwrap_err();
    assert_eq!(back, RustToken::Literal(Literal::new(String::from("7"))));
}

#[test]
fn independently_built_literals_with_same_text_are_equal() {
    let a = RustToken::Literal(Literal::new(String::from("1")));
    let b = RustToken::Literal(Literal::new(String::from("1")));
    assert_eq!(a, b);
    let c = RustToken::Literal(Literal::new(String::from("2")));
    assert_ne!(a, c);
}

#[test]
fn punct_equality_is_sensitive_to_adjacency() {
    let alone = RustToken::Punct(Punct::new('+', Spacing::Alone));
    let joint = RustToken::Punct(Punct::new('+', Spacing::Joint));
    let alone_again = RustToken::Punct(Punct::new('+', Spacing::Alone));
    assert_ne!(alone, joint);
    assert_eq!(alone, alone_again);
    let other = RustToken::Punct(Punct::new('-', Spacing::Alone));
    assert_ne!(alone, other);
}

#[test]
fn cross_variant_comparisons_are_unequal() {
    let lit = RustToken::Literal(Literal::new(String::from("x")));
    let ident = RustToken::Ident(Ident::new(String::from("x")));
    let start = RustToken::StartDelim(Delim::Parenthesis);
    let end = RustToken::EndDelim(Delim::Parenthesis);
    assert_ne!(lit, ident);
    assert_ne!(start, end);
    assert_ne!(ident, start);
}

#[test]
fn equal_tokens_hash_equal() {
    let pairs = [
        (
            RustToken::Literal(Literal::new(String::from("1"))),
            RustToken::Literal(Literal::new(String::from("1"))),
        ),
        (
            RustToken::Ident(Ident::new(String::from("foo"))),
            RustToken::Ident(Ident::new(String::from("foo"))),
        ),
        (
            RustToken::Punct(Punct::new('+', Spacing::Joint)),
            RustToken::Punct(Punct::new('+', Spacing::Joint)),
        ),
        (
            RustToken::StartDelim(Delim::Brace),
            RustToken::StartDelim(Delim::Brace),
        ),
        (
            RustToken::EndDelim(Delim::Invisible),
            RustToken::EndDelim(Delim::Invisible),
        ),
    ];
    for (a, b) in pairs.iter() {
        assert_eq!(a, b);
        let mut ha = DefaultHasher::new();
        a.hash(&mut ha);
        let mut hb = DefaultHasher::new();
        b.hash(&mut hb);
        assert_eq!(ha.finish(), hb.finish());
    }
}

#[test]
fn clone_preserves_the_token() {
    let tok = RustToken::Punct(Punct::new('^', Spacing::Joint));
    assert_eq!(tok.clone(), tok);
    let tok = RustToken::Literal(Literal::new(String::from("3.5")));
    assert_eq!(tok.clone(), tok);
}
