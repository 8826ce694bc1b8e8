use chumsky_proc::input::RustTokens;
use chumsky_proc::primitive::{joined_punct, keyword, punct};
use chumsky_proc::span::RustSpan;
use chumsky_proc::token::{Delim, Ident, Literal, Punct, RustToken, Spacing};
use chumsky_proc::utils::RustTree;

fn sp() -> RustSpan {
    RustSpan::call_site()
}

fn leaf(tok: RustToken) -> RustTree {
    RustTree::Leaf(tok, sp())
}

fn ident(name: &str) -> RustToken {
    RustToken::Ident(Ident::new(String::from(name)))
}

fn lit(text: &str) -> RustToken {
    RustToken::Literal(Literal::new(String::from(text)))
}

fn pnct(ch: char, spacing: Spacing) -> RustToken {
    RustToken::Punct(Punct::new(ch, spacing))
}

#[test]
fn keyword_accepts_the_exact_identifier() {
    let toks = RustTokens::new(vec![leaf(ident("struct")), leaf(ident("Foo"))]);
    let (off, r) = keyword(&toks, 0, "struct");
    assert_eq!(off, 1);
    assert!(r.is_ok());
}

#[test]
fn keyword_rejects_other_identifiers_without_consuming() {
    let toks = RustTokens::new(vec![leaf(ident("enum")), leaf(ident("Foo"))]);
    let (off, r) = keyword(&toks, 0, "struct");
    assert_eq!(off, 0);
    let e = r.unwrap_err();
    assert_eq!(e.expected, vec![ident("struct")]);
    assert_eq!(e.found, Some(ident("enum")));
}

#[test]
fn keyword_rejects_non_identifiers_and_end_of_input() {
    let toks = RustTokens::new(vec![leaf(lit("1"))]);
    let (off, r) = keyword(&toks, 0, "struct");
    assert_eq!(off, 0);
    assert_eq!(r.unwrap_err().found, Some(lit("1")));

    let (off, r) = keyword(&toks, 1, "struct");
    assert_eq!(off, 1);
    assert_eq!(r.unwrap_err().found, None);
}

#[test]
fn punct_accepts_the_character_joined_or_not() {
    // A lone `+` ...
    let toks = RustTokens::new(vec![leaf(pnct('+', Spacing::Alone))]);
    let (off, r) = punct(&toks, 0, '+');
    assert_eq!(off, 1);
    assert!(r.is_ok());

    // ... and the `+` of `+=` both match.
    let toks = RustTokens::new(vec![
        leaf(pnct('+', Spacing::Joint)),
        leaf(pnct('=', Spacing::Alone)),
    ]);
    let (off, r) = punct(&toks, 0, '+');
    assert_eq!(off, 1);
    assert!(r.is_ok());
}

#[test]
fn punct_rejects_without_consuming() {
    let toks = RustTokens::new(vec![leaf(pnct('-', Spacing::Alone))]);
    let (off, r) = punct(&toks, 0, '+');
    assert_eq!(off, 0);
    let e = r.unwrap_err();
    assert_eq!(e.expected, vec![pnct('+', Spacing::Alone)]);
    assert_eq!(e.found, Some(pnct('-', Spacing::Alone)));

    let toks = RustTokens::new(vec![leaf(ident("plus"))]);
    let (off, r) = punct(&toks, 0, '+');
    assert_eq!(off, 0);
    assert_eq!(r.unwrap_err().found, Some(ident("plus")));
}

#[test]
fn joined_punct_matches_a_joined_pair() {
    // `+=`: the `+` is joined to the `=`.
    let toks = RustTokens::new(vec![
        leaf(pnct('+', Spacing::Joint)),
        leaf(pnct('=', Spacing::Alone)),
    ]);
    let (off, r) = joined_punct(&toks, 0, "+=");
    assert_eq!(off, 2);
    let ps = r.unwrap();
    assert_eq!(ps.len(), 2);
    assert_eq!(ps[0].ch, '+');
    assert_eq!(ps[1].ch, '=');
}

#[test]
fn joined_punct_accepts_any_adjacency_on_the_last_character() {
    // `+=+`: the final `=` of the pattern is itself joined to what
    // follows, which must not matter.
    let toks = RustTokens::new(vec![
        leaf(pnct('+', Spacing::Joint)),
        leaf(pnct('=', Spacing::Joint)),
        leaf(pnct('+', Spacing::Alone)),
    ]);
    let (off, r) = joined_punct(&toks, 0, "+=");
    assert_eq!(off, 2);
    assert!(r.is_ok());
}

#[test]
fn joined_punct_rejects_space_separated_characters() {
    // `+ =`: the `+` stands alone, so the pair is not joined.
    let toks = RustTokens::new(vec![
        leaf(pnct('+', Spacing::Alone)),
        leaf(pnct('=', Spacing::Alone)),
    ]);
    let (off, r) = joined_punct(&toks, 0, "+=");
    assert_eq!(off, 0);
    let e = r.unwrap_err();
    assert!(e.expected.is_empty());
    assert_eq!(e.found, Some(pnct('+', Spacing::Alone)));
}

#[test]
fn joined_punct_rejects_wrong_characters_and_short_input() {
    let toks = RustTokens::new(vec![
        leaf(pnct('-', Spacing::Joint)),
        leaf(pnct('=', Spacing::Alone)),
    ]);
    let (off, r) = joined_punct(&toks, 0, "+=");
    assert_eq!(off, 0);
    assert_eq!(r.unwrap_err().found, Some(pnct('-', Spacing::Joint)));

    let toks = RustTokens::new(vec![leaf(pnct('+', Spacing::Joint))]);
    let (off, r) = joined_punct(&toks, 0, "+=");
    assert_eq!(off, 0);
    assert_eq!(r.unwrap_err().found, None);

    let toks = RustTokens::new(vec![leaf(ident("x")), leaf(pnct('=', Spacing::Alone))]);
    let (off, r) = joined_punct(&toks, 0, "+=");
    assert_eq!(off, 0);
    assert_eq!(r.unwrap_err().found, Some(ident("x")));
}

#[test]
fn joined_punct_of_three_characters_needs_two_joints() {
    // `<<=` requires `<` joined to `<` joined to `=`.
    let toks = RustTokens::new(vec![
        leaf(pnct('<', Spacing::Joint)),
        leaf(pnct('<', Spacing::Joint)),
        leaf(pnct('=', Spacing::Alone)),
    ]);
    let (off, r) = joined_punct(&toks, 0, "<<=");
    assert_eq!(off, 3);
    assert_eq!(r.unwrap().len(), 3);

    // `<< =` breaks at the second `<`, which stands alone.
    let toks = RustTokens::new(vec![
        leaf(pnct('<', Spacing::Joint)),
        leaf(pnct('<', Spacing::Alone)),
        leaf(pnct('=', Spacing::Alone)),
    ]);
    let (off, r) = joined_punct(&toks, 0, "<<=");
    assert_eq!(off, 0);
    assert_eq!(r.unwrap_err().found, Some(pnct('<', Spacing::Alone)));
}

#[test]
fn primitives_reject_group_markers() {
    let toks = RustTokens::new(vec![RustTree::Group(
        Delim::Parenthesis,
        sp(),
        sp(),
        vec![leaf(ident("x"))],
    )]);
    // The flat sequence starts with a start marker, which no primitive
    // accepts.
    let (off, r) = keyword(&toks, 0, "x");
    assert_eq!(off, 0);
    assert_eq!(
        r.unwrap_err().found,
        Some(RustToken::StartDelim(Delim::Parenthesis))
    );
    let (off, r) = punct(&toks, 0, '(');
    assert_eq!(off, 0);
    assert!(r.is_err());
    // The identifier inside the group is at the next offset.
    let (off, r) = keyword(&toks, 1, "x");
    assert_eq!(off, 2);
    assert!(r.is_ok());
}

#[test]
fn joined_punct_of_one_character_ignores_adjacency() {
    let toks = RustTokens::new(vec![leaf(pnct('+', Spacing::Joint))]);
    let (off, r) = joined_punct(&toks, 0, "+");
    assert_eq!(off, 1);
    assert!(r.is_ok());
}

#[test]
fn unit_exponent_grammar_parses_s_caret_minus_two() {
    // Input tokens: `s ^ - 2`; the grammar is "unit name, optional `^`
    // followed by optional `-` and an integer exponent".
    let toks = RustTokens::new(vec![
        leaf(ident("s")),
        leaf(pnct('^', Spacing::Alone)),
        leaf(pnct('-', Spacing::Alone)),
        leaf(lit("2")),
    ]);

    let (off, r) = keyword(&toks, 0, "s");
    assert!(r.is_ok());
    let (off, r) = punct(&toks, off, '^');
    assert!(r.is_ok());
    let (off, neg) = match punct(&toks, off, '-') {
        (off, Ok(())) => (off, true),
        (off, Err(_)) => (off, false),
    };
    assert!(neg);
    let (off, found) = toks.next(off);
    let exp_lit = RustToken::filter_literal(toks.span(off - 1, off), found.unwrap()).unwrap();
    let magnitude: i8 = exp_lit.text.parse().unwrap();
    let exponent = if neg { -magnitude } else { magnitude };
    assert_eq!(exponent, -2);
    assert_eq!(off, 4);
}

#[test]
fn unit_exponent_grammar_rejects_a_non_numeric_exponent() {
    // Input tokens: `s ^ abc`; the exponent must be an integer literal,
    // so the parse fails with an expectation mismatch at `abc`.
    let toks = RustTokens::new(vec![
        leaf(ident("s")),
        leaf(pnct('^', Spacing::Alone)),
        leaf(lit("abc")),
    ]);

    let (off, r) = keyword(&toks, 0, "s");
    assert!(r.is_ok());
    let (off, r) = punct(&toks, off, '^');
    assert!(r.is_ok());
    let (off, neg) = match punct(&toks, off, '-') {
        (off, Ok(())) => (off, true),
        (off, Err(_)) => (off, false),
    };
    assert!(!neg);
    assert_eq!(off, 2);
    let (next, found) = toks.next(off);
    let exp_lit = RustToken::filter_literal(toks.span(off, next), found.unwrap()).unwrap();
    let err = match exp_lit.text.parse::<i8>() {
        Ok(_) => None,
        Err(_) => Some(chumsky_proc::error::RustParseError::expected_input_found(
            toks.span(off, next),
            Vec::new(),
            Some(RustToken::Literal(exp_lit)),
        )),
    };
    let err = err.expect("the exponent `abc` must be rejected");
    assert_eq!(err.found, Some(lit("abc")));
}
