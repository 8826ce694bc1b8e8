use chumsky_proc::input::RustTokens;
use chumsky_proc::span::RustSpan;
use chumsky_proc::token::{Ident, Punct, RustToken, Spacing};
use chumsky_proc::utils::RustTree;

fn sp() -> RustSpan {
    RustSpan::call_site()
}

fn toks3() -> RustTokens {
    RustTokens::new(vec![
        RustTree::Leaf(RustToken::Ident(Ident::new(String::from("a"))), sp()),
        RustTree::Leaf(RustToken::Punct(Punct::new('+', Spacing::Alone)), sp()),
        RustTree::Leaf(RustToken::Ident(Ident::new(String::from("b"))), sp()),
    ])
}

#[test]
fn start_is_the_first_index() {
    let toks = toks3();
    assert_eq!(toks.start(), 0);
    assert_eq!(toks.len(), 3);
}

#[test]
fn next_walks_the_sequence_in_order() {
    let toks = toks3();
    let (off, t) = toks.next(0);
    assert_eq!(off, 1);
    assert_eq!(t.unwrap(), RustToken::Ident(Ident::new(String::from("a"))));
    let (off, t) = toks.next(off);
    assert_eq!(off, 2);
    assert_eq!(
        t.unwrap(),
        RustToken::Punct(Punct::new('+', Spacing::Alone))
    );
}

#[test]
fn next_at_end_of_input_leaves_the_offset_unchanged() {
    let toks = toks3();
    let (off, t) = toks.next(3);
    assert_eq!(off, 3);
    assert!(t.is_none());
    // Replaying from the same offset is a no-op, so an engine can retry
    // another branch without progress.
    let (off, t) = toks.next(off);
    assert_eq!(off, 3);
    assert!(t.is_none());
}

#[test]
fn span_always_returns_a_location() {
    let toks = toks3();
    // A populated range folds the token locations.
    let _ = toks.span(0, 3);
    // An empty range falls back to a synthetic default location rather
    // than failing.
    let _ = toks.span(1, 1);
    // So does a range past the end of the sequence.
    let _ = toks.span(0, 17);
    let _ = toks.span(2, 1);
}

#[test]
fn try_span_reports_when_a_range_selects_nothing() {
    let toks = toks3();
    assert!(toks.try_span(1, 1).is_none());
    assert!(toks.try_span(2, 1).is_none());
    assert!(toks.try_span(0, 4).is_none());
}

#[test]
fn slices_expose_contiguous_runs() {
    let toks = toks3();
    let mid = toks.slice(1, 2);
    assert_eq!(mid.len(), 1);
    assert_eq!(mid[0], RustToken::Punct(Punct::new('+', Spacing::Alone)));
    let rest = toks.slice_from(1);
    assert_eq!(rest.len(), 2);
    assert_eq!(rest[1], RustToken::Ident(Ident::new(String::from("b"))));
    let all = toks.slice_from(0);
    assert_eq!(all.len(), 3);
    let none = toks.slice(2, 2);
    assert!(none.is_empty());
}

#[test]
fn spans_can_be_wrapped_and_unwrapped() {
    let native = proc_macro2::Span::call_site();
    let wrapped = RustSpan::from_native(native);
    let _ = wrapped.to_native();
    let _ = RustSpan::mixed_site();
    // Joining is at the host's discretion; either outcome must be
    // representable.
    match wrapped.join(RustSpan::call_site()) {
        Some(joined) => {
            let _ = joined.to_native();
        }
        None => {}
    }
}
