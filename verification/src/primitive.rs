//! The primitive token parsers that grammars compose: exact-keyword
//! match, single-punctuation match, and multi-character joined
//! punctuation match.
//!
//! Each primitive is a stateless pure function from a cursor offset to a
//! new offset and a result. On success it consumes exactly the tokens it
//! matched; on failure it returns the offset unchanged, so an engine can
//! backtrack and try another branch from the same place without losing
//! state.

use vstd::prelude::*;
use vstd::string::{StrSliceExecFns, StringExecFns};

use crate::error::RustParseError;
use crate::input::RustTokens;
use crate::span::RustSpan;
use crate::token::{Ident, Punct, RustToken, Spacing};
use crate::utils::str_eq;

verus! {

/// Whether the token at `offset` is an identifier whose name is `name`.
pub open spec fn keyword_matches(toks: Seq<RustToken>, offset: int, name: Seq<char>) -> bool {
    &&& 0 <= offset < toks.len()
    &&& toks[offset] matches RustToken::Ident(id)
    &&& id.name@ == name
}

/// Accept exactly the identifier `name` at `offset`, with no output.
///
/// On success the cursor moves past the one token consumed. On any
/// mismatch — another token kind, another name, or end of input — the
/// cursor comes back unchanged and the error expects an identifier
/// token of that name, reporting the token actually found (`None` at
/// end of input).
pub fn keyword(input: &RustTokens, offset: usize, name: &str) -> (r: (
    usize,
    Result<(), RustParseError>,
))
    ensures
        keyword_matches(input.toks(), offset as int, name@) ==> r == (
            (offset + 1) as usize,
            Ok::<(), RustParseError>(()),
        ),
        !keyword_matches(input.toks(), offset as int, name@) ==> {
            &&& r.0 == offset
            &&& r.1 matches Err(e)
            &&& e.expected@.len() == 1
            &&& (e.expected@[0] matches RustToken::Ident(i) && i.name@ == name@)
            &&& e.found == (if offset < input.toks().len() {
                Some(input.toks()[offset as int])
            } else {
                None::<RustToken>
            })
            &&& input.wf() && offset < input.toks().len() ==> e.span == input.spns()[offset as int]
        },
{
    let (next_off, tok_opt) = input.next(offset);
    match tok_opt {
        Some(tok) => {
            match tok.into_ident() {
                Ok(id) => {
                    if str_eq(id.name.as_str(), name) {
                        (next_off, Ok(()))
                    } else {
                        let e = RustParseError::expected_input_found(
                            input.span(offset, next_off),
                            expected_ident(name),
                            Some(RustToken::Ident(id)),
                        );
                        (offset, Err(e))
                    }
                },
                Err(tok) => {
                    let e = RustParseError::expected_input_found(
                        input.span(offset, next_off),
                        expected_ident(name),
                        Some(tok),
                    );
                    (offset, Err(e))
                },
            }
        },
        None => {
            let e = RustParseError::expected_input_found(
                RustSpan::mixed_site(),
                expected_ident(name),
                None,
            );
            (offset, Err(e))
        },
    }
}

/// The one-element expectation list for `keyword`.
fn expected_ident(name: &str) -> (r: Vec<RustToken>)
    ensures
        r@.len() == 1,
        r@[0] matches RustToken::Ident(i) && i.name@ == name@,
{
    let mut v: Vec<RustToken> = Vec::new();
    v.push(RustToken::Ident(Ident::new(String::from_str(name))));
    v
}

/// Whether the token at `offset` is punctuation with character `c`, with
/// either adjacency flag: a lone `+` and the `+` of `+=` both match.
pub open spec fn punct_matches(toks: Seq<RustToken>, offset: int, c: char) -> bool {
    &&& 0 <= offset < toks.len()
    &&& toks[offset] matches RustToken::Punct(p)
    &&& p.ch == c
}

/// Accept a single punctuation token with character `c`, joined or not.
///
/// The adjacency flag plays no part: the match depends on the character
/// alone. On mismatch the cursor comes back unchanged and the error
/// expects a lone punctuation token with that character.
pub fn punct(input: &RustTokens, offset: usize, c: char) -> (r: (
    usize,
    Result<(), RustParseError>,
))
    ensures
        punct_matches(input.toks(), offset as int, c) ==> r == (
            (offset + 1) as usize,
            Ok::<(), RustParseError>(()),
        ),
        !punct_matches(input.toks(), offset as int, c) ==> {
            &&& r.0 == offset
            &&& r.1 matches Err(e)
            &&& e.expected@ =~= seq![RustToken::Punct((Punct { ch: c, spacing: Spacing::Alone }))]
            &&& e.found == (if offset < input.toks().len() {
                Some(input.toks()[offset as int])
            } else {
                None::<RustToken>
            })
            &&& input.wf() && offset < input.toks().len() ==> e.span == input.spns()[offset as int]
        },
{
    let (next_off, tok_opt) = input.next(offset);
    match tok_opt {
        Some(tok) => {
            match tok.into_punct() {
                Ok(p) => {
                    if p.ch == c {
                        (next_off, Ok(()))
                    } else {
                        let e = RustParseError::expected_input_found(
                            input.span(offset, next_off),
                            expected_punct(c),
                            Some(RustToken::Punct(p)),
                        );
                        (offset, Err(e))
                    }
                },
                Err(tok) => {
                    let e = RustParseError::expected_input_found(
                        input.span(offset, next_off),
                        expected_punct(c),
                        Some(tok),
                    );
                    (offset, Err(e))
                },
            }
        },
        None => {
            let e = RustParseError::expected_input_found(
                RustSpan::mixed_site(),
                expected_punct(c),
                None,
            );
            (offset, Err(e))
        },
    }
}

/// The one-element expectation list for `punct`.
fn expected_punct(c: char) -> (r: Vec<RustToken>)
    ensures
        r@ =~= seq![RustToken::Punct((Punct { ch: c, spacing: Spacing::Alone }))],
{
    let mut v: Vec<RustToken> = Vec::new();
    v.push(RustToken::Punct(Punct::new(c, Spacing::Alone)));
    v
}

/// A single-punctuation match pays no attention to the adjacency flag:
/// a punctuation token with the right character matches whether it
/// stands alone or is joined to its successor, so `punct` accepts both
/// a lone `+` and the `+` of `+=`.
pub proof fn lemma_punct_match_ignores_adjacency(
    toks: Seq<RustToken>,
    offset: int,
    c: char,
    s: Spacing,
)
    requires
        0 <= offset < toks.len(),
        toks[offset] == RustToken::Punct((Punct { ch: c, spacing: s })),
    ensures
        punct_matches(toks, offset, c),
{
}

/// A joined punctuation match of two or more characters demands real
/// adjacency: if the first token stands alone — a space follows it —
/// the pattern cannot match, so `joined_punct` rejects `+ =` where it
/// accepts `+=`.
pub proof fn lemma_joined_punct_needs_adjacency(toks: Seq<RustToken>, offset: int, pat: Seq<char>)
    requires
        pat.len() >= 2,
        0 <= offset < toks.len(),
        toks[offset] matches RustToken::Punct(p) && p.spacing == Spacing::Alone,
    ensures
        !joined_punct_matches(toks, offset, pat),
{
    assert(!joined_step_ok(toks, offset, pat, 0));
}

/// Whether the token at `offset + i` satisfies position `i` of a joined
/// punctuation pattern: punctuation with the right character, and joined
/// to its successor everywhere except at the last position, whose
/// adjacency is unconstrained.
pub open spec fn joined_step_ok(
    toks: Seq<RustToken>,
    offset: int,
    pat: Seq<char>,
    i: int,
) -> bool {
    &&& toks[offset + i] matches RustToken::Punct(p)
    &&& p.ch == pat[i]
    &&& (i + 1 < pat.len() ==> p.spacing == Spacing::Joint)
}

/// Whether the whole joined punctuation pattern matches at `offset`:
/// `"+="` matches `+=` and the start of `+=+`, but not `+ =`.
pub open spec fn joined_punct_matches(toks: Seq<RustToken>, offset: int, pat: Seq<char>) -> bool {
    &&& 0 <= offset
    &&& offset + pat.len() <= toks.len()
    &&& forall|i: int| 0 <= i < pat.len() ==> joined_step_ok(toks, offset, pat, i)
}

/// The first pattern position that fails, scanning from position `i`:
/// either its token is out of range, or it breaks its per-position
/// requirement. Equal to `pat.len()` when everything from `i` on holds.
pub open spec fn joined_first_bad(
    toks: Seq<RustToken>,
    offset: int,
    pat: Seq<char>,
    i: int,
) -> int
    decreases pat.len() - i,
{
    if i >= pat.len() {
        i
    } else if offset + i >= toks.len() || !joined_step_ok(toks, offset, pat, i) {
        i
    } else {
        joined_first_bad(toks, offset, pat, i + 1)
    }
}

/// Accept a fixed multi-character punctuation sequence such as `"+="`:
/// every character but the last must be joined to its successor, and the
/// last is accepted with either adjacency flag.
///
/// On success the cursor moves past exactly the pattern's length in
/// tokens and the matched punctuation tokens come back in order. On
/// failure the cursor comes back unchanged — nothing tentatively
/// consumed is kept — and the error reports the first offending token
/// (`None` when the input ended before the pattern did). An empty
/// pattern is a caller programming error, ruled out up front rather
/// than reported at parse time.
pub fn joined_punct(input: &RustTokens, offset: usize, pattern: &str) -> (r: (
    usize,
    Result<Vec<Punct>, RustParseError>,
))
    requires
        pattern@.len() >= 1,
    ensures
        joined_punct_matches(input.toks(), offset as int, pattern@) ==> {
            &&& r.0 == offset + pattern@.len()
            &&& r.1 matches Ok(ps)
            &&& ps@.len() == pattern@.len()
            &&& forall|i: int|
                0 <= i < pattern@.len() ==> input.toks()[offset + i] == RustToken::Punct(ps@[i])
        },
        !joined_punct_matches(input.toks(), offset as int, pattern@) ==> {
            let bad = joined_first_bad(input.toks(), offset as int, pattern@, 0);
            &&& r.0 == offset
            &&& r.1 matches Err(e)
            &&& e.expected@ =~= Seq::<RustToken>::empty()
            &&& e.found == (if offset + bad < input.toks().len() {
                Some(input.toks()[offset + bad])
            } else {
                None::<RustToken>
            })
            &&& input.wf() && offset + bad < input.toks().len() ==> e.span == input.spns()[offset
                + bad]
        },
{
    let n = pattern.unicode_len();
    let mut result: Vec<Punct> = Vec::new();
    let mut cur = offset;
    let mut i: usize = 0;
    while i < n
        invariant
            n == pattern@.len(),
            0 <= i <= n,
            cur == offset + i,
            i > 0 ==> offset + i <= input.toks().len(),
            result@.len() == i,
            forall|j: int| 0 <= j < i ==> joined_step_ok(input.toks(), offset as int, pattern@, j),
            forall|j: int|
                0 <= j < i ==> input.toks()[offset + j] == RustToken::Punct(result@[j]),
            joined_first_bad(input.toks(), offset as int, pattern@, 0) == joined_first_bad(
                input.toks(),
                offset as int,
                pattern@,
                i as int,
            ),
        decreases n - i,
    {
        let c = pattern.get_char(i);
        let (next_off, tok_opt) = input.next(cur);
        match tok_opt {
            None => {
                let e = RustParseError::expected_input_found(
                    RustSpan::mixed_site(),
                    Vec::new(),
                    None,
                );
                return (offset, Err(e));
            },
            Some(tok) => {
                match tok.into_punct() {
                    Err(tok) => {
                        let e = RustParseError::expected_input_found(
                            input.span(cur, next_off),
                            Vec::new(),
                            Some(tok),
                        );
                        return (offset, Err(e));
                    },
                    Ok(p) => {
                        let ok = if i + 1 < n {
                            p.ch == c && matches!(p.spacing, Spacing::Joint)
                        } else {
                            p.ch == c
                        };
                        if ok {
                            result.push(p);
                            cur = next_off;
                        } else {
                            let e = RustParseError::expected_input_found(
                                input.span(cur, next_off),
                                Vec::new(),
                                Some(RustToken::Punct(p)),
                            );
                            return (offset, Err(e));
                        }
                    },
                }
            },
        }
        i = i + 1;
    }
    (cur, Ok(result))
}

} // verus!
