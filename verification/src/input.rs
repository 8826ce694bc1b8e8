//! The flat token sequence and its cursor-based input surface.
//!
//! A `RustTokens` value is built once per parse attempt from a host
//! token tree and never changes afterwards. A combinator engine drives a
//! plain index forward through it: `next` hands out the token at an
//! offset, `span` folds the locations of a half-open range into one
//! reportable location, and the slice accessors expose contiguous runs
//! without copying. Because the sequence is immutable, replaying any of
//! these from an earlier offset is always safe, which is what makes
//! engine-side backtracking sound.

use vstd::prelude::*;

use crate::span::RustSpan;
use crate::token::RustToken;
use crate::utils::{
    flat_of_trees, flat_spans, flat_tokens, into_vec, lemma_flatten_properly_nested,
    properly_nested, trees_wf, RustTree,
};

verus! {

/// The flat, index-addressable sequence of (token, location) pairs that
/// flattening produces, frozen after construction.
pub struct RustTokens {
    tokens: Vec<RustToken>,
    spans: Vec<RustSpan>,
}

impl RustTokens {
    /// The tokens of the sequence, in order.
    pub closed spec fn toks(&self) -> Seq<RustToken> {
        self.tokens@
    }

    /// The locations of the sequence, one per token.
    pub closed spec fn spns(&self) -> Seq<RustSpan> {
        self.spans@
    }

    /// There is exactly one location per token.
    pub open spec fn wf(&self) -> bool {
        self.toks().len() == self.spns().len()
    }

    /// Flatten a host token tree into a new frozen sequence. When the
    /// tree is well formed — no group marker stands as a leaf — the
    /// sequence's markers are properly nested by construction.
    pub fn new(trees: Vec<RustTree>) -> (r: RustTokens)
        ensures
            r.wf(),
            r.toks() == flat_tokens(flat_of_trees(trees@)),
            r.spns() == flat_spans(flat_of_trees(trees@)),
            trees_wf(trees@) ==> properly_nested(r.toks()),
    {
        proof {
            if trees_wf(trees@) {
                lemma_flatten_properly_nested(trees@);
            }
        }
        let ghost flat_view = flat_of_trees(trees@);
        let flat = into_vec(trees);
        let mut tokens: Vec<RustToken> = Vec::new();
        let mut spans: Vec<RustSpan> = Vec::new();
        let mut i: usize = 0;
        while i < flat.len()
            invariant
                i <= flat.len(),
                flat@ == flat_view,
                tokens@ == flat_view.take(i as int).map_values(|p: (RustToken, RustSpan)| p.0),
                spans@ == flat_view.take(i as int).map_values(|p: (RustToken, RustSpan)| p.1),
            decreases flat.len() - i,
        {
            let pair = &flat[i];
            tokens.push(pair.0.clone());
            spans.push(pair.1);
            i = i + 1;
            proof {
                assert(flat_view.take(i as int) =~= flat_view.take(i - 1).push(flat_view[i - 1]));
                assert(tokens@ =~= flat_view.take(i as int).map_values(
                    |p: (RustToken, RustSpan)| p.0,
                ));
                assert(spans@ =~= flat_view.take(i as int).map_values(
                    |p: (RustToken, RustSpan)| p.1,
                ));
            }
        }
        proof {
            assert(flat_view.take(flat_view.len() as int) =~= flat_view);
        }
        RustTokens { tokens, spans }
    }

    /// The number of tokens in the sequence.
    pub fn len(&self) -> (r: usize)
        ensures
            r == self.toks().len(),
    {
        self.tokens.len()
    }

    /// The cursor a parse starts from: the first index.
    pub fn start(&self) -> (r: usize)
        ensures
            r == 0,
    {
        0
    }

    /// The token at `offset` together with the next cursor. At end of
    /// input the cursor comes back unchanged beside `None`, so an engine
    /// can retry another branch without progress.
    pub fn next(&self, offset: usize) -> (r: (usize, Option<RustToken>))
        ensures
            offset < self.toks().len() ==> r.0 == offset + 1 && r.1 == Some(
                self.toks()[offset as int],
            ),
            offset >= self.toks().len() ==> r.0 == offset && r.1 is None,
    {
        if offset < self.tokens.len() {
            (offset + 1, Some(self.tokens[offset].clone()))
        } else {
            (offset, None)
        }
    }

    /// Fold the locations of the half-open range `start..end` into one,
    /// by repeated joining; `None` when the range selects nothing, and
    /// after a join that the host could not represent and that no later
    /// location replaced.
    pub fn try_span(&self, start: usize, end: usize) -> (r: Option<RustSpan>)
        ensures
            start >= end || end > self.spns().len() ==> r is None,
            r is Some ==> start < end <= self.spns().len(),
            start < end <= self.spns().len() && end == start + 1 ==> r == Some(
                self.spns()[start as int],
            ),
    {
        if start >= end || end > self.spans.len() {
            return None;
        }
        let mut acc: Option<RustSpan> = None;
        let mut i: usize = start;
        while i < end
            invariant
                start < end <= self.spns().len(),
                start <= i <= end,
                i == start ==> acc is None,
                i == start + 1 ==> acc == Some(self.spns()[start as int]),
            decreases end - i,
        {
            let sp = self.spans[i];
            acc = match acc {
                Some(prev) => prev.join(sp),
                None => Some(sp),
            };
            i = i + 1;
        }
        acc
    }

    /// The one location for the half-open range `start..end`: the folded
    /// range location where the host can represent it, and the synthetic
    /// call-site location otherwise — a lookup that always succeeds,
    /// degrading precision rather than failing. A single-token range
    /// yields that token's own location.
    pub fn span(&self, start: usize, end: usize) -> (r: RustSpan)
        ensures
            start < end <= self.spns().len() && end == start + 1 ==> r == self.spns()[
                start as int
            ],
    {
        match self.try_span(start, end) {
            Some(sp) => sp,
            None => RustSpan::call_site(),
        }
    }

    /// The tokens of the half-open range `start..end`, without copying.
    pub fn slice(&self, start: usize, end: usize) -> (r: &[RustToken])
        requires
            start <= end <= self.toks().len(),
        ensures
            r@ == self.toks().subrange(start as int, end as int),
    {
        &self.tokens[start..end]
    }

    /// The tokens from `from` to the end of the sequence, without
    /// copying.
    pub fn slice_from(&self, from: usize) -> (r: &[RustToken])
        requires
            from <= self.toks().len(),
        ensures
            r@ == self.toks().skip(from as int),
    {
        let r = &self.tokens[from..self.tokens.len()];
        proof {
            assert(self.toks().subrange(from as int, self.toks().len() as int) =~= self.toks()
                .skip(from as int));
        }
        r
    }
}

} // verus!
