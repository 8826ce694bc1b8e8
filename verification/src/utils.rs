//! The flattening adapter and small token utilities.
//!
//! A host token tree is a sequence of atoms and nested groups. Flattening
//! turns it into one flat sequence of (token, location) pairs: each atom
//! becomes one pair, and each group becomes a start marker at its opening
//! delimiter's location, the flattened contents, and an end marker at its
//! closing delimiter's location. The transform is total: every tree is
//! representable, and the markers are matched by construction.

use vstd::prelude::*;
use vstd::string::StrSliceExecFns;

use crate::span::RustSpan;
use crate::token::{Delim, Literal, Punct, RustToken};

verus! {

/// One node of a host token tree, carried as plain values: an atomic
/// token with its location, or a delimited group with its delimiter
/// kind, the locations of its opening and closing delimiters, and its
/// children.
pub enum RustTree {
    /// An atomic token (a literal, identifier, or punctuation) with its
    /// location.
    Leaf(RustToken, RustSpan),
    /// A delimited group: delimiter kind, opening location, closing
    /// location, children.
    Group(Delim, RustSpan, RustSpan, Vec<RustTree>),
}

/// The flat form of one tree: an atom is itself; a group is a start
/// marker, the flattened children, and an end marker of the same kind.
pub open spec fn flat_of_tree(t: RustTree) -> Seq<(RustToken, RustSpan)>
    decreases t,
{
    match t {
        RustTree::Leaf(tok, sp) => seq![(tok, sp)],
        RustTree::Group(d, open_sp, close_sp, children) => seq![
            (RustToken::StartDelim(d), open_sp),
        ] + flat_of_trees(children@) + seq![(RustToken::EndDelim(d), close_sp)],
    }
}

/// The flat form of a sequence of trees, in order.
pub open spec fn flat_of_trees(ts: Seq<RustTree>) -> Seq<(RustToken, RustSpan)>
    decreases ts,
{
    if ts.len() == 0 {
        Seq::empty()
    } else {
        flat_of_tree(ts[0]) + flat_of_trees(ts.skip(1))
    }
}

/// One pending item of the explicit work stack that replaces native
/// recursion: either a whole tree still to flatten, or the end marker of
/// a group whose contents are already scheduled.
enum FlatWork {
    Tree(RustTree),
    Close(Delim, RustSpan),
}

/// What one work item still contributes to the output.
spec fn flat_of_work(w: FlatWork) -> Seq<(RustToken, RustSpan)> {
    match w {
        FlatWork::Tree(t) => flat_of_tree(t),
        FlatWork::Close(d, sp) => seq![(RustToken::EndDelim(d), sp)],
    }
}

/// What a whole work stack still contributes, in pop order (top first).
spec fn flat_of_stack(ws: Seq<FlatWork>) -> Seq<(RustToken, RustSpan)>
    decreases ws.len(),
{
    if ws.len() == 0 {
        Seq::empty()
    } else {
        flat_of_work(ws.last()) + flat_of_stack(ws.drop_last())
    }
}

/// A size measure for trees: one for an atom, and two — a start and an
/// end marker — plus the children's sizes for a group. This is the
/// length the flat form will have, and it bounds the work-stack loop
/// and the reconstruction depth.
pub open spec fn tree_size(t: RustTree) -> nat
    decreases t,
{
    match t {
        RustTree::Leaf(_, _) => 1,
        RustTree::Group(_, _, _, children) => 2 + trees_size(children@),
    }
}

/// The summed size of a sequence of trees.
pub open spec fn trees_size(ts: Seq<RustTree>) -> nat
    decreases ts,
{
    if ts.len() == 0 {
        0
    } else {
        tree_size(ts[0]) + trees_size(ts.skip(1))
    }
}

/// The size of one work item.
spec fn work_size(w: FlatWork) -> nat {
    match w {
        FlatWork::Tree(t) => tree_size(t),
        FlatWork::Close(_, _) => 1,
    }
}

/// The summed size of a work stack.
spec fn stack_size(ws: Seq<FlatWork>) -> nat
    decreases ws.len(),
{
    if ws.len() == 0 {
        0
    } else {
        work_size(ws.last()) + stack_size(ws.drop_last())
    }
}

/// Appending one tree at the back extends the flat form at the back.
proof fn lemma_flat_of_trees_push(ts: Seq<RustTree>, t: RustTree)
    ensures
        flat_of_trees(ts.push(t)) == flat_of_trees(ts) + flat_of_tree(t),
    decreases ts.len(),
{
    if ts.len() == 0 {
        assert(ts.push(t)[0] == t);
        assert(ts.push(t).skip(1) =~= Seq::<RustTree>::empty());
        assert(flat_of_trees(ts.push(t).skip(1)) == Seq::<(RustToken, RustSpan)>::empty());
        assert(flat_of_trees(ts.push(t))
            == flat_of_tree(t) + flat_of_trees(ts.push(t).skip(1)));
        assert(flat_of_trees(ts.push(t)) =~= flat_of_trees(ts) + flat_of_tree(t));
    } else {
        assert(ts.push(t)[0] == ts[0]);
        assert(ts.push(t).skip(1) =~= ts.skip(1).push(t));
        lemma_flat_of_trees_push(ts.skip(1), t);
        assert(flat_of_trees(ts.push(t))
            == flat_of_tree(ts[0]) + (flat_of_trees(ts.skip(1)) + flat_of_tree(t)));
        assert(flat_of_trees(ts.push(t)) =~= flat_of_trees(ts) + flat_of_tree(t));
    }
}

/// The same, for the size measure.
proof fn lemma_trees_size_push(ts: Seq<RustTree>, t: RustTree)
    ensures
        trees_size(ts.push(t)) == trees_size(ts) + tree_size(t),
    decreases ts.len(),
{
    if ts.len() == 0 {
        assert(ts.push(t)[0] == t);
        assert(ts.push(t).skip(1) =~= Seq::<RustTree>::empty());
        assert(trees_size(ts.push(t).skip(1)) == 0);
    } else {
        assert(ts.push(t)[0] == ts[0]);
        assert(ts.push(t).skip(1) =~= ts.skip(1).push(t));
        lemma_trees_size_push(ts.skip(1), t);
    }
}

/// Convert a sequence of host token trees into the flat sequence of
/// (token, location) pairs, with an explicit work stack in place of
/// native recursion so that pathological nesting depth cannot exhaust
/// the call stack.
pub fn into_vec(trees: Vec<RustTree>) -> (r: Vec<(RustToken, RustSpan)>)
    ensures
        r@ == flat_of_trees(trees@),
{
    let ghost whole = trees@;
    let mut trees = trees;
    let mut out: Vec<(RustToken, RustSpan)> = Vec::new();
    let mut stack: Vec<FlatWork> = Vec::new();

    // Move the roots onto the work stack back to front, so the first
    // root is popped first.
    while trees.len() > 0
        invariant
            flat_of_trees(trees@) + flat_of_stack(stack@) == flat_of_trees(whole),
            trees_size(trees@) + stack_size(stack@) == trees_size(whole),
        decreases trees.len(),
    {
        let ghost prev_trees = trees@;
        let ghost prev_stack = stack@;
        let t = trees.pop().unwrap();
        stack.push(FlatWork::Tree(t));
        proof {
            assert(prev_trees =~= trees@.push(t));
            lemma_flat_of_trees_push(trees@, t);
            lemma_trees_size_push(trees@, t);
            assert(stack@.drop_last() =~= prev_stack);
            assert(flat_of_trees(trees@) + flat_of_stack(stack@) =~= flat_of_trees(whole));
        }
    }

    while stack.len() > 0
        invariant
            out@ + flat_of_stack(stack@) == flat_of_trees(whole),
        decreases stack_size(stack@),
    {
        let ghost prev_stack = stack@;
        let w = stack.pop().unwrap();
        proof {
            assert(prev_stack.drop_last() =~= stack@);
            assert(stack_size(prev_stack) == work_size(w) + stack_size(stack@));
            assert(flat_of_stack(prev_stack) == flat_of_work(w) + flat_of_stack(stack@));
        }
        match w {
            FlatWork::Tree(t) => {
                match t {
                    RustTree::Leaf(tok, sp) => {
                        out.push((tok, sp));
                        proof {
                            assert(out@ + flat_of_stack(stack@) =~= flat_of_trees(whole));
                        }
                    },
                    RustTree::Group(d, open_sp, close_sp, children) => {
                        out.push((RustToken::StartDelim(d), open_sp));
                        stack.push(FlatWork::Close(d, close_sp));
                        let ghost bound = stack_size(prev_stack) - 1;
                        proof {
                            assert(stack@.drop_last() =~= prev_stack.drop_last());
                            assert(stack_size(stack@) == 1 + stack_size(prev_stack.drop_last()));
                            assert(trees_size(children@) + stack_size(stack@) == bound);
                            assert(out@ + flat_of_trees(children@) + flat_of_stack(stack@)
                                =~= flat_of_trees(whole));
                        }
                        let mut children = children;
                        while children.len() > 0
                            invariant
                                out@ + flat_of_trees(children@) + flat_of_stack(stack@)
                                    == flat_of_trees(whole),
                                trees_size(children@) + stack_size(stack@) == bound,
                                bound < stack_size(prev_stack),
                            decreases children.len(),
                        {
                            let ghost prev_children = children@;
                            let ghost mid_stack = stack@;
                            let c = children.pop().unwrap();
                            stack.push(FlatWork::Tree(c));
                            proof {
                                assert(prev_children =~= children@.push(c));
                                lemma_flat_of_trees_push(children@, c);
                                lemma_trees_size_push(children@, c);
                                assert(stack@.drop_last() =~= mid_stack);
                                assert(out@ + flat_of_trees(children@) + flat_of_stack(stack@)
                                    =~= flat_of_trees(whole));
                            }
                        }
                        proof {
                            assert(flat_of_trees(children@) =~= Seq::<(RustToken, RustSpan)>::empty());
                            assert(out@ + flat_of_stack(stack@) =~= flat_of_trees(whole));
                            assert(stack_size(stack@) == bound);
                        }
                    },
                }
            },
            FlatWork::Close(d, sp) => {
                out.push((RustToken::EndDelim(d), sp));
                proof {
                    assert(out@ + flat_of_stack(stack@) =~= flat_of_trees(whole));
                }
            },
        }
    }
    proof {
        assert(flat_of_stack(stack@) =~= Seq::<(RustToken, RustSpan)>::empty());
        assert(out@ =~= flat_of_trees(whole));
    }
    out
}

/// The token half of a flat sequence, in order.
pub open spec fn flat_tokens(s: Seq<(RustToken, RustSpan)>) -> Seq<RustToken> {
    s.map_values(|p: (RustToken, RustSpan)| p.0)
}

/// The location half of a flat sequence, in order.
pub open spec fn flat_spans(s: Seq<(RustToken, RustSpan)>) -> Seq<RustSpan> {
    s.map_values(|p: (RustToken, RustSpan)| p.1)
}

/// An atomic token: a literal, identifier, or punctuation — not a group
/// marker.
pub open spec fn is_atom(t: RustToken) -> bool {
    !(t is StartDelim) && !(t is EndDelim)
}

/// A well-formed tree: every leaf is an atomic token. Group markers
/// never occur as leaves; flattening alone introduces them.
pub open spec fn tree_wf(t: RustTree) -> bool
    decreases t,
{
    match t {
        RustTree::Leaf(tok, _) => is_atom(tok),
        RustTree::Group(_, _, _, children) => trees_wf(children@),
    }
}

/// Well-formedness of every tree of a sequence.
pub open spec fn trees_wf(ts: Seq<RustTree>) -> bool
    decreases ts,
{
    forall|i: int| 0 <= i < ts.len() ==> tree_wf(ts[i])
}

/// One step of a delimiter scan: group markers must match like a
/// well-formed parenthesization, with `pending` the stack of currently
/// open delimiter kinds.
pub open spec fn delim_scan(toks: Seq<RustToken>, pending: Seq<Delim>) -> bool
    decreases toks.len(),
{
    if toks.len() == 0 {
        pending.len() == 0
    } else {
        match toks[0] {
            RustToken::StartDelim(d) => delim_scan(toks.skip(1), pending.push(d)),
            RustToken::EndDelim(d) => pending.len() > 0 && pending.last() == d && delim_scan(
                toks.skip(1),
                pending.drop_last(),
            ),
            _ => delim_scan(toks.skip(1), pending),
        }
    }
}

/// Proper nesting of group markers: every end marker closes the most
/// recently opened group of the same kind, and nothing stays open.
pub open spec fn properly_nested(toks: Seq<RustToken>) -> bool {
    delim_scan(toks, Seq::empty())
}

/// How many start markers of kind `d` a token sequence holds.
pub open spec fn count_start_delims(toks: Seq<RustToken>, d: Delim) -> nat
    decreases toks.len(),
{
    if toks.len() == 0 {
        0
    } else {
        (if toks[0] == RustToken::StartDelim(d) {
            1nat
        } else {
            0nat
        }) + count_start_delims(toks.skip(1), d)
    }
}

/// How many end markers of kind `d` a token sequence holds.
pub open spec fn count_end_delims(toks: Seq<RustToken>, d: Delim) -> nat
    decreases toks.len(),
{
    if toks.len() == 0 {
        0
    } else {
        (if toks[0] == RustToken::EndDelim(d) {
            1nat
        } else {
            0nat
        }) + count_end_delims(toks.skip(1), d)
    }
}

/// The atomic tokens of a token sequence, in order, markers dropped.
pub open spec fn atom_tokens(toks: Seq<RustToken>) -> Seq<RustToken>
    decreases toks.len(),
{
    if toks.len() == 0 {
        Seq::empty()
    } else {
        (if is_atom(toks[0]) {
            seq![toks[0]]
        } else {
            Seq::empty()
        }) + atom_tokens(toks.skip(1))
    }
}

/// The atomic tokens of one tree, in depth-first order.
pub open spec fn atoms_of_tree(t: RustTree) -> Seq<RustToken>
    decreases t,
{
    match t {
        RustTree::Leaf(tok, _) => seq![tok],
        RustTree::Group(_, _, _, children) => atoms_of_trees(children@),
    }
}

/// The atomic tokens of a sequence of trees, in order.
pub open spec fn atoms_of_trees(ts: Seq<RustTree>) -> Seq<RustToken>
    decreases ts,
{
    if ts.len() == 0 {
        Seq::empty()
    } else {
        atoms_of_tree(ts[0]) + atoms_of_trees(ts.skip(1))
    }
}

/// Token projection distributes over concatenation.
proof fn lemma_flat_tokens_app(a: Seq<(RustToken, RustSpan)>, b: Seq<(RustToken, RustSpan)>)
    ensures
        flat_tokens(a + b) == flat_tokens(a) + flat_tokens(b),
{
    assert(flat_tokens(a + b) =~= flat_tokens(a) + flat_tokens(b));
}

/// Atom selection distributes over concatenation.
proof fn lemma_atom_tokens_app(a: Seq<RustToken>, b: Seq<RustToken>)
    ensures
        atom_tokens(a + b) == atom_tokens(a) + atom_tokens(b),
    decreases a.len(),
{
    if a.len() == 0 {
        assert(a + b =~= b);
        assert(atom_tokens(a) + atom_tokens(b) =~= atom_tokens(b));
    } else {
        assert((a + b)[0] == a[0]);
        assert((a + b).skip(1) =~= a.skip(1) + b);
        lemma_atom_tokens_app(a.skip(1), b);
        assert(atom_tokens(a + b) =~= atom_tokens(a) + atom_tokens(b));
    }
}

/// Marker counting distributes over concatenation, for both kinds of
/// marker.
proof fn lemma_count_delims_app(a: Seq<RustToken>, b: Seq<RustToken>, d: Delim)
    ensures
        count_start_delims(a + b, d) == count_start_delims(a, d) + count_start_delims(b, d),
        count_end_delims(a + b, d) == count_end_delims(a, d) + count_end_delims(b, d),
    decreases a.len(),
{
    if a.len() == 0 {
        assert(a + b =~= b);
    } else {
        assert((a + b)[0] == a[0]);
        assert((a + b).skip(1) =~= a.skip(1) + b);
        lemma_count_delims_app(a.skip(1), b, d);
    }
}

/// The trees after the first are well formed when the whole sequence is.
proof fn lemma_trees_wf_skip(ts: Seq<RustTree>)
    requires
        trees_wf(ts),
        ts.len() > 0,
    ensures
        tree_wf(ts[0]),
        trees_wf(ts.skip(1)),
{
    assert forall|i: int| 0 <= i < ts.skip(1).len() implies tree_wf(ts.skip(1)[i]) by {
        assert(ts.skip(1)[i] == ts[i + 1]);
    }
}

/// Scanning the flat form of one well-formed tree leaves the pending
/// stack exactly as it was: the tree's own markers open and close each
/// other and nothing else.
proof fn lemma_tree_scan(t: RustTree, rest: Seq<RustToken>, pending: Seq<Delim>)
    requires
        tree_wf(t),
    ensures
        delim_scan(flat_tokens(flat_of_tree(t)) + rest, pending) == delim_scan(rest, pending),
    decreases t,
{
    match t {
        RustTree::Leaf(tok, sp) => {
            let s = flat_tokens(flat_of_tree(t)) + rest;
            assert(s[0] == tok);
            assert(s.skip(1) =~= rest);
        },
        RustTree::Group(d, open_sp, close_sp, children) => {
            let inner = flat_tokens(flat_of_trees(children@));
            let after_inner = seq![RustToken::EndDelim(d)] + rest;
            let s = flat_tokens(flat_of_tree(t)) + rest;
            assert(s =~= seq![RustToken::StartDelim(d)] + (inner + after_inner));
            assert(s[0] == RustToken::StartDelim(d));
            assert(s.skip(1) =~= inner + after_inner);
            lemma_trees_scan(children@, after_inner, pending.push(d));
            assert(after_inner[0] == RustToken::EndDelim(d));
            assert(after_inner.skip(1) =~= rest);
            assert(pending.push(d).last() == d);
            assert(pending.push(d).drop_last() =~= pending);
        },
    }
}

/// The same, for a whole sequence of well-formed trees.
proof fn lemma_trees_scan(ts: Seq<RustTree>, rest: Seq<RustToken>, pending: Seq<Delim>)
    requires
        trees_wf(ts),
    ensures
        delim_scan(flat_tokens(flat_of_trees(ts)) + rest, pending) == delim_scan(rest, pending),
    decreases ts,
{
    if ts.len() == 0 {
        assert(flat_tokens(flat_of_trees(ts)) + rest =~= rest);
    } else {
        lemma_trees_wf_skip(ts);
        let head = flat_tokens(flat_of_tree(ts[0]));
        let tail = flat_tokens(flat_of_trees(ts.skip(1)));
        lemma_flat_tokens_app(flat_of_tree(ts[0]), flat_of_trees(ts.skip(1)));
        assert(flat_tokens(flat_of_trees(ts)) + rest =~= head + (tail + rest));
        lemma_tree_scan(ts[0], tail + rest, pending);
        lemma_trees_scan(ts.skip(1), rest, pending);
    }
}

/// The flat form of one well-formed tree carries exactly the tree's
/// atoms, in depth-first order.
proof fn lemma_tree_atoms(t: RustTree)
    requires
        tree_wf(t),
    ensures
        atom_tokens(flat_tokens(flat_of_tree(t))) == atoms_of_tree(t),
    decreases t,
{
    reveal_with_fuel(atom_tokens, 3);
    match t {
        RustTree::Leaf(tok, sp) => {
            let s = flat_tokens(flat_of_tree(t));
            assert(s =~= seq![tok]);
            assert(s.skip(1) =~= Seq::<RustToken>::empty());
            assert(atom_tokens(s) =~= seq![tok]);
        },
        RustTree::Group(d, open_sp, close_sp, children) => {
            let start = seq![RustToken::StartDelim(d)];
            let inner = flat_tokens(flat_of_trees(children@));
            let end = seq![RustToken::EndDelim(d)];
            assert(flat_tokens(flat_of_tree(t)) =~= start + inner + end);
            lemma_atom_tokens_app(start + inner, end);
            lemma_atom_tokens_app(start, inner);
            assert(start.skip(1) =~= Seq::<RustToken>::empty());
            assert(atom_tokens(start) =~= Seq::<RustToken>::empty());
            assert(end.skip(1) =~= Seq::<RustToken>::empty());
            assert(atom_tokens(end) =~= Seq::<RustToken>::empty());
            lemma_trees_atoms(children@);
            assert(atom_tokens(flat_tokens(flat_of_tree(t))) =~= atoms_of_tree(t));
        },
    }
}

/// The same, for a whole sequence of well-formed trees.
proof fn lemma_trees_atoms(ts: Seq<RustTree>)
    requires
        trees_wf(ts),
    ensures
        atom_tokens(flat_tokens(flat_of_trees(ts))) == atoms_of_trees(ts),
    decreases ts,
{
    if ts.len() == 0 {
        assert(flat_tokens(flat_of_trees(ts)) =~= Seq::<RustToken>::empty());
        assert(atoms_of_trees(ts) =~= Seq::<RustToken>::empty());
    } else {
        lemma_trees_wf_skip(ts);
        lemma_flat_tokens_app(flat_of_tree(ts[0]), flat_of_trees(ts.skip(1)));
        lemma_atom_tokens_app(
            flat_tokens(flat_of_tree(ts[0])),
            flat_tokens(flat_of_trees(ts.skip(1))),
        );
        lemma_tree_atoms(ts[0]);
        lemma_trees_atoms(ts.skip(1));
        assert(atom_tokens(flat_tokens(flat_of_trees(ts))) =~= atoms_of_trees(ts));
    }
}

/// The flat form of one well-formed tree opens and closes each
/// delimiter kind equally often.
proof fn lemma_tree_counts(t: RustTree, d: Delim)
    requires
        tree_wf(t),
    ensures
        count_start_delims(flat_tokens(flat_of_tree(t)), d) == count_end_delims(
            flat_tokens(flat_of_tree(t)),
            d,
        ),
    decreases t,
{
    reveal_with_fuel(count_start_delims, 3);
    reveal_with_fuel(count_end_delims, 3);
    match t {
        RustTree::Leaf(tok, sp) => {
            let s = flat_tokens(flat_of_tree(t));
            assert(s =~= seq![tok]);
            assert(s.skip(1) =~= Seq::<RustToken>::empty());
        },
        RustTree::Group(dd, open_sp, close_sp, children) => {
            let start = seq![RustToken::StartDelim(dd)];
            let inner = flat_tokens(flat_of_trees(children@));
            let end = seq![RustToken::EndDelim(dd)];
            assert(flat_tokens(flat_of_tree(t)) =~= start + inner + end);
            lemma_count_delims_app(start + inner, end, d);
            lemma_count_delims_app(start, inner, d);
            assert(start.skip(1) =~= Seq::<RustToken>::empty());
            assert(end.skip(1) =~= Seq::<RustToken>::empty());
            lemma_trees_counts(children@, d);
        },
    }
}

/// The same, for a whole sequence of well-formed trees.
proof fn lemma_trees_counts(ts: Seq<RustTree>, d: Delim)
    requires
        trees_wf(ts),
    ensures
        count_start_delims(flat_tokens(flat_of_trees(ts)), d) == count_end_delims(
            flat_tokens(flat_of_trees(ts)),
            d,
        ),
    decreases ts,
{
    if ts.len() == 0 {
        assert(flat_tokens(flat_of_trees(ts)) =~= Seq::<RustToken>::empty());
    } else {
        lemma_trees_wf_skip(ts);
        lemma_flat_tokens_app(flat_of_tree(ts[0]), flat_of_trees(ts.skip(1)));
        lemma_count_delims_app(
            flat_tokens(flat_of_tree(ts[0])),
            flat_tokens(flat_of_trees(ts.skip(1))),
            d,
        );
        lemma_tree_counts(ts[0], d);
        lemma_trees_counts(ts.skip(1), d);
    }
}

/// Flattening a well-formed token tree produces properly nested group
/// markers: every end marker closes the most recently opened group of
/// the same delimiter kind, and no group stays open.
pub proof fn lemma_flatten_properly_nested(ts: Seq<RustTree>)
    requires
        trees_wf(ts),
    ensures
        properly_nested(flat_tokens(flat_of_trees(ts))),
{
    lemma_trees_scan(ts, Seq::empty(), Seq::empty());
    assert(flat_tokens(flat_of_trees(ts)) + Seq::<RustToken>::empty() =~= flat_tokens(
        flat_of_trees(ts),
    ));
}

/// Flattening a well-formed token tree opens and closes every delimiter
/// kind equally often.
pub proof fn lemma_flatten_marker_counts(ts: Seq<RustTree>, d: Delim)
    requires
        trees_wf(ts),
    ensures
        count_start_delims(flat_tokens(flat_of_trees(ts)), d) == count_end_delims(
            flat_tokens(flat_of_trees(ts)),
            d,
        ),
{
    lemma_trees_counts(ts, d);
}

/// Flattening a well-formed token tree keeps exactly its atomic tokens,
/// in the tree's depth-first order: dropping the group markers from the
/// flat sequence gives the tree's atoms back unchanged.
pub proof fn lemma_flatten_preserves_atoms(ts: Seq<RustTree>)
    requires
        trees_wf(ts),
    ensures
        atom_tokens(flat_tokens(flat_of_trees(ts))) == atoms_of_trees(ts),
{
    lemma_trees_atoms(ts);
}

/// A tree value as reconstruction rebuilds it: the same kinds, tokens,
/// delimiters and locations as a `RustTree`, with a mathematical
/// sequence for the children of a group. Flattening a tree determines
/// this model of it completely.
pub enum TreeModel {
    /// An atomic token with its location.
    Leaf(RustToken, RustSpan),
    /// A group: delimiter kind, opening location, closing location,
    /// children.
    Group(Delim, RustSpan, RustSpan, Seq<TreeModel>),
}

/// The model of one tree.
pub open spec fn tree_model(t: RustTree) -> TreeModel
    decreases t,
{
    match t {
        RustTree::Leaf(tok, sp) => TreeModel::Leaf(tok, sp),
        RustTree::Group(d, open_sp, close_sp, children) => TreeModel::Group(
            d,
            open_sp,
            close_sp,
            trees_model(children@),
        ),
    }
}

/// The models of a sequence of trees, in order.
pub open spec fn trees_model(ts: Seq<RustTree>) -> Seq<TreeModel>
    decreases ts,
{
    if ts.len() == 0 {
        Seq::empty()
    } else {
        seq![tree_model(ts[0])] + trees_model(ts.skip(1))
    }
}

/// Reconstruction, step one: read one tree from the front of a flat
/// sequence by matching markers. A start marker opens a group whose
/// contents run to the matching end marker; an end marker cannot begin
/// a tree; anything else is one atom. `fuel` bounds the recursion and
/// only grows the domain: enough fuel never turns a success back into
/// a failure.
pub open spec fn parse_tree(s: Seq<(RustToken, RustSpan)>, fuel: nat) -> Option<
    (TreeModel, Seq<(RustToken, RustSpan)>),
>
    decreases fuel, s.len(), 0int,
{
    if s.len() == 0 {
        None
    } else {
        match s[0].0 {
            RustToken::StartDelim(d) => match parse_group(s.skip(1), d, fuel) {
                Some((children, close_sp, rest)) => Some(
                    (TreeModel::Group(d, s[0].1, close_sp, children), rest),
                ),
                None => None,
            },
            RustToken::EndDelim(_) => None,
            _ => Some((TreeModel::Leaf(s[0].0, s[0].1), s.skip(1))),
        }
    }
}

/// Reconstruction, step two: read the children of a group opened with
/// delimiter kind `d`, up to and including its matching end marker.
/// Yields the children, the end marker's location, and the suffix after
/// the group.
pub open spec fn parse_group(s: Seq<(RustToken, RustSpan)>, d: Delim, fuel: nat) -> Option<
    (Seq<TreeModel>, RustSpan, Seq<(RustToken, RustSpan)>),
>
    decreases fuel, s.len(), 1int,
{
    if s.len() == 0 {
        None
    } else if s[0].0 == RustToken::EndDelim(d) {
        Some((Seq::empty(), s[0].1, s.skip(1)))
    } else if fuel == 0 {
        None
    } else {
        match parse_tree(s, fuel) {
            None => None,
            Some((t, s2)) => match parse_group(s2, d, (fuel - 1) as nat) {
                None => None,
                Some((children, close_sp, rest)) => Some(
                    (seq![t] + children, close_sp, rest),
                ),
            },
        }
    }
}

/// Reconstruction, whole input: read trees until the flat sequence is
/// exhausted.
pub open spec fn parse_trees(s: Seq<(RustToken, RustSpan)>, fuel: nat) -> Option<Seq<TreeModel>>
    decreases fuel, s.len(), 2int,
{
    if s.len() == 0 {
        Some(Seq::empty())
    } else if fuel == 0 {
        None
    } else {
        match parse_tree(s, fuel) {
            None => None,
            Some((t, s2)) => match parse_trees(s2, (fuel - 1) as nat) {
                None => None,
                Some(rest) => Some(seq![t] + rest),
            },
        }
    }
}

/// Every tree weighs at least one.
proof fn lemma_tree_size_at_least_one(t: RustTree)
    ensures
        tree_size(t) >= 1,
{
}

/// The flat form of a well-formed tree is never empty and never begins
/// with an end marker.
proof fn lemma_flat_of_tree_head(t: RustTree)
    requires
        tree_wf(t),
    ensures
        flat_of_tree(t).len() >= 1,
        !(flat_of_tree(t)[0].0 is EndDelim),
{
    match t {
        RustTree::Leaf(tok, sp) => {
            assert(flat_of_tree(t)[0] == (tok, sp));
        },
        RustTree::Group(d, open_sp, close_sp, children) => {
            assert(flat_of_tree(t)[0] == (RustToken::StartDelim(d), open_sp));
        },
    }
}

/// Reading one tree back from its own flat form, followed by anything,
/// yields exactly that tree's model and leaves the rest untouched.
proof fn lemma_parse_tree_inverts(t: RustTree, rest: Seq<(RustToken, RustSpan)>, fuel: nat)
    requires
        tree_wf(t),
        fuel >= tree_size(t),
    ensures
        parse_tree(flat_of_tree(t) + rest, fuel) == Some((tree_model(t), rest)),
    decreases t,
{
    let s = flat_of_tree(t) + rest;
    match t {
        RustTree::Leaf(tok, sp) => {
            assert(s[0] == (tok, sp));
            assert(s.skip(1) =~= rest);
        },
        RustTree::Group(d, open_sp, close_sp, children) => {
            let end_rest = seq![(RustToken::EndDelim(d), close_sp)] + rest;
            assert(s[0] == (RustToken::StartDelim(d), open_sp));
            assert(s.skip(1) =~= flat_of_trees(children@) + end_rest);
            lemma_parse_group_inverts(children@, d, close_sp, rest, fuel);
        },
    }
}

/// Reading a group's children back from their flat form, followed by
/// the group's end marker and anything further, yields exactly the
/// children's models, the marker's location, and the suffix.
proof fn lemma_parse_group_inverts(
    ts: Seq<RustTree>,
    d: Delim,
    close_sp: RustSpan,
    rest: Seq<(RustToken, RustSpan)>,
    fuel: nat,
)
    requires
        trees_wf(ts),
        fuel >= trees_size(ts) + 1,
    ensures
        parse_group(
            flat_of_trees(ts) + (seq![(RustToken::EndDelim(d), close_sp)] + rest),
            d,
            fuel,
        ) == Some((trees_model(ts), close_sp, rest)),
    decreases ts,
{
    let end_rest = seq![(RustToken::EndDelim(d), close_sp)] + rest;
    let s = flat_of_trees(ts) + end_rest;
    if ts.len() == 0 {
        assert(s =~= end_rest);
        assert(s[0] == (RustToken::EndDelim(d), close_sp));
        assert(s.skip(1) =~= rest);
        assert(trees_model(ts) =~= Seq::<TreeModel>::empty());
    } else {
        lemma_trees_wf_skip(ts);
        let s2 = flat_of_trees(ts.skip(1)) + end_rest;
        assert(s =~= flat_of_tree(ts[0]) + s2);
        lemma_flat_of_tree_head(ts[0]);
        assert(s[0] == flat_of_tree(ts[0])[0]);
        assert(!(s[0].0 is EndDelim));
        lemma_parse_tree_inverts(ts[0], s2, fuel);
        lemma_tree_size_at_least_one(ts[0]);
        lemma_parse_group_inverts(ts.skip(1), d, close_sp, rest, (fuel - 1) as nat);
        assert(seq![tree_model(ts[0])] + trees_model(ts.skip(1)) == trees_model(ts));
    }
}

/// Reading a whole flat form back yields exactly the models of the
/// trees it came from.
proof fn lemma_parse_trees_inverts(ts: Seq<RustTree>, fuel: nat)
    requires
        trees_wf(ts),
        fuel >= trees_size(ts) + 1,
    ensures
        parse_trees(flat_of_trees(ts), fuel) == Some(trees_model(ts)),
    decreases ts,
{
    let s = flat_of_trees(ts);
    if ts.len() == 0 {
        assert(s =~= Seq::<(RustToken, RustSpan)>::empty());
        assert(trees_model(ts) =~= Seq::<TreeModel>::empty());
    } else {
        lemma_trees_wf_skip(ts);
        lemma_flat_of_tree_head(ts[0]);
        assert(s.len() >= 1);
        lemma_parse_tree_inverts(ts[0], flat_of_trees(ts.skip(1)), fuel);
        lemma_tree_size_at_least_one(ts[0]);
        lemma_parse_trees_inverts(ts.skip(1), (fuel - 1) as nat);
    }
}

/// Flattening loses nothing: reconstructing the tree from the flat
/// sequence by matching markers gives the whole tree back — every
/// atom, delimiter kind and location, in the original order and
/// nesting.
pub proof fn lemma_flatten_round_trip(ts: Seq<RustTree>)
    requires
        trees_wf(ts),
    ensures
        parse_trees(flat_of_trees(ts), trees_size(ts) + 1) == Some(trees_model(ts)),
{
    lemma_parse_trees_inverts(ts, trees_size(ts) + 1);
}

/// Two well-formed trees with the same flat form are the same tree, up
/// to the model that flattening can see.
pub proof fn lemma_flatten_determines_trees(a: Seq<RustTree>, b: Seq<RustTree>)
    requires
        trees_wf(a),
        trees_wf(b),
        flat_of_trees(a) == flat_of_trees(b),
    ensures
        trees_model(a) == trees_model(b),
{
    let fuel = trees_size(a) + trees_size(b) + 1;
    lemma_parse_trees_inverts(a, fuel);
    lemma_parse_trees_inverts(b, fuel);
}

/// Compare two string slices character by character: equal exactly when
/// their character sequences are equal.
pub fn str_eq(a: &str, b: &str) -> (r: bool)
    ensures
        r == (a@ == b@),
{
    let alen = a.unicode_len();
    let blen = b.unicode_len();
    if alen != blen {
        return false;
    }
    let mut i: usize = 0;
    while i < alen
        invariant
            alen == a@.len(),
            alen == b@.len(),
            0 <= i <= alen,
            forall|j: int| 0 <= j < i ==> a@[j] == b@[j],
        decreases alen - i,
    {
        if a.get_char(i) != b.get_char(i) {
            return false;
        }
        i = i + 1;
    }
    proof {
        assert(a@ =~= b@);
    }
    true
}

/// Compare two literals: equal exactly when their canonical rendered
/// texts are equal.
pub fn lit_eq(left: &Literal, right: &Literal) -> (r: bool)
    ensures
        r == crate::token::literal_eq_spec(*left, *right),
{
    left.text == right.text
}

/// Compare two punctuation tokens: equal exactly when both the character
/// and the adjacency flag agree. Rendering alone would lose the flag.
pub fn punct_eq(left: &Punct, right: &Punct) -> (r: bool)
    ensures
        r == crate::token::punct_eq_spec(*left, *right),
{
    left.ch == right.ch && left.spacing == right.spacing
}

} // verus!
