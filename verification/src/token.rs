//! The token model: a closed set of token kinds with semantic equality
//! and narrowing conversions that never lose data on the failure path.
//!
//! Each kind carries the plain values that grammars read: a literal its
//! canonical rendered text, an identifier its name, a punctuation token
//! its character and an adjacency flag, and a group marker its delimiter
//! kind. Equality compares those values and nothing else, so two tokens
//! built independently from the same source text compare equal.

use vstd::prelude::*;

use crate::error::RustParseError;
use crate::span::RustSpan;

verus! {

/// The delimiter kind of a group: parentheses, braces, brackets, or the
/// invisible delimiter the host uses for precedence-preserving grouping.
#[derive(Clone, Copy, Debug, PartialEq, Eq, Hash, Structural)]
pub enum Delim {
    Parenthesis,
    Brace,
    Bracket,
    Invisible,
}

/// Whether a punctuation character is immediately followed by another
/// punctuation character with no space in between. `Joint` is what lets
/// a grammar tell the `+` of `+=` apart from a lone `+`.
#[derive(Clone, Copy, Debug, PartialEq, Eq, Hash, Structural)]
pub enum Spacing {
    Alone,
    Joint,
}

/// A literal token, carried as its canonical rendered text.
#[derive(Debug, Hash)]
pub struct Literal {
    pub text: String,
}

/// An identifier token, carried as its name.
#[derive(Debug, Hash)]
pub struct Ident {
    pub name: String,
}

/// A punctuation token: one character plus its adjacency flag.
#[derive(Clone, Copy, Debug, PartialEq, Eq, Hash, Structural)]
pub struct Punct {
    pub ch: char,
    pub spacing: Spacing,
}

impl Literal {
    /// Build a literal from its rendered text.
    pub fn new(text: String) -> (r: Literal)
        ensures
            r.text@ == text@,
    {
        Literal { text }
    }
}

impl Ident {
    /// Build an identifier from its name.
    pub fn new(name: String) -> (r: Ident)
        ensures
            r.name@ == name@,
    {
        Ident { name }
    }
}

impl Punct {
    /// Build a punctuation token from a character and its adjacency flag.
    pub fn new(ch: char, spacing: Spacing) -> (r: Punct)
        ensures
            r.ch == ch && r.spacing == spacing,
    {
        Punct { ch, spacing }
    }
}

impl Clone for Literal {
    fn clone(&self) -> (r: Self)
        ensures
            r == *self,
    {
        Literal { text: self.text.clone() }
    }
}

impl Clone for Ident {
    fn clone(&self) -> (r: Self)
        ensures
            r == *self,
    {
        Ident { name: self.name.clone() }
    }
}

/// What literal equality means: the canonical rendered texts agree.
pub open spec fn literal_eq_spec(a: Literal, b: Literal) -> bool {
    a.text@ == b.text@
}

/// What identifier equality means: the names agree.
pub open spec fn ident_eq_spec(a: Ident, b: Ident) -> bool {
    a.name@ == b.name@
}

/// What punctuation equality means: character and adjacency flag both
/// agree. Rendering alone would lose the adjacency flag.
pub open spec fn punct_eq_spec(a: Punct, b: Punct) -> bool {
    a.ch == b.ch && a.spacing == b.spacing
}

impl PartialEq for Literal {
    fn eq(&self, other: &Self) -> (r: bool) {
        self.text == other.text
    }
}

impl vstd::std_specs::cmp::PartialEqSpecImpl for Literal {
    open spec fn obeys_eq_spec() -> bool {
        true
    }

    open spec fn eq_spec(&self, other: &Self) -> bool {
        literal_eq_spec(*self, *other)
    }
}

impl Eq for Literal {}

impl PartialEq for Ident {
    fn eq(&self, other: &Self) -> (r: bool) {
        self.name == other.name
    }
}

impl vstd::std_specs::cmp::PartialEqSpecImpl for Ident {
    open spec fn obeys_eq_spec() -> bool {
        true
    }

    open spec fn eq_spec(&self, other: &Self) -> bool {
        ident_eq_spec(*self, *other)
    }
}

impl Eq for Ident {}

/// A token of the flat sequence: the flattened form of a host token tree,
/// with each group converted into a matching start and end delimiter.
#[derive(Debug, Hash)]
pub enum RustToken {
    /// A literal, such as `1` or `"foo"`.
    Literal(Literal),
    /// An identifier.
    Ident(Ident),
    /// Punctuation, such as `+` or `#`.
    Punct(Punct),
    /// The start of a group. Every start delimiter produced by flattening
    /// has a matching end delimiter of the same kind.
    StartDelim(Delim),
    /// The end of a group. Every end delimiter produced by flattening has
    /// a matching start delimiter of the same kind.
    EndDelim(Delim),
}

/// What token equality means: tokens of different kinds are unequal, and
/// tokens of one kind compare by that kind's own equality.
pub open spec fn token_eq_spec(a: RustToken, b: RustToken) -> bool {
    match (a, b) {
        (RustToken::Literal(x), RustToken::Literal(y)) => literal_eq_spec(x, y),
        (RustToken::Ident(x), RustToken::Ident(y)) => ident_eq_spec(x, y),
        (RustToken::Punct(x), RustToken::Punct(y)) => punct_eq_spec(x, y),
        (RustToken::StartDelim(x), RustToken::StartDelim(y)) => x == y,
        (RustToken::EndDelim(x), RustToken::EndDelim(y)) => x == y,
        _ => false,
    }
}

impl Clone for RustToken {
    fn clone(&self) -> (r: Self)
        ensures
            r == *self,
    {
        match self {
            RustToken::Literal(l) => RustToken::Literal(l.clone()),
            RustToken::Ident(i) => RustToken::Ident(i.clone()),
            RustToken::Punct(p) => RustToken::Punct(*p),
            RustToken::StartDelim(d) => RustToken::StartDelim(*d),
            RustToken::EndDelim(d) => RustToken::EndDelim(*d),
        }
    }
}

impl PartialEq for RustToken {
    fn eq(&self, other: &Self) -> (r: bool) {
        match (self, other) {
            (RustToken::Literal(x), RustToken::Literal(y)) => x == y,
            (RustToken::Ident(x), RustToken::Ident(y)) => x == y,
            (RustToken::Punct(x), RustToken::Punct(y)) => x == y,
            (RustToken::StartDelim(x), RustToken::StartDelim(y)) => x == y,
            (RustToken::EndDelim(x), RustToken::EndDelim(y)) => x == y,
            _ => false,
        }
    }
}

impl vstd::std_specs::cmp::PartialEqSpecImpl for RustToken {
    open spec fn obeys_eq_spec() -> bool {
        true
    }

    open spec fn eq_spec(&self, other: &Self) -> bool {
        token_eq_spec(*self, *other)
    }
}

impl Eq for RustToken {}

/// Token equality is an equivalence: every token equals itself, the
/// order of comparison never matters, and equality chains compose — so
/// the tokens fall into well-defined equality partitions.
pub proof fn lemma_token_eq_equivalence(a: RustToken, b: RustToken, c: RustToken)
    ensures
        token_eq_spec(a, a),
        token_eq_spec(a, b) == token_eq_spec(b, a),
        token_eq_spec(a, b) && token_eq_spec(b, c) ==> token_eq_spec(a, c),
{
}

/// Two literal tokens are equal exactly when their canonical rendered
/// texts are equal: literals built independently from the same text
/// compare equal.
pub proof fn lemma_literal_tokens_eq_by_text(a: Literal, b: Literal)
    ensures
        token_eq_spec(RustToken::Literal(a), RustToken::Literal(b)) <==> a.text@ == b.text@,
{
}

/// Two punctuation tokens with the same character but different
/// adjacency flags are unequal: rendering alone would conflate them.
pub proof fn lemma_punct_adjacency_distinguishes(a: Punct, b: Punct)
    requires
        a.spacing != b.spacing,
    ensures
        !token_eq_spec(RustToken::Punct(a), RustToken::Punct(b)),
{
}

/// Equal tokens are of the same kind: cross-variant comparisons are
/// always unequal.
pub proof fn lemma_token_eq_same_kind(a: RustToken, b: RustToken)
    requires
        token_eq_spec(a, b),
    ensures
        a is Literal <==> b is Literal,
        a is Ident <==> b is Ident,
        a is Punct <==> b is Punct,
        a is StartDelim <==> b is StartDelim,
        a is EndDelim <==> b is EndDelim,
{
}

impl RustToken {
    /// Returns whether this token is a literal.
    pub fn is_literal(&self) -> (r: bool)
        ensures
            r == (self is Literal),
    {
        matches!(self, RustToken::Literal(_))
    }

    /// Returns whether this token is an identifier.
    pub fn is_ident(&self) -> (r: bool)
        ensures
            r == (self is Ident),
    {
        matches!(self, RustToken::Ident(_))
    }

    /// Returns whether this token is punctuation.
    pub fn is_punct(&self) -> (r: bool)
        ensures
            r == (self is Punct),
    {
        matches!(self, RustToken::Punct(_))
    }

    /// Returns whether this token is a starting delimiter.
    pub fn is_start_delim(&self) -> (r: bool)
        ensures
            r == (self is StartDelim),
    {
        matches!(self, RustToken::StartDelim(_))
    }

    /// Returns whether this token is an ending delimiter.
    pub fn is_end_delim(&self) -> (r: bool)
        ensures
            r == (self is EndDelim),
    {
        matches!(self, RustToken::EndDelim(_))
    }

    /// Returns whether this token is a delimiter, start or end.
    pub fn is_delim(&self) -> (r: bool)
        ensures
            r == (self is StartDelim || self is EndDelim),
    {
        self.is_start_delim() || self.is_end_delim()
    }

    /// Get this token as a literal, or return `None`.
    pub fn as_literal(&self) -> (r: Option<&Literal>)
        ensures
            self is Literal ==> r == Some(&self->Literal_0),
            !(self is Literal) ==> r is None,
    {
        if let RustToken::Literal(inner) = self {
            Some(inner)
        } else {
            None
        }
    }

    /// Get this token as an identifier, or return `None`.
    pub fn as_ident(&self) -> (r: Option<&Ident>)
        ensures
            self is Ident ==> r == Some(&self->Ident_0),
            !(self is Ident) ==> r is None,
    {
        if let RustToken::Ident(inner) = self {
            Some(inner)
        } else {
            None
        }
    }

    /// Get this token as punctuation, or return `None`.
    pub fn as_punct(&self) -> (r: Option<&Punct>)
        ensures
            self is Punct ==> r == Some(&self->Punct_0),
            !(self is Punct) ==> r is None,
    {
        if let RustToken::Punct(inner) = self {
            Some(inner)
        } else {
            None
        }
    }

    /// Get this token as a starting delimiter, or return `None`.
    pub fn as_start_delim(&self) -> (r: Option<&Delim>)
        ensures
            self is StartDelim ==> r == Some(&self->StartDelim_0),
            !(self is StartDelim) ==> r is None,
    {
        if let RustToken::StartDelim(inner) = self {
            Some(inner)
        } else {
            None
        }
    }

    /// Get this token as an ending delimiter, or return `None`.
    pub fn as_end_delim(&self) -> (r: Option<&Delim>)
        ensures
            self is EndDelim ==> r == Some(&self->EndDelim_0),
            !(self is EndDelim) ==> r is None,
    {
        if let RustToken::EndDelim(inner) = self {
            Some(inner)
        } else {
            None
        }
    }

    /// Get this token as a delimiter, start or end, or return `None`.
    pub fn as_delim(&self) -> (r: Option<&Delim>)
        ensures
            self is StartDelim ==> r == Some(&self->StartDelim_0),
            self is EndDelim ==> r == Some(&self->EndDelim_0),
            !(self is StartDelim || self is EndDelim) ==> r is None,
    {
        match self {
            RustToken::StartDelim(inner) => Some(inner),
            RustToken::EndDelim(inner) => Some(inner),
            _ => None,
        }
    }

    /// Convert this token into a literal, or return `Err(self)` with the
    /// token unchanged, so a failed narrowing loses nothing.
    pub fn into_literal(self) -> (r: Result<Literal, RustToken>)
        ensures
            self is Literal ==> r == Ok::<Literal, RustToken>(self->Literal_0),
            !(self is Literal) ==> r == Err::<Literal, RustToken>(self),
    {
        if let RustToken::Literal(inner) = self {
            Ok(inner)
        } else {
            Err(self)
        }
    }

    /// Convert this token into an identifier, or return `Err(self)` with
    /// the token unchanged.
    pub fn into_ident(self) -> (r: Result<Ident, RustToken>)
        ensures
            self is Ident ==> r == Ok::<Ident, RustToken>(self->Ident_0),
            !(self is Ident) ==> r == Err::<Ident, RustToken>(self),
    {
        if let RustToken::Ident(inner) = self {
            Ok(inner)
        } else {
            Err(self)
        }
    }

    /// Convert this token into punctuation, or return `Err(self)` with
    /// the token unchanged.
    pub fn into_punct(self) -> (r: Result<Punct, RustToken>)
        ensures
            self is Punct ==> r == Ok::<Punct, RustToken>(self->Punct_0),
            !(self is Punct) ==> r == Err::<Punct, RustToken>(self),
    {
        if let RustToken::Punct(inner) = self {
            Ok(inner)
        } else {
            Err(self)
        }
    }

    /// Convert this token into a starting delimiter, or return
    /// `Err(self)` with the token unchanged.
    pub fn into_start_delim(self) -> (r: Result<Delim, RustToken>)
        ensures
            self is StartDelim ==> r == Ok::<Delim, RustToken>(self->StartDelim_0),
            !(self is StartDelim) ==> r == Err::<Delim, RustToken>(self),
    {
        if let RustToken::StartDelim(inner) = self {
            Ok(inner)
        } else {
            Err(self)
        }
    }

    /// Convert this token into an ending delimiter, or return `Err(self)`
    /// with the token unchanged.
    pub fn into_end_delim(self) -> (r: Result<Delim, RustToken>)
        ensures
            self is EndDelim ==> r == Ok::<Delim, RustToken>(self->EndDelim_0),
            !(self is EndDelim) ==> r == Err::<Delim, RustToken>(self),
    {
        if let RustToken::EndDelim(inner) = self {
            Ok(inner)
        } else {
            Err(self)
        }
    }

    /// Convert this token into a delimiter, start or end, or return
    /// `Err(self)` with the token unchanged.
    pub fn into_delim(self) -> (r: Result<Delim, RustToken>)
        ensures
            self is StartDelim ==> r == Ok::<Delim, RustToken>(self->StartDelim_0),
            self is EndDelim ==> r == Ok::<Delim, RustToken>(self->EndDelim_0),
            !(self is StartDelim || self is EndDelim) ==> r == Err::<Delim, RustToken>(self),
    {
        match self {
            RustToken::StartDelim(inner) => Ok(inner),
            RustToken::EndDelim(inner) => Ok(inner),
            other => Err(other),
        }
    }

    /// A utility for per-token narrowing to a literal: on mismatch it
    /// reports an expectation error at the token's location, with the
    /// token itself preserved as what was found.
    pub fn filter_literal(span: RustSpan, this: RustToken) -> (r: Result<Literal, RustParseError>)
        ensures
            this is Literal ==> r == Ok::<Literal, RustParseError>(this->Literal_0),
            !(this is Literal) ==> (r matches Err(e)
                && e.span == span
                && e.expected@ =~= Seq::<RustToken>::empty()
                && e.found == Some(this)),
    {
        match this.into_literal() {
            Ok(lit) => Ok(lit),
            Err(this) => Err(RustParseError::expected_input_found(span, Vec::new(), Some(this))),
        }
    }

    /// A utility for per-token narrowing to an identifier; the mismatch
    /// contract matches `filter_literal`.
    pub fn filter_ident(span: RustSpan, this: RustToken) -> (r: Result<Ident, RustParseError>)
        ensures
            this is Ident ==> r == Ok::<Ident, RustParseError>(this->Ident_0),
            !(this is Ident) ==> (r matches Err(e)
                && e.span == span
                && e.expected@ =~= Seq::<RustToken>::empty()
                && e.found == Some(this)),
    {
        match this.into_ident() {
            Ok(ident) => Ok(ident),
            Err(this) => Err(RustParseError::expected_input_found(span, Vec::new(), Some(this))),
        }
    }

    /// A utility for per-token narrowing to punctuation; the mismatch
    /// contract matches `filter_literal`.
    pub fn filter_punct(span: RustSpan, this: RustToken) -> (r: Result<Punct, RustParseError>)
        ensures
            this is Punct ==> r == Ok::<Punct, RustParseError>(this->Punct_0),
            !(this is Punct) ==> (r matches Err(e)
                && e.span == span
                && e.expected@ =~= Seq::<RustToken>::empty()
                && e.found == Some(this)),
    {
        match this.into_punct() {
            Ok(punct) => Ok(punct),
            Err(this) => Err(RustParseError::expected_input_found(span, Vec::new(), Some(this))),
        }
    }
}

} // verus!
