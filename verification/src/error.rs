//! The structured parse error: a location, the set of expected token
//! descriptions, and the token actually found (or none, at end of
//! input). Rendering it into a diagnostic is the caller's concern.

use vstd::prelude::*;

use crate::span::RustSpan;
use crate::token::RustToken;

verus! {

/// An expectation-mismatch error. `found` is `None` exactly when the
/// mismatch happened at end of input.
#[derive(Debug)]
pub struct RustParseError {
    /// Where the mismatch happened; always present, falling back to a
    /// synthetic default location rather than being omitted.
    pub span: RustSpan,
    /// The tokens that would have been accepted; possibly empty when the
    /// failing primitive does not enumerate them.
    pub expected: Vec<RustToken>,
    /// The token actually found, or `None` at end of input.
    pub found: Option<RustToken>,
}

impl RustParseError {
    /// Build an error from a location, the expected tokens, and what was
    /// found instead.
    pub fn expected_input_found(
        span: RustSpan,
        expected: Vec<RustToken>,
        found: Option<RustToken>,
    ) -> (r: RustParseError)
        ensures
            r.span == span,
            r.expected@ == expected@,
            r.found == found,
    {
        RustParseError { span, expected, found }
    }
}

} // verus!
