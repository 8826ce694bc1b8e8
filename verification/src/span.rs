//! A wrapper for the host's source-location handle.
//!
//! Locations are opaque values: the host alone can widen one to cover
//! another. The wrapper keeps that capability behind a small verified
//! surface so the rest of the library can carry locations around and
//! merge them without looking inside.

use vstd::prelude::*;

verus! {

/// The host's source-location handle, declared so that it can stand in
/// fields and signatures. Its inside stays invisible to the verifier.
#[verifier::external_type_specification]
#[verifier::external_body]
pub struct ExSpan(proc_macro2::Span);

/// Relies on `proc_macro2::Span::call_site`: yields the location of the
/// macro invocation; nothing further is assumed of the handle.
pub assume_specification[ proc_macro2::Span::call_site ]() -> proc_macro2::Span;

/// Relies on `proc_macro2::Span::mixed_site`: yields the invocation
/// location with definition-site resolution; nothing further is assumed.
pub assume_specification[ proc_macro2::Span::mixed_site ]() -> proc_macro2::Span;

/// Relies on `proc_macro2::Span::join`: returns a location covering both
/// inputs, or `None` when the host cannot represent the union (different
/// files, or a host without the capability). Nothing is assumed of which
/// of the two outcomes occurs.
pub assume_specification[ proc_macro2::Span::join ](
    s: &proc_macro2::Span,
    other: proc_macro2::Span,
) -> Option<proc_macro2::Span>;

/// A wrapper around a host source location.
#[derive(Copy, Clone, Debug)]
pub struct RustSpan(proc_macro2::Span);

impl View for RustSpan {
    type V = proc_macro2::Span;

    closed spec fn view(&self) -> proc_macro2::Span {
        self.0
    }
}

impl RustSpan {
    /// Wrap a native host location.
    pub fn from_native(span: proc_macro2::Span) -> (r: RustSpan)
        ensures
            r@ == span,
    {
        RustSpan(span)
    }

    /// Hand the native host location back, for reporting.
    pub fn to_native(self) -> (r: proc_macro2::Span)
        ensures
            r == self@,
    {
        self.0
    }

    /// The host's call-site location: the fallback when no better
    /// location can be produced.
    pub fn call_site() -> RustSpan {
        RustSpan(proc_macro2::Span::call_site())
    }

    /// The host's mixed-site location.
    pub fn mixed_site() -> RustSpan {
        RustSpan(proc_macro2::Span::mixed_site())
    }

    /// Join this location to another. The host decides whether the union
    /// is representable; `None` means it is not, and the caller falls
    /// back to a synthetic default.
    pub fn join(self, other: RustSpan) -> Option<RustSpan> {
        match self.0.join(other.0) {
            Some(joined) => Some(RustSpan(joined)),
            None => None,
        }
    }
}

} // verus!
