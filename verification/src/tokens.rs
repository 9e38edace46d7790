//! Source spans and error tokens used to attribute diagnostics.

use vstd::prelude::*;
use crate::errors::{ErrorKind, ParsingError};

verus! {

/// A region of source text, used to attribute diagnostics to their origin.
#[derive(Clone, Copy, PartialEq, Eq, Structural, Debug)]
pub struct Span {
    pub start: usize,
    pub end: usize,
}

impl Span {
    /// The empty span, used for synthesized entities with no source location.
    pub fn make_empty() -> (r: Span)
        ensures
            r.start == 0 && r.end == 0,
    {
        Span { start: 0, end: 0 }
    }

    /// Builds a diagnostic of the given kind attached to this span.
    pub fn make_error(&self, kind: ErrorKind, message: String) -> (r: ParsingError)
        ensures
            r.span == *self,
            r.kind == kind,
            r.message == message,
    {
        ParsingError { span: *self, kind, message }
    }
}

/// A token standing for the place in the source where a checking step began;
/// it carries the span that errors raised by that step are attached to.
#[derive(Clone, Copy, PartialEq, Eq, Structural, Debug)]
pub struct CodeErrorToken {
    pub span: Span,
}

impl CodeErrorToken {
    /// A token with no source location, for synthesized code.
    pub fn make_empty() -> (r: CodeErrorToken)
        ensures
            r.span.start == 0 && r.span.end == 0,
    {
        CodeErrorToken { span: Span { start: 0, end: 0 } }
    }

    /// Builds a diagnostic of the given kind attached to this token's span.
    pub fn make_error(&self, kind: ErrorKind, message: String) -> (r: ParsingError)
        ensures
            r.span == self.span,
            r.kind == kind,
            r.message == message,
    {
        ParsingError { span: self.span, kind, message }
    }
}

} // verus!
