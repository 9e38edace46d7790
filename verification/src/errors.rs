//! Structured diagnostics.  Errors are collected, never raised as fatal:
//! one failing declaration must not abort checking of the rest.

use vstd::prelude::*;
use crate::tokens::Span;

verus! {

/// The kinds of diagnostics the resolution core can produce.
#[derive(Clone, Copy, PartialEq, Eq, Structural, Debug)]
pub enum ErrorKind {
    /// A required struct, function, or trait could never be found.
    UnresolvedName,
    /// More than one virtual-dispatch candidate matches an unqualified method name.
    AmbiguousMethod,
    /// An explicitly named method does not exist on the target.
    UnknownMethod,
    /// Implementation search exhausted with no type-checking candidate.
    NoImplementation,
    /// A function with a declared return type has a control path lacking a return.
    IncompleteReturn,
    /// A generic or return-type annotation fails to finalize or bind.
    InvalidBounds,
}

/// A diagnostic: a source span, the kind of failure, and a message.
#[derive(Debug)]
pub struct ParsingError {
    pub span: Span,
    pub kind: ErrorKind,
    pub message: String,
}

impl ParsingError {
    /// Builds a diagnostic from its parts.
    pub fn new(span: Span, kind: ErrorKind, message: String) -> (r: ParsingError)
        ensures
            r.span == span,
            r.kind == kind,
            r.message == message,
    {
        ParsingError { span, kind, message }
    }

    /// A copy equal to this diagnostic.
    pub fn duplicate(&self) -> (r: ParsingError)
        ensures
            r == *self,
    {
        ParsingError { span: self.span, kind: self.kind, message: self.message.clone() }
    }
}

} // verus!
