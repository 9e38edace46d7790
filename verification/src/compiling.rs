//! The interface to the code-generation stage, an external collaborator:
//! a backend takes a fully checked declaration store and produces a runner.

use vstd::prelude::*;
use crate::errors::ParsingError;
use crate::store::Syntax;

verus! {

/// A code-generation backend over a checked program.  Implementors compile
/// the main function and return the main runner over the argument and
/// output types the runner is invoked with, or the diagnostics that
/// prevented compilation.
pub trait Compiler<Args, Output> {
    /// Compiles the main function and returns the main runner.
    fn compile(&self, syntax: &Syntax) -> Result<Output, Vec<ParsingError>>;
}

} // verus!
