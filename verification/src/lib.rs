//! Semantic-resolution and type-checking core of a compiler front end for a
//! statically typed language with generics, traits, and structs.
//!
//! Raw declarations arrive in arbitrary order and may reference each other
//! forward, backward, or cyclically.  The library turns them into finalized,
//! type-correct representations: a declaration store keyed by name, a
//! re-pollable resolution protocol for not-yet-available declarations, a type
//! finalizer, function and struct verifiers, an implementation resolver that
//! classifies trait calls as static, virtual, or generic-virtual, and a
//! cooperative task driver that guarantees every declaration is eventually
//! produced, possibly poisoned, so no waiter starves.

pub mod ast;
pub mod check_code;
pub mod check_function;
pub mod check_struct;
pub mod check_impl_call;
pub mod compiling;
pub mod coordinator;
pub mod driver;
pub mod errors;
pub mod finalize;
pub mod function;
pub mod generics;
pub mod modifiers;
pub mod names;
pub mod output;
pub mod resolve;
pub mod store;
pub mod structure;
pub mod types;
pub mod tokens;

use vstd::prelude::*;

verus! {

} // verus!
