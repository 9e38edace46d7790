//! The resolution protocol: the single mechanism used wherever a forward or
//! cyclic reference might occur.  A request for a declaration that might not
//! exist yet checks the store on each poll; if found it completes at once;
//! if not, it registers a resumption callback under the requested name and
//! suspends until the callback fires, then re-checks.  Polling after the
//! name is already resolved is harmless, so no wakeup can be missed.

use vstd::prelude::*;
use crate::errors::ParsingError;
use crate::store::Syntax;

verus! {

/// The outcome of one poll of a checking step: finished with a value,
/// finished with a diagnostic, or suspended on a named declaration.
pub enum Outcome<T> {
    /// The step completed.
    Done(T),
    /// The step failed; the diagnostic is recoverable, never fatal.
    Failed(ParsingError),
    /// The step suspended, waiting for the named declaration.
    Waiting(String),
}

/// One poll of a request for a struct declaration: completes when the name
/// is registered; otherwise registers a resumption callback for `task` and
/// reports that the request suspended.
pub fn request_struct(syntax: &mut Syntax, name: &String, task: usize) -> (r: bool)
    ensures
        r == old(syntax).spec_has_struct(name@),
        r ==> *final(syntax) == *old(syntax),
        !r ==> final(syntax).waiters@.len() == old(syntax).waiters@.len() + 1
            && final(syntax).waiters@.last().name@ == name@
            && final(syntax).waiters@.last().task == task
            && final(syntax).waiters@.take(old(syntax).waiters@.len() as int) == old(syntax).waiters@
            && final(syntax).structures == old(syntax).structures
            && final(syntax).functions == old(syntax).functions
            && final(syntax).errors == old(syntax).errors,
{
    match syntax.lookup_struct(name) {
        Option::Some(_) => true,
        Option::None => {
            syntax.register_waiter(name.clone(), task);
            false
        },
    }
}

/// One poll of a request for a function's codeless signature: completes when
/// the signature is available; otherwise registers a resumption callback.
pub fn request_function(syntax: &mut Syntax, name: &String, task: usize) -> (r: bool)
    ensures
        r ==> old(syntax).spec_has_codeless(name@) && *final(syntax) == *old(syntax),
        !r ==> crate::store::function_index(old(syntax).functions@, name@) == -1 || old(
            syntax,
        ).functions@[crate::store::function_index(old(syntax).functions@, name@)].codeless
            is None,
        !r ==> final(syntax).waiters@.len() == old(syntax).waiters@.len() + 1
            && final(syntax).waiters@.last().name@ == name@
            && final(syntax).waiters@.last().task == task
            && final(syntax).waiters@.take(old(syntax).waiters@.len() as int) == old(syntax).waiters@
            && final(syntax).structures == old(syntax).structures
            && final(syntax).functions == old(syntax).functions
            && final(syntax).errors == old(syntax).errors,
{
    let available = match syntax.lookup_function(name) {
        Option::Some(entry) => match &entry.codeless {
            Option::Some(_) => true,
            Option::None => false,
        },
        Option::None => false,
    };
    if available {
        true
    } else {
        syntax.register_waiter(name.clone(), task);
        false
    }
}

} // verus!
