//! The implementation resolver and call dispatcher.  Given a pending call
//! through a trait-typed receiver, it decides whether the call is a fixed
//! slot virtual dispatch, a generic virtual dispatch deferred to runtime
//! type information, or a static call to a registered trait implementation;
//! when nothing can serve the call once the liveness signal has fired, the
//! no-implementation error is attached to the call's span.
//!
//! When a generic trait method is called with a concrete receiver, dispatch
//! resolves at once to the concrete target method, and a background job is
//! spawned to produce the specialized (degenericized) header for later
//! pipeline stages; the emitted call never waits for the specialization.

use vstd::prelude::*;
use crate::check_code::{SimpleVariableManager, get_return, spec_callee_return, var_index, verify_effect};
use crate::coordinator::{HandleWrapper, Job, specialized_name};
use crate::errors::ErrorKind;
use crate::finalize::{finalize_type, spec_finalize_type, subs_view, substitute_type, type_resolvable};
use crate::function::{Effects, EffectType, FinalizedEffectType, FinalizedEffects, ImplCallSite};
use crate::types::Types;
use crate::names::{spec_suffix_matches, suffix_matches};
use crate::resolve::Outcome;
use crate::store::Syntax;
use crate::structure::Struct;
use crate::tokens::Span;
use crate::types::FinalizedTypes;

verus! {

/// The call site a pending implementation-call effect carries.
pub open spec fn site_of(e: Effects) -> ImplCallSite
    recommends
        e.types is ImplementationCall,
{
    match e.types {
        EffectType::ImplementationCall(site) => *site,
        _ => arbitrary(),
    }
}

/// Whether the search type's concrete runtime representation statically
/// matches the trait being searched: its base struct is the trait itself or
/// its registered declaration lists the trait among those it implements.
pub open spec fn spec_of_type(search: crate::types::TypeV, trait_name: Seq<char>, store: Syntax) -> bool {
    search.base_name() == trait_name || ({
        let si = crate::store::struct_index(store.structures@, search.base_name());
        si >= 0 && (exists|j: int|
            0 <= j < store.structures@[si].shape.traits@.len() && (#[trigger] store.structures@[
                si].shape.traits@[j])@ == trait_name)
    })
}

/// Whether no method of a trait's method list serves the requested name,
/// exactly or by unqualified suffix.
pub open spec fn spec_no_serving_slot(fns: Seq<String>, m: Seq<char>) -> bool {
    forall|s: int|
        0 <= s < fns.len() ==> (#[trigger] fns[s])@ != m && !spec_suffix_matches(fns[s]@, m)
}

/// The number of methods in a list whose unqualified suffix is `m`.
pub open spec fn count_suffix_matches(fns: Seq<String>, m: Seq<char>) -> int
    decreases fns.len(),
{
    if fns.len() == 0 {
        0
    } else {
        (if spec_suffix_matches(fns.last()@, m) {
            1int
        } else {
            0
        }) + count_suffix_matches(fns.drop_last(), m)
    }
}

/// Whether some registered trait declaration named `trait_name` has, at
/// position `slot` of its method list, a method serving the request: the
/// requested name itself, or one whose unqualified suffix matches it.
pub open spec fn spec_slot_ok(
    store: Syntax,
    trait_name: Seq<char>,
    slot: int,
    site_method: Seq<char>,
) -> bool {
    exists|i: int|
        0 <= i < store.structures@.len() && store.structures@[i].shape.name@ == trait_name && 0
            <= slot < store.structures@[i].shape.functions@.len() && ((#[trigger] store.structures@[
        i].shape.functions@[slot])@ == site_method || spec_suffix_matches(
            store.structures@[i].shape.functions@[slot]@,
            site_method,
        ))
}

/// Whether some registered implementation of `trait_name` provides the
/// method `m`, and `m` serves the request: the requested name is empty, or
/// `m`'s unqualified suffix matches it.
pub open spec fn spec_impl_method(
    store: Syntax,
    trait_name: Seq<char>,
    m: Seq<char>,
    site_method: Seq<char>,
) -> bool {
    (site_method.len() == 0 || spec_suffix_matches(m, site_method)) && (exists|i: int, k: int|
        0 <= i < store.implementations@.len() && store.implementations@[i].trait_name@
            == trait_name && 0 <= k < store.implementations@[i].methods@.len()
            && store.implementations@[i].methods@[k]@ == m)
}

/// The static type a finalized effect carries: a bound variable's type or
/// the declared return type of the called function's registered signature.
pub open spec fn spec_effect_return(
    store: Syntax,
    vars: Seq<(String, FinalizedTypes)>,
    eff: FinalizedEffects,
) -> Option<crate::types::TypeV> {
    match eff.types {
        FinalizedEffectType::NOP => Option::None,
        FinalizedEffectType::LoadVariable(v) => {
            if var_index(vars, v@) >= 0 {
                Option::Some(vars[var_index(vars, v@)].1@)
            } else {
                Option::None
            }
        },
        FinalizedEffectType::FunctionCall(n, _) => spec_callee_return(store, n@),
        FinalizedEffectType::VirtualCall(_, n, _) => spec_callee_return(store, n@),
        FinalizedEffectType::GenericVirtualCall(_, n, _, _) => spec_callee_return(store, n@),
    }
}

/// Whether one candidate method binds the call: its codeless signature is
/// registered, arities agree, every evaluated argument's static type is the
/// matching parameter type, and, when an explicit expected return type was
/// supplied, it resolves and matches the candidate's declared return type.
pub open spec fn spec_method_binds(
    store: Syntax,
    vars: Seq<(String, FinalizedTypes)>,
    effects: Seq<FinalizedEffects>,
    returning: Option<Types>,
    subsv: Seq<(Seq<char>, crate::types::TypeV)>,
    m: Seq<char>,
) -> bool {
    let fi = crate::store::function_index(store.functions@, m);
    fi >= 0 && store.functions@[fi].codeless is Some && ({
        let c = store.functions@[fi].codeless->Some_0;
        effects.len() == c.arguments@.len() && (forall|i: int|
            0 <= i < effects.len() ==> spec_effect_return(store, vars, #[trigger] effects[i])
                == Option::Some(c.arguments@[i].field.field_type@)) && (match returning {
            Option::Some(rt) => type_resolvable(rt@, store, subsv) && (match c.return_type {
                Option::Some(crt) => spec_finalize_type(rt@, subsv) == crt@,
                Option::None => false,
            }),
            Option::None => true,
        })
    })
}

/// Whether a dispatch receiver's static type is still an unresolved
/// generic: the receiver effect exists and its static type, as the store
/// and variable map give it, is a generic parameter.
pub open spec fn spec_receiver_generic(
    store: Syntax,
    vars: Seq<(String, FinalizedTypes)>,
    receiver: Option<&FinalizedEffects>,
) -> bool {
    match receiver {
        Option::Some(f) => match spec_effect_return(store, vars, *f) {
            Option::Some(t) => t.is_generic(),
            Option::None => false,
        },
        Option::None => false,
    }
}

/// Whether position `(i, k)` of the registered implementations is a
/// candidate serving the request: implementation `i` implements the trait
/// for the target type, and its method `k` serves the requested name.
pub open spec fn spec_impl_candidate(
    store: Syntax,
    trait_name: Seq<char>,
    target: Seq<char>,
    i: int,
    k: int,
    requested: Seq<char>,
) -> bool {
    0 <= i < store.implementations@.len() && store.implementations@[i].trait_name@ == trait_name
        && store.implementations@[i].target_name@ == target && 0 <= k
        < store.implementations@[i].methods@.len() && (requested.len() == 0
        || spec_suffix_matches(store.implementations@[i].methods@[k]@, requested))
}

/// Whether an emitted dispatch effect carries the call's evaluated
/// arguments: the receiver's finalized effect first when the call has one —
/// a variable receiver is that variable's load, on the receiver's span —
/// then each argument variable in input order, every one on the call's span.
pub open spec fn spec_call_payload(
    site: ImplCallSite,
    span: crate::tokens::Span,
    eff: Seq<FinalizedEffects>,
) -> bool {
    let off: int = if site.calling is Some {
        1
    } else {
        0
    };
    eff.len() == off + site.arguments@.len() && (forall|a: int|
        0 <= a < site.arguments@.len() ==> ((#[trigger] eff[off + a]).types matches
            FinalizedEffectType::LoadVariable(w) && w@ == site.arguments@[a]@) && eff[off + a].span
            == span) && (match site.calling {
        Option::Some(c) => match c.types {
            EffectType::LoadVariable(v) => eff.len() > 0 && (eff[0].types matches
                FinalizedEffectType::LoadVariable(w) && w@ == v@) && eff[0].span == c.span,
            _ => true,
        },
        Option::None => true,
    })
}

/// The search type a dispatch decision is taken against, where the call
/// site itself determines it: the receiver variable's declared type with
/// the context's generics substituted; the void type for a call with no
/// receiver expression.  A receiver that is itself a call is decided by
/// that call's outcome and is not named here.
pub open spec fn spec_search_type(
    store: Syntax,
    vars: Seq<(String, FinalizedTypes)>,
    subsv: Seq<(Seq<char>, crate::types::TypeV)>,
    site: ImplCallSite,
) -> Option<crate::types::TypeV> {
    match site.calling {
        Option::Some(c) => match c.types {
            EffectType::LoadVariable(v) => {
                if var_index(vars, v@) >= 0 {
                    Option::Some(spec_finalize_type(vars[var_index(vars, v@)].1@, subsv))
                } else {
                    Option::None
                }
            },
            EffectType::NOP => Option::Some(
                crate::types::TypeV::Struct("void"@, Seq::empty()),
            ),
            _ => Option::None,
        },
        Option::None => Option::Some(crate::types::TypeV::Struct("void"@, Seq::empty())),
    }
}

/// All the data used by implementation checkers: the trait being called
/// through, the optional explicit return-type annotation, the requested
/// method name (empty means "the unique method"), the receiver's finalized
/// static type as the search type, and the evaluated arguments, receiver
/// first.
pub struct ImplCheckerData {
    pub data: FinalizedTypes,
    pub returning: Option<Types>,
    pub method: String,
    pub finding_return_type: FinalizedTypes,
    pub finalized_effects: Vec<FinalizedEffects>,
}

/// The decision of the virtual-dispatch check.
pub enum VirtualDecision {
    /// Dispatch at a fixed slot to the named method.
    VirtualAt(usize, String),
    /// Dispatch deferred to runtime type information: the slot, the concrete
    /// target found on the receiver, and the trait method matched.
    GenericAt(usize, String, String),
}

/// Whether the search type statically matches the trait: exactly the
/// static-match predicate, for every non-generic search type.
#[verifier::loop_isolation(false)]
fn of_type(search: &FinalizedTypes, trait_name: &String, syntax: &Syntax) -> (r: bool)
    ensures
        r == (!search@.is_generic() && spec_of_type(search@, trait_name@, *syntax)),
{
    let base = match search.base_struct_name() {
        Option::Some(b) => b,
        Option::None => {
            return false;
        },
    };
    if base.eq(trait_name) {
        return true;
    }
    let entry = match syntax.lookup_struct(base) {
        Option::Some(e) => e,
        Option::None => {
            return false;
        },
    };
    let traits = &entry.shape.traits;
    let mut i: usize = 0;
    while i < traits.len()
        invariant
            i <= traits@.len(),
            forall|j: int| 0 <= j < i ==> (#[trigger] traits@[j])@ != trait_name@,
        decreases traits@.len() - i,
    {
        if traits[i].eq(trait_name) {
            proof {
                let w = crate::store::struct_index(syntax.structures@, base@);
                assert(syntax.structures@[w] == *entry);
                assert(syntax.structures@[w].shape.traits@[i as int]@ == trait_name@);
            }
            return true;
        }
        i += 1;
    }
    proof {
        let w = crate::store::struct_index(syntax.structures@, base@);
        assert(syntax.structures@[w] == *entry);
        assert(forall|j: int|
            0 <= j < syntax.structures@[w].shape.traits@.len()
                ==> (#[trigger] syntax.structures@[w].shape.traits@[j])@ != trait_name@);
    }
    false
}

/// Checks an implementation call to see if it should be a virtual call:
/// scans the trait's method list in declaration order for the first method
/// matching the request, exactly or by unqualified suffix.  An exact match
/// dispatches at that slot.  A suffix match resolves the receiver's concrete
/// overload: exactly one candidate must match, else the ambiguous-method or
/// unknown-method error is raised; a receiver whose type is still generic
/// defers dispatch to runtime type information, and otherwise a
/// specialization job is spawned and the call dispatches to the concrete
/// target at the matched slot.
#[verifier::loop_isolation(false)]
pub fn check_virtual_type(
    handle: &mut HandleWrapper,
    syntax: &Syntax,
    variables: &SimpleVariableManager,
    trait_shape: &Struct,
    method: &String,
    search: &FinalizedTypes,
    receiver: Option<&FinalizedEffects>,
    token: &Span,
) -> (r: Outcome<Option<VirtualDecision>>)
    requires
        exists|i: int|
            0 <= i < syntax.structures@.len() && #[trigger] syntax.structures@[i].shape
                == *trait_shape,
    ensures
        match r {
            Outcome::Done(decision) => match decision {
                Option::Some(VirtualDecision::VirtualAt(slot, m)) => spec_slot_ok(
                    *syntax,
                    trait_shape.name@,
                    slot as int,
                    method@,
                ) && slot < trait_shape.functions@.len() && (trait_shape.functions@[slot as int]@
                    == method@ && m@ == method@ || spec_suffix_matches(
                    trait_shape.functions@[slot as int]@,
                    method@,
                )) && (trait_shape.functions@[slot as int]@ != method@
                    ==> !spec_receiver_generic(*syntax, variables.variables@, receiver))
                    && !search@.is_generic() && spec_of_type(
                    search@,
                    trait_shape.name@,
                    *syntax,
                ),
                Option::Some(VirtualDecision::GenericAt(slot, _, m)) => spec_slot_ok(
                    *syntax,
                    trait_shape.name@,
                    slot as int,
                    method@,
                ) && slot < trait_shape.functions@.len() && spec_suffix_matches(
                    trait_shape.functions@[slot as int]@,
                    method@,
                ) && spec_receiver_generic(*syntax, variables.variables@, receiver)
                    && !search@.is_generic() && spec_of_type(
                    search@,
                    trait_shape.name@,
                    *syntax,
                ),
                Option::None => search@.is_generic() || !spec_of_type(
                    search@,
                    trait_shape.name@,
                    *syntax,
                ) || (method@.len() == 0 && (spec_no_serving_slot(trait_shape.functions@, method@)
                    || (crate::store::struct_index(syntax.structures@, search@.base_name()) >= 0
                    && count_suffix_matches(
                    syntax.structures@[crate::store::struct_index(
                        syntax.structures@,
                        search@.base_name(),
                    )].shape.functions@,
                    method@,
                ) == 0))),
            },
            Outcome::Failed(e) => (e.kind == ErrorKind::AmbiguousMethod || e.kind
                == ErrorKind::UnknownMethod) && e.span == *token && (e.kind
                == ErrorKind::AmbiguousMethod ==> exists|i: int|
                0 <= i < syntax.structures@.len() && (#[trigger] syntax.structures@[i]).shape.name@
                    == search@.base_name() && count_suffix_matches(
                    syntax.structures@[i].shape.functions@,
                    method@,
                ) >= 2) && (e.kind == ErrorKind::UnknownMethod ==> !search@.is_generic()
                && spec_of_type(search@, trait_shape.name@, *syntax) && method@.len() > 0 && (
            spec_no_serving_slot(trait_shape.functions@, method@) || (crate::store::struct_index(
                syntax.structures@,
                search@.base_name(),
            ) >= 0 && count_suffix_matches(
                syntax.structures@[crate::store::struct_index(
                    syntax.structures@,
                    search@.base_name(),
                )].shape.functions@,
                method@,
            ) == 0))),
            Outcome::Waiting(_) => !syntax.finished_all,
        },
        (search@.is_generic() || !spec_of_type(search@, trait_shape.name@, *syntax)) ==> (r
            matches Outcome::Done(Option::None)),
        match r {
            Outcome::Done(Option::Some(VirtualDecision::VirtualAt(slot, m))) => {
                if trait_shape.functions@[slot as int]@ == method@ {
                    final(handle).jobs@ == old(handle).jobs@
                } else {
                    final(handle).jobs@.len() == old(handle).jobs@.len() + 1 && final(handle).jobs@.take(old(handle).jobs@.len() as int) == old(handle).jobs@ && final(handle).jobs@.last().name@ == m@ + "::degenericed"@ && final(handle).jobs@.last().job->DegenericHeader_target@ == m@
                }
            },
            _ => final(handle).jobs@ == old(handle).jobs@,
        },
{
    if !of_type(search, &trait_shape.name, syntax) {
        return Outcome::Done(Option::None);
    }
    let fns = &trait_shape.functions;
    let mut i: usize = 0;
    while i < fns.len()
        invariant
            i <= fns@.len(),
            handle.jobs@ == old(handle).jobs@,
            forall|j: int|
                0 <= j < i ==> (#[trigger] fns@[j])@ != method@ && !spec_suffix_matches(
                    fns@[j]@,
                    method@,
                ),
        decreases fns@.len() - i,
    {
        let found = &fns[i];
        if found.eq(method) {
            // A fully qualified exact match: the index is the vtable slot.
            match syntax.lookup_function(found) {
                Option::Some(entry) => {
                    if entry.codeless.is_none() && !syntax.all_finalized() {
                        return Outcome::Waiting(found.clone());
                    }
                },
                Option::None => {
                    if !syntax.all_finalized() {
                        return Outcome::Waiting(found.clone());
                    }
                },
            }
            proof {
                let w = choose|w: int|
                    0 <= w < syntax.structures@.len() && #[trigger] syntax.structures@[w].shape
                        == *trait_shape;
                assert(syntax.structures@[w].shape.functions@[i as int]@ == method@);
            }
            return Outcome::Done(Option::Some(VirtualDecision::VirtualAt(i, found.clone())));
        } else if suffix_matches(found, method) {
            // A generic trait method called with a concrete receiver:
            // resolve the receiver's concrete overload.
            let base = match search.base_struct_name() {
                Option::Some(b) => b,
                Option::None => {
                    return Outcome::Done(Option::None);
                },
            };
            let search_entry = match syntax.lookup_struct(base) {
                Option::Some(e) => e,
                Option::None => {
                    // Unreachable: the static match established that the
                    // base struct is registered (the trait itself included).
                    proof {
                        let w = choose|w: int|
                            0 <= w < syntax.structures@.len() && #[trigger] syntax.structures@[
                                w].shape == *trait_shape;
                        assert(syntax.structures@[w].shape.name@ == trait_shape.name@);
                        assert(false);
                    }
                    return Outcome::Done(Option::None);
                },
            };
            let sfns = &search_entry.shape.functions;
            let mut count: usize = 0;
            let mut target: usize = 0;
            let mut k: usize = 0;
            while k < sfns.len()
                invariant
                    k <= sfns@.len(),
                    count == count_suffix_matches(sfns@.take(k as int), method@),
                    count > 0 ==> target < k && spec_suffix_matches(
                        sfns@[target as int]@,
                        method@,
                    ),
                    count <= k,
                decreases sfns@.len() - k,
            {
                proof {
                    assert(sfns@.take(k + 1).drop_last() =~= sfns@.take(k as int));
                    assert(sfns@.take(k + 1).last() == sfns@[k as int]);
                }
                if suffix_matches(&sfns[k], method) {
                    count = count + 1;
                    target = k;
                }
                k += 1;
            }
            proof {
                assert(sfns@.take(sfns@.len() as int) =~= sfns@);
            }
            if count > 1 {
                proof {
                    let w = crate::store::struct_index(syntax.structures@, base@);
                    assert(syntax.structures@[w] == *search_entry);
                    assert(syntax.structures@[w].shape.name@ == search@.base_name());
                    assert(count_suffix_matches(syntax.structures@[w].shape.functions@, method@)
                        >= 2);
                }
                return Outcome::Failed(
                    token.make_error(ErrorKind::AmbiguousMethod, "Ambiguous function!".to_owned()),
                );
            }
            if count == 0 {
                proof {
                    let w = crate::store::struct_index(syntax.structures@, base@);
                    assert(syntax.structures@[w] == *search_entry);
                    assert(count_suffix_matches(syntax.structures@[w].shape.functions@, method@)
                        == 0);
                }
                if method.as_str().is_empty() {
                    // An empty requested name means "any": with no concrete
                    // overload on the receiver, resolution falls through to
                    // implementation search rather than failing.
                    return Outcome::Done(Option::None);
                }
                return Outcome::Failed(
                    token.make_error(ErrorKind::UnknownMethod, "Unknown function!".to_owned()),
                );
            }
            let target_name = sfns[target].clone();
            proof {
                let w = choose|w: int|
                    0 <= w < syntax.structures@.len() && #[trigger] syntax.structures@[w].shape
                        == *trait_shape;
                assert(spec_suffix_matches(
                    syntax.structures@[w].shape.functions@[i as int]@,
                    method@,
                ));
            }
            // A receiver whose static type is still an unresolved generic
            // defers the dispatch decision to runtime type information.
            let receiver_generic = match receiver {
                Option::Some(f) => {
                    let rt = get_return(&f.types, variables, syntax);
                    proof {
                        assert(match rt {
                            Option::Some(t) => spec_effect_return(
                                *syntax,
                                variables.variables@,
                                *f,
                            ) == Option::Some(t@),
                            Option::None => spec_effect_return(
                                *syntax,
                                variables.variables@,
                                *f,
                            ) is None,
                        });
                    }
                    match rt {
                        Option::Some(t) => t.base_struct_name().is_none(),
                        Option::None => false,
                    }
                },
                Option::None => false,
            };
            proof {
                assert(receiver_generic == spec_receiver_generic(
                    *syntax,
                    variables.variables@,
                    receiver,
                ));
            }
            if receiver_generic {
                return Outcome::Done(
                    Option::Some(VirtualDecision::GenericAt(i, target_name, found.clone())),
                );
            }
            match syntax.lookup_function(&target_name) {
                Option::Some(entry) => {
                    if entry.codeless.is_none() && !syntax.all_finalized() {
                        return Outcome::Waiting(target_name);
                    }
                },
                Option::None => {
                    if !syntax.all_finalized() {
                        return Outcome::Waiting(target_name);
                    }
                },
            }
            let job_name = specialized_name(&target_name);
            handle.spawn(job_name, Job::DegenericHeader { target: target_name.clone() });
            return Outcome::Done(Option::Some(VirtualDecision::VirtualAt(i, target_name)));
        }
        i += 1;
    }
    if !method.as_str().is_empty() {
        return Outcome::Failed(
            token.make_error(ErrorKind::UnknownMethod, "Unknown method!".to_owned()),
        );
    }
    Outcome::Done(Option::None)
}

/// Tries to get an implementation matching the trait and search type: scans
/// registered implementations in registration order; within a matching
/// implementation, a method serves the call when the requested name is empty
/// or its unqualified suffix matches.  The first candidate that type-checks
/// against the call's arguments and the expected return type wins; a failed
/// candidate is silently discarded and the next one tried.
#[verifier::loop_isolation(false)]
pub fn try_get_impl(
    subs: &Vec<(String, FinalizedTypes)>,
    syntax: &Syntax,
    variables: &SimpleVariableManager,
    data: &ImplCheckerData,
    span: &Span,
) -> (r: Outcome<Option<String>>)
    ensures
        match r {
            Outcome::Done(found) => match found {
                Option::Some(m) => spec_impl_method(
                    *syntax,
                    data.data@.base_name(),
                    m@,
                    data.method@,
                ) && (exists|i: int, k: int|
                    #[trigger] spec_impl_candidate(
                        *syntax,
                        data.data@.base_name(),
                        data.finding_return_type@.base_name(),
                        i,
                        k,
                        data.method@,
                    ) && syntax.implementations@[i].methods@[k]@ == m@ && spec_method_binds(
                        *syntax,
                        variables.variables@,
                        data.finalized_effects@,
                        data.returning,
                        subs_view(subs@),
                        m@,
                    ) && (forall|i2: int, k2: int|
                        #[trigger] spec_impl_candidate(
                            *syntax,
                            data.data@.base_name(),
                            data.finding_return_type@.base_name(),
                            i2,
                            k2,
                            data.method@,
                        ) && (i2 < i || (i2 == i && k2 < k)) ==> !spec_method_binds(
                            *syntax,
                            variables.variables@,
                            data.finalized_effects@,
                            data.returning,
                            subs_view(subs@),
                            syntax.implementations@[i2].methods@[k2]@,
                        ))),
                Option::None => (!data.data@.is_generic()
                    && !data.finding_return_type@.is_generic()) ==> (forall|i: int, k: int|
                    #[trigger] spec_impl_candidate(
                        *syntax,
                        data.data@.base_name(),
                        data.finding_return_type@.base_name(),
                        i,
                        k,
                        data.method@,
                    ) ==> !spec_method_binds(
                        *syntax,
                        variables.variables@,
                        data.finalized_effects@,
                        data.returning,
                        subs_view(subs@),
                        syntax.implementations@[i].methods@[k]@,
                    )),
            },
            Outcome::Failed(e) => e.kind == ErrorKind::InvalidBounds && e.span == *span
                && data.returning is Some && !type_resolvable(
                data.returning->Some_0@,
                *syntax,
                subs_view(subs@),
            ) && syntax.finished_all,
            Outcome::Waiting(_) => !syntax.finished_all,
        },
{
    let trait_name = match data.data.base_struct_name() {
        Option::Some(b) => b.clone(),
        Option::None => {
            return Outcome::Done(Option::None);
        },
    };
    let search_base: Option<&String> = data.finding_return_type.base_struct_name();
    proof {
        match search_base {
            Option::Some(b) => {},
            Option::None => {},
        }
    }
    let impls = &syntax.implementations;
    let mut i: usize = 0;
    while i < impls.len()
        invariant
            i <= impls@.len(),
            trait_name@ == data.data@.base_name(),
            forall|i2: int, k2: int|
                #[trigger] spec_impl_candidate(
                    *syntax,
                    data.data@.base_name(),
                    data.finding_return_type@.base_name(),
                    i2,
                    k2,
                    data.method@,
                ) && i2 < i && !data.finding_return_type@.is_generic() ==> !spec_method_binds(
                    *syntax,
                    variables.variables@,
                    data.finalized_effects@,
                    data.returning,
                    subs_view(subs@),
                    syntax.implementations@[i2].methods@[k2]@,
                ),
        decreases impls@.len() - i,
    {
        let im = &impls[i];
        let target_matches = match search_base {
            Option::Some(b) => im.target_name.eq(b),
            Option::None => false,
        };
        if im.trait_name.eq(&trait_name) && target_matches {
            let mut k: usize = 0;
            while k < im.methods.len()
                invariant
                    k <= im.methods@.len(),
                    i < impls@.len(),
                    im == &impls@[i as int],
                    im.trait_name@ == data.data@.base_name(),
                    forall|k2: int|
                        #[trigger] spec_impl_candidate(
                            *syntax,
                            data.data@.base_name(),
                            data.finding_return_type@.base_name(),
                            i as int,
                            k2,
                            data.method@,
                        ) && k2 < k && !data.finding_return_type@.is_generic()
                        ==> !spec_method_binds(
                            *syntax,
                            variables.variables@,
                            data.finalized_effects@,
                            data.returning,
                            subs_view(subs@),
                            syntax.implementations@[i as int].methods@[k2]@,
                        ),
                decreases im.methods@.len() - k,
            {
                let m = &im.methods[k];
                if data.method.as_str().is_empty() || suffix_matches(m, &data.method) {
                    match check_method(subs, syntax, variables, data, m, span) {
                        Outcome::Done(accepted) => {
                            if accepted {
                                proof {
                                    assert(impls@[i as int].methods@[k as int]@ == m@);
                                    assert(impls@[i as int].target_name@
                                        == data.finding_return_type@.base_name());
                                    assert(spec_impl_candidate(
                                        *syntax,
                                        data.data@.base_name(),
                                        data.finding_return_type@.base_name(),
                                        i as int,
                                        k as int,
                                        data.method@,
                                    ));
                                    assert(!data.finding_return_type@.is_generic());
                                    assert forall|i2: int, k2: int|
                                        #[trigger] spec_impl_candidate(
                                            *syntax,
                                            data.data@.base_name(),
                                            data.finding_return_type@.base_name(),
                                            i2,
                                            k2,
                                            data.method@,
                                        ) && (i2 < i as int || (i2 == i as int && k2
                                            < k as int)) implies !spec_method_binds(
                                        *syntax,
                                        variables.variables@,
                                        data.finalized_effects@,
                                        data.returning,
                                        subs_view(subs@),
                                        syntax.implementations@[i2].methods@[k2]@,
                                    ) by {}
                                }
                                return Outcome::Done(Option::Some(m.clone()));
                            }
                        },
                        Outcome::Failed(e) => {
                            return Outcome::Failed(e);
                        },
                        Outcome::Waiting(n) => {
                            return Outcome::Waiting(n);
                        },
                    }
                }
                k += 1;
            }
            proof {
                assert forall|k2: int|
                    #[trigger] spec_impl_candidate(
                        *syntax,
                        data.data@.base_name(),
                        data.finding_return_type@.base_name(),
                        i as int,
                        k2,
                        data.method@,
                    ) && !data.finding_return_type@.is_generic() implies !spec_method_binds(
                    *syntax,
                    variables.variables@,
                    data.finalized_effects@,
                    data.returning,
                    subs_view(subs@),
                    syntax.implementations@[i as int].methods@[k2]@,
                ) by {}
            }
        } else {
            proof {
                assert forall|k2: int|
                    spec_impl_candidate(
                        *syntax,
                        data.data@.base_name(),
                        data.finding_return_type@.base_name(),
                        i as int,
                        k2,
                        data.method@,
                    ) && !data.finding_return_type@.is_generic() implies false by {
                    assert(impls@[i as int].trait_name@ == data.data@.base_name());
                    assert(impls@[i as int].target_name@
                        == data.finding_return_type@.base_name());
                    match search_base {
                        Option::Some(b) => {
                            assert(b@ == data.finding_return_type@.base_name());
                        },
                        Option::None => {
                            assert(data.finding_return_type@.is_generic());
                        },
                    }
                }
            }
        }
        i += 1;
    }
    Outcome::Done(Option::None)
}

/// Whether one candidate method binds to the call: its codeless signature
/// must be available, every evaluated argument's static type must match the
/// corresponding parameter type, and, when an explicit expected return type
/// was supplied, the candidate's return type must match it after
/// finalization against the binding environment.
#[verifier::loop_isolation(false)]
fn check_method(
    subs: &Vec<(String, FinalizedTypes)>,
    syntax: &Syntax,
    variables: &SimpleVariableManager,
    data: &ImplCheckerData,
    m: &String,
    span: &Span,
) -> (r: Outcome<bool>)
    ensures
        match r {
            Outcome::Done(b) => b == spec_method_binds(
                *syntax,
                variables.variables@,
                data.finalized_effects@,
                data.returning,
                subs_view(subs@),
                m@,
            ),
            Outcome::Failed(e) => e.kind == ErrorKind::InvalidBounds && e.span == *span
                && data.returning is Some && !type_resolvable(
                data.returning->Some_0@,
                *syntax,
                subs_view(subs@),
            ) && syntax.finished_all,
            Outcome::Waiting(_) => !syntax.finished_all,
        },
{
    let codeless = match syntax.lookup_function(m) {
        Option::Some(entry) => match &entry.codeless {
            Option::Some(codeless) => codeless,
            Option::None => {
                if syntax.all_finalized() {
                    return Outcome::Done(false);
                } else {
                    return Outcome::Waiting(m.clone());
                }
            },
        },
        Option::None => {
            if syntax.all_finalized() {
                return Outcome::Done(false);
            } else {
                return Outcome::Waiting(m.clone());
            }
        },
    };
    if data.finalized_effects.len() != codeless.arguments.len() {
        return Outcome::Done(false);
    }
    let mut i: usize = 0;
    while i < codeless.arguments.len()
        invariant
            i <= codeless.arguments@.len(),
            data.finalized_effects@.len() == codeless.arguments@.len(),
            forall|j: int|
                0 <= j < i ==> spec_effect_return(
                    *syntax,
                    variables.variables@,
                    #[trigger] data.finalized_effects@[j],
                ) == Option::Some(codeless.arguments@[j].field.field_type@),
        decreases codeless.arguments@.len() - i,
    {
        let actual = get_return(&data.finalized_effects[i].types, variables, syntax);
        proof {
            assert(match actual {
                Option::Some(t) => spec_effect_return(
                    *syntax,
                    variables.variables@,
                    data.finalized_effects@[i as int],
                ) == Option::Some(t@),
                Option::None => spec_effect_return(
                    *syntax,
                    variables.variables@,
                    data.finalized_effects@[i as int],
                ) is None,
            });
        }
        match actual {
            Option::Some(t) => {
                if !t.same_type(&codeless.arguments[i].field.field_type) {
                    return Outcome::Done(false);
                }
            },
            Option::None => {
                return Outcome::Done(false);
            },
        }
        i += 1;
    }
    match &data.returning {
        Option::Some(expected) => {
            let finalized = match finalize_type(expected, syntax, subs, span) {
                Outcome::Done(f) => f,
                Outcome::Failed(_) => {
                    return Outcome::Failed(
                        span.make_error(ErrorKind::InvalidBounds, "Incorrect bounds!".to_owned()),
                    );
                },
                Outcome::Waiting(n) => {
                    return Outcome::Waiting(n);
                },
            };
            match &codeless.return_type {
                Option::Some(rt) => {
                    if !finalized.same_type(rt) {
                        return Outcome::Done(false);
                    }
                },
                Option::None => {
                    return Outcome::Done(false);
                },
            }
        },
        Option::None => {},
    }
    Outcome::Done(true)
}

/// Checks an implementation call: evaluates the receiver, takes its
/// finalized static type as the search type (the void type for a static
/// trait call), looks the trait up through the resolution protocol, tries
/// virtual dispatch first, and otherwise searches registered
/// implementations.  The search suspends while further implementation
/// checking is pending; once the store reports that none is, one final
/// retry is attempted and then the no-implementation error is attached to
/// the call's span.
#[verifier::loop_isolation(false)]
pub fn check_impl_call(
    subs: &Vec<(String, FinalizedTypes)>,
    handle: &mut HandleWrapper,
    syntax: &Syntax,
    variables: &SimpleVariableManager,
    effect: &Effects,
) -> (r: Outcome<FinalizedEffects>)
    requires
        effect.types is ImplementationCall,
    ensures
        match r {
            Outcome::Done(f) => f.span == effect.span && (match f.types {
                FinalizedEffectType::VirtualCall(slot, _, eff) => spec_slot_ok(
                    *syntax,
                    site_of(*effect).trait_name@,
                    slot as int,
                    site_of(*effect).method@,
                ) && spec_call_payload(site_of(*effect), effect.span, eff@),
                FinalizedEffectType::GenericVirtualCall(slot, _, _, eff) => spec_slot_ok(
                    *syntax,
                    site_of(*effect).trait_name@,
                    slot as int,
                    site_of(*effect).method@,
                ) && spec_call_payload(site_of(*effect), effect.span, eff@),
                FinalizedEffectType::FunctionCall(m, eff) => spec_impl_method(
                    *syntax,
                    site_of(*effect).trait_name@,
                    m@,
                    site_of(*effect).method@,
                ) && spec_call_payload(site_of(*effect), effect.span, eff@),
                _ => false,
            }),
            Outcome::Failed(e) => e.kind != ErrorKind::IncompleteReturn && (e.kind
                == ErrorKind::NoImplementation && (match site_of(*effect).calling {
                Option::Some(c) => !(c.types is ImplementationCall),
                Option::None => true,
            }) ==> (syntax.finished_impls && e.span == effect.span)) && ((match site_of(
                *effect,
            ).calling {
                Option::Some(c) => !(c.types is ImplementationCall),
                Option::None => true,
            }) ==> (e.kind == ErrorKind::AmbiguousMethod ==> (match spec_search_type(
                *syntax,
                variables.variables@,
                subs_view(subs@),
                site_of(*effect),
            ) {
                Option::Some(st) => exists|i: int|
                    0 <= i < syntax.structures@.len() && (#[trigger] syntax.structures@[
                        i]).shape.name@ == st.base_name() && count_suffix_matches(
                        syntax.structures@[i].shape.functions@,
                        site_of(*effect).method@,
                    ) >= 2,
                Option::None => exists|i: int|
                    0 <= i < syntax.structures@.len() && count_suffix_matches(
                        (#[trigger] syntax.structures@[i]).shape.functions@,
                        site_of(*effect).method@,
                    ) >= 2,
            })) && (e.kind == ErrorKind::UnknownMethod ==> crate::store::struct_index(
                syntax.structures@,
                site_of(*effect).trait_name@,
            ) >= 0 && (match spec_search_type(
                *syntax,
                variables.variables@,
                subs_view(subs@),
                site_of(*effect),
            ) {
                Option::Some(st) => !st.is_generic() && spec_of_type(
                    st,
                    site_of(*effect).trait_name@,
                    *syntax,
                ) && site_of(*effect).method@.len() > 0 && (spec_no_serving_slot(
                    syntax.structures@[crate::store::struct_index(
                        syntax.structures@,
                        site_of(*effect).trait_name@,
                    )].shape.functions@,
                    site_of(*effect).method@,
                ) || (crate::store::struct_index(syntax.structures@, st.base_name()) >= 0
                    && count_suffix_matches(
                    syntax.structures@[crate::store::struct_index(
                        syntax.structures@,
                        st.base_name(),
                    )].shape.functions@,
                    site_of(*effect).method@,
                ) == 0)),
                Option::None => true,
            })) && (e.kind == ErrorKind::InvalidBounds ==> site_of(*effect).returning
                is Some || (match site_of(*effect).calling {
                Option::Some(c) => c.types is FunctionCall,
                Option::None => false,
            })) && (e.kind == ErrorKind::UnresolvedName ==> (crate::store::struct_index(
                syntax.structures@,
                site_of(*effect).trait_name@,
            ) == -1 && syntax.finished_all) || (exists|a: int|
                0 <= a < site_of(*effect).arguments@.len() && crate::check_code::var_index(
                    variables.variables@,
                    (#[trigger] site_of(*effect).arguments@[a])@,
                ) == -1) || (match site_of(*effect).calling {
                Option::Some(c) => match c.types {
                    EffectType::LoadVariable(v) => crate::check_code::var_index(
                        variables.variables@,
                        v@,
                    ) == -1,
                    EffectType::FunctionCall(_, _) => true,
                    EffectType::NOP => false,
                    EffectType::ImplementationCall(_) => true,
                },
                Option::None => false,
            }))),
            Outcome::Waiting(_) => !syntax.finished_all || !syntax.finished_impls,
        },
        match r {
            Outcome::Done(f) => match spec_search_type(
                *syntax,
                variables.variables@,
                subs_view(subs@),
                site_of(*effect),
            ) {
                Option::Some(st) => match f.types {
                    FinalizedEffectType::VirtualCall(_, _, _) => !st.is_generic()
                        && spec_of_type(st, site_of(*effect).trait_name@, *syntax),
                    FinalizedEffectType::GenericVirtualCall(_, _, _, _) => !st.is_generic()
                        && spec_of_type(st, site_of(*effect).trait_name@, *syntax),
                    FinalizedEffectType::FunctionCall(m, _) => (exists|i: int, k: int|
                        #[trigger] spec_impl_candidate(
                            *syntax,
                            site_of(*effect).trait_name@,
                            st.base_name(),
                            i,
                            k,
                            site_of(*effect).method@,
                        ) && syntax.implementations@[i].methods@[k]@ == m@) && (st.is_generic()
                        || !spec_of_type(st, site_of(*effect).trait_name@, *syntax) || (site_of(
                        *effect,
                    ).method@.len() == 0 && crate::store::struct_index(
                        syntax.structures@,
                        site_of(*effect).trait_name@,
                    ) >= 0 && (spec_no_serving_slot(
                        syntax.structures@[crate::store::struct_index(
                            syntax.structures@,
                            site_of(*effect).trait_name@,
                        )].shape.functions@,
                        site_of(*effect).method@,
                    ) || (crate::store::struct_index(syntax.structures@, st.base_name()) >= 0
                        && count_suffix_matches(
                        syntax.structures@[crate::store::struct_index(
                            syntax.structures@,
                            st.base_name(),
                        )].shape.functions@,
                        site_of(*effect).method@,
                    ) == 0)))),
                    _ => true,
                },
                Option::None => true,
            },
            _ => true,
        },
        (crate::store::struct_index(syntax.structures@, site_of(*effect).trait_name@) == -1
            && syntax.finished_all && syntax.finished_impls && (match site_of(*effect).calling {
            Option::Some(c) => !(c.types is ImplementationCall),
            Option::None => true,
        })) ==> r is Failed,
        (crate::store::struct_index(syntax.structures@, site_of(*effect).trait_name@) == -1
            && syntax.finished_all && site_of(*effect).calling is None) ==> (match r {
            Outcome::Failed(e) => e.kind == ErrorKind::UnresolvedName && e.span == effect.span,
            _ => false,
        }),
    decreases *effect, 0int,
{
    let site = match &effect.types {
        EffectType::ImplementationCall(site) => &**site,
        _ => {
            proof {
                assert(false);
            }
            return Outcome::Failed(
                effect.span.make_error(ErrorKind::UnresolvedName, "Unreachable".to_owned()),
            );
        },
    };
    proof {
        assert(site_of(*effect) == *site);
    }
    let mut finalized_effects: Vec<FinalizedEffects> = Vec::new();
    let has_receiver = site.calling.is_some();
    let finding_return_type = match &site.calling {
        Option::Some(calling) => {
            let found = match verify_effect(subs, handle, syntax, variables, calling) {
                Outcome::Done(f) => f,
                Outcome::Failed(e) => {
                    return Outcome::Failed(e);
                },
                Outcome::Waiting(n) => {
                    return Outcome::Waiting(n);
                },
            };
            let rt = get_return(&found.types, variables, syntax);
            finalized_effects.push(found);
            let result = match rt {
                Option::Some(t) => substitute_type(&t, subs),
                Option::None => {
                    let void_type = FinalizedTypes::Struct("void".to_owned(), Vec::new());
                    proof {
                        assert(void_type@ =~= crate::types::TypeV::Struct("void"@, Seq::empty()));
                    }
                    void_type
                },
            };
            proof {
                assert(match spec_search_type(
                    *syntax,
                    variables.variables@,
                    subs_view(subs@),
                    *site,
                ) {
                    Option::Some(st) => result@ == st,
                    Option::None => true,
                });
            }
            result
        },
        Option::None => {
            let void_type = FinalizedTypes::Struct("void".to_owned(), Vec::new());
            proof {
                assert(void_type@ =~= crate::types::TypeV::Struct("void"@, Seq::empty()));
            }
            void_type
        },
    };
    let ghost off: int = if site.calling is Some {
        1
    } else {
        0
    };
    proof {
        assert(finalized_effects@.len() == off);
    }
    let mut a: usize = 0;
    while a < site.arguments.len()
        invariant
            a <= site.arguments@.len(),
            finalized_effects@.len() == off + a,
            forall|b: int|
                0 <= b < a ==> ((#[trigger] finalized_effects@[off + b]).types matches
                    FinalizedEffectType::LoadVariable(w) && w@ == site.arguments@[b]@)
                    && finalized_effects@[off + b].span == effect.span,
            match site.calling {
                Option::Some(c) => match c.types {
                    EffectType::LoadVariable(v) => finalized_effects@.len() > 0 && (
                    finalized_effects@[0].types matches FinalizedEffectType::LoadVariable(w) && w@
                        == v@) && finalized_effects@[0].span == c.span,
                    _ => true,
                },
                Option::None => true,
            },
        decreases site.arguments@.len() - a,
    {
        let arg = &site.arguments[a];
        if variables.lookup_variable(arg).is_none() {
            return Outcome::Failed(
                effect.span.make_error(ErrorKind::UnresolvedName, "Unknown variable".to_owned()),
            );
        }
        finalized_effects.push(
            FinalizedEffects::new(effect.span, FinalizedEffectType::LoadVariable(arg.clone())),
        );
        a += 1;
    }
    let trait_entry = match syntax.lookup_struct(&site.trait_name) {
        Option::Some(e) => e,
        Option::None => {
            if syntax.all_finalized() {
                return Outcome::Failed(
                    effect.span.make_error(ErrorKind::UnresolvedName, "Unknown trait".to_owned()),
                );
            } else {
                return Outcome::Waiting(site.trait_name.clone());
            }
        },
    };
    proof {
        let ti = crate::store::struct_index(syntax.structures@, site.trait_name@);
        assert(syntax.structures@[ti].shape == trait_entry.shape);
    }
    let returning = match &site.returning {
        Option::Some(t) => Option::Some(t.duplicate()),
        Option::None => Option::None,
    };
    let data = ImplCheckerData {
        data: FinalizedTypes::Struct(site.trait_name.clone(), Vec::new()),
        returning,
        method: site.method.clone(),
        finding_return_type,
        finalized_effects,
    };
    let receiver: Option<&FinalizedEffects> = if has_receiver && data.finalized_effects.len() > 0 {
        Option::Some(&data.finalized_effects[0])
    } else {
        Option::None
    };
    match check_virtual_type(
        handle,
        syntax,
        variables,
        &trait_entry.shape,
        &data.method,
        &data.finding_return_type,
        receiver,
        &effect.span,
    ) {
        Outcome::Done(Option::Some(VirtualDecision::VirtualAt(slot, m))) => {
            return Outcome::Done(
                FinalizedEffects::new(
                    effect.span,
                    FinalizedEffectType::VirtualCall(slot, m, data.finalized_effects),
                ),
            );
        },
        Outcome::Done(Option::Some(VirtualDecision::GenericAt(slot, t, m))) => {
            return Outcome::Done(
                FinalizedEffects::new(
                    effect.span,
                    FinalizedEffectType::GenericVirtualCall(slot, t, m, data.finalized_effects),
                ),
            );
        },
        Outcome::Done(Option::None) => {},
        Outcome::Failed(e) => {
            return Outcome::Failed(e);
        },
        Outcome::Waiting(n) => {
            return Outcome::Waiting(n);
        },
    }
    match try_get_impl(subs, syntax, variables, &data, &effect.span) {
        Outcome::Done(Option::Some(m)) => {
            return Outcome::Done(
                FinalizedEffects::new(
                    effect.span,
                    FinalizedEffectType::FunctionCall(m, data.finalized_effects),
                ),
            );
        },
        Outcome::Done(Option::None) => {},
        Outcome::Failed(e) => {
            return Outcome::Failed(e);
        },
        Outcome::Waiting(n) => {
            return Outcome::Waiting(n);
        },
    }
    if !syntax.finished_impls {
        // The set of known implementations still grows as unrelated checking
        // completes: suspend until more are registered or the liveness
        // signal fires.
        return Outcome::Waiting(site.trait_name.clone());
    }
    // One final retry after the liveness signal, then give up.
    match try_get_impl(subs, syntax, variables, &data, &effect.span) {
        Outcome::Done(Option::Some(m)) => Outcome::Done(
            FinalizedEffects::new(
                effect.span,
                FinalizedEffectType::FunctionCall(m, data.finalized_effects),
            ),
        ),
        Outcome::Done(Option::None) => Outcome::Failed(
            effect.span.make_error(
                ErrorKind::NoImplementation,
                "Nothing implements the given trait!".to_owned(),
            ),
        ),
        Outcome::Failed(e) => Outcome::Failed(e),
        Outcome::Waiting(n) => Outcome::Waiting(n),
    }
}

} // verus!
