//! Body checking: verifies each expression's effect, resolving direct calls
//! against codeless signatures in the store and implementation calls through
//! the dispatcher, and decides whether the body is control-flow-complete.

use vstd::prelude::*;
use crate::check_impl_call::{check_impl_call, site_of};
use crate::coordinator::HandleWrapper;
use crate::errors::ErrorKind;
use crate::function::{
    CodeBody, Effects, EffectType, ExpressionType, FinalizedCodeBody, FinalizedEffectType,
    FinalizedEffects, FinalizedExpression, CodelessFinalizedFunction, spec_body_complete,
};
use crate::resolve::Outcome;
use crate::store::Syntax;
use crate::types::FinalizedTypes;

verus! {

/// The first index at which the variable map binds `name`; `-1` when unbound.
pub open spec fn var_index(vars: Seq<(String, FinalizedTypes)>, name: Seq<char>) -> int
    decreases vars.len(),
{
    if vars.len() == 0 {
        -1
    } else if vars[0].0@ == name {
        0
    } else {
        let rest = var_index(vars.drop_first(), name);
        if rest == -1 {
            -1
        } else {
            rest + 1
        }
    }
}

/// When a scan finds the first binding at `i`, the recursive index agrees.
proof fn lemma_var_index_prefix(vars: Seq<(String, FinalizedTypes)>, name: Seq<char>, i: int)
    requires
        0 <= i < vars.len(),
        vars[i].0@ == name,
        forall|j: int| 0 <= j < i ==> vars[j].0@ != name,
    ensures
        var_index(vars, name) == i,
    decreases vars.len(),
{
    if i > 0 {
        lemma_var_index_prefix(vars.drop_first(), name, i - 1);
    }
}

/// When no binding matches, the index is `-1`.
proof fn lemma_var_index_none(vars: Seq<(String, FinalizedTypes)>, name: Seq<char>)
    requires
        forall|j: int| 0 <= j < vars.len() ==> vars[j].0@ != name,
    ensures
        var_index(vars, name) == -1,
    decreases vars.len(),
{
    if vars.len() > 0 {
        lemma_var_index_none(vars.drop_first(), name);
    }
}

/// Whether the variable map binds `name` to a value whose view is `t`: the
/// first binding decides, as the scan does.
pub open spec fn spec_binds(
    vars: Seq<(String, FinalizedTypes)>,
    name: Seq<char>,
    t: crate::types::TypeV,
) -> bool {
    var_index(vars, name) >= 0 && vars[var_index(vars, name)].1@ == t
}

/// The declared return type of the named function's registered codeless
/// signature, viewed; `None` when the function, its signature, or its
/// return type is absent.
pub open spec fn spec_callee_return(store: Syntax, callee: Seq<char>) -> Option<
    crate::types::TypeV,
> {
    let fi = crate::store::function_index(store.functions@, callee);
    if fi == -1 {
        Option::None
    } else {
        match store.functions@[fi].codeless {
            Option::Some(c) => match c.return_type {
                Option::Some(t) => Option::Some(t@),
                Option::None => Option::None,
            },
            Option::None => Option::None,
        }
    }
}

/// Whether a direct call binds: the callee's codeless signature is
/// registered, arities agree, and every argument variable's bound type is
/// the matching parameter type.
pub open spec fn spec_call_binds(
    store: Syntax,
    vars: Seq<(String, FinalizedTypes)>,
    callee: Seq<char>,
    args: Seq<String>,
) -> bool {
    let fi = crate::store::function_index(store.functions@, callee);
    fi >= 0 && store.functions@[fi].codeless is Some && ({
        let c = store.functions@[fi].codeless->Some_0;
        args.len() == c.arguments@.len() && (forall|a: int|
            0 <= a < args.len() ==> spec_binds(
                vars,
                (#[trigger] args[a])@,
                c.arguments@[a].field.field_type@,
            ))
    })
}

/// Whether every argument variable binds to the matching parameter type.
pub open spec fn spec_args_bind(
    vars: Seq<(String, FinalizedTypes)>,
    args: Seq<String>,
    params: Seq<crate::types::FinalizedMemberField>,
) -> bool {
    args.len() == params.len() && (forall|i: int|
        0 <= i < args.len() ==> spec_binds(vars, (#[trigger] args[i])@, params[i].field.field_type@))
}

/// Whether a finalized effect is the resolution of a written effect: same
/// span, and the dispatch decision the written kind calls for.
pub open spec fn spec_effect_resolves(
    store: Syntax,
    vars: Seq<(String, FinalizedTypes)>,
    src: Effects,
    out: FinalizedEffects,
) -> bool {
    out.span == src.span && (match src.types {
        EffectType::NOP => out.types is NOP,
        EffectType::LoadVariable(v) => (out.types matches FinalizedEffectType::LoadVariable(w)
            && w@ == v@) && var_index(vars, v@) >= 0,
        EffectType::FunctionCall(name, args) => (out.types matches
            FinalizedEffectType::FunctionCall(m, fargs) && m@ == name@ && fargs@.len()
            == args@.len() && (forall|a: int|
            0 <= a < args@.len() ==> ((#[trigger] fargs@[a]).types matches
                FinalizedEffectType::LoadVariable(w2) && w2@ == args@[a]@) && fargs@[a].span
                == src.span)) && store.spec_has_codeless(name@) && spec_call_binds(
            store,
            vars,
            name@,
            args@,
        ),
        EffectType::ImplementationCall(_) => out.types is VirtualCall || out.types
            is GenericVirtualCall || out.types is FunctionCall,
    })
}

/// Whether a written effect is simple and fully bound: no operation, a
/// bound variable, or a direct call that binds.  An implementation call is
/// never simple: its outcome depends on the dispatch search.
pub open spec fn spec_effect_simple_ok(
    store: Syntax,
    vars: Seq<(String, FinalizedTypes)>,
    e: Effects,
) -> bool {
    match e.types {
        EffectType::NOP => true,
        EffectType::LoadVariable(v) => var_index(vars, v@) >= 0,
        EffectType::FunctionCall(n, args) => spec_call_binds(store, vars, n@, args@),
        EffectType::ImplementationCall(_) => false,
    }
}

/// The static type a simple written effect produces, once resolved.
pub open spec fn spec_source_return(
    store: Syntax,
    vars: Seq<(String, FinalizedTypes)>,
    e: Effects,
) -> Option<crate::types::TypeV> {
    match e.types {
        EffectType::NOP => Option::None,
        EffectType::LoadVariable(v) => {
            if var_index(vars, v@) >= 0 {
                Option::Some(vars[var_index(vars, v@)].1@)
            } else {
                Option::None
            }
        },
        EffectType::FunctionCall(n, _) => spec_callee_return(store, n@),
        EffectType::ImplementationCall(_) => Option::None,
    }
}

/// Whether a body is simple and fully bound: every effect is simple and
/// binds, and every return line produces exactly the declared return type.
/// Checking such a body can neither fail nor suspend.
pub open spec fn spec_body_simple_ok(
    store: Syntax,
    vars: Seq<(String, FinalizedTypes)>,
    code: CodeBody,
    return_type: Option<FinalizedTypes>,
) -> bool {
    forall|i: int|
        0 <= i < code.expressions@.len() ==> spec_effect_simple_ok(
            store,
            vars,
            (#[trigger] code.expressions@[i]).effect,
        ) && (match code.expressions@[i].expression_type {
            ExpressionType::Return(_) => match (spec_source_return(
                store,
                vars,
                code.expressions@[i].effect,
            ), return_type) {
                (Option::Some(a), Option::Some(b)) => a == b@,
                (Option::None, Option::Some(_)) => false,
                (_, Option::None) => true,
            },
            ExpressionType::Line => true,
        })
}

/// The variable map a function's arguments induce: each argument's name
/// bound to its finalized type, in order.
pub open spec fn spec_function_vars(c: CodelessFinalizedFunction) -> Seq<
    (String, FinalizedTypes),
> {
    Seq::new(
        c.arguments@.len(),
        |i: int| (c.arguments@[i].field.name, c.arguments@[i].field.field_type),
    )
}

/// A found binding index is in range.
pub proof fn lemma_var_index_in_range(v: Seq<(String, FinalizedTypes)>, n: Seq<char>)
    ensures
        var_index(v, n) >= 0 ==> 0 <= var_index(v, n) < v.len(),
    decreases v.len(),
{
    if v.len() > 0 {
        lemma_var_index_in_range(v.drop_first(), n);
    }
}

/// The first binding index agrees between variable maps that display the
/// same names and types.
pub proof fn lemma_var_index_equivalent(
    v1: Seq<(String, FinalizedTypes)>,
    v2: Seq<(String, FinalizedTypes)>,
    n: Seq<char>,
)
    requires
        v1.len() == v2.len(),
        forall|i: int| 0 <= i < v1.len() ==> (#[trigger] v1[i]).0@ == v2[i].0@ && v1[i].1@
            == v2[i].1@,
    ensures
        var_index(v1, n) == var_index(v2, n),
    decreases v1.len(),
{
    if v1.len() > 0 {
        assert forall|i: int| 0 <= i < v1.drop_first().len() implies (#[trigger] v1.drop_first()[
            i]).0@ == v2.drop_first()[i].0@ && v1.drop_first()[i].1@ == v2.drop_first()[
            i].1@ by {
            assert(v1.drop_first()[i] == v1[i + 1]);
            assert(v2.drop_first()[i] == v2[i + 1]);
        }
        lemma_var_index_equivalent(v1.drop_first(), v2.drop_first(), n);
    }
}

/// Every body-checking predicate agrees between variable maps that display
/// the same names and types.
pub proof fn lemma_body_predicates_equivalent(
    store: Syntax,
    v1: Seq<(String, FinalizedTypes)>,
    v2: Seq<(String, FinalizedTypes)>,
    code: CodeBody,
    rt: Option<FinalizedTypes>,
)
    requires
        v1.len() == v2.len(),
        forall|i: int| 0 <= i < v1.len() ==> (#[trigger] v1[i]).0@ == v2[i].0@ && v1[i].1@
            == v2[i].1@,
    ensures
        spec_body_simple_ok(store, v1, code, rt) == spec_body_simple_ok(store, v2, code, rt),
        forall|src: Effects, out: FinalizedEffects|
            #[trigger] spec_effect_resolves(store, v1, src, out) == spec_effect_resolves(
                store,
                v2,
                src,
                out,
            ),
{
    assert forall|n: Seq<char>| #[trigger] var_index(v1, n) == var_index(v2, n) by {
        lemma_var_index_equivalent(v1, v2, n);
    }
    assert forall|n: Seq<char>, t: crate::types::TypeV|
        #[trigger] spec_binds(v1, n, t) == spec_binds(v2, n, t) by {
        assert(var_index(v1, n) == var_index(v2, n));
        if var_index(v1, n) >= 0 {
            lemma_var_index_in_range(v1, n);
            assert(v1[var_index(v1, n)].1@ == v2[var_index(v2, n)].1@);
        }
    }
    assert forall|callee: Seq<char>, args: Seq<String>|
        #[trigger] spec_call_binds(store, v1, callee, args) == spec_call_binds(
            store,
            v2,
            callee,
            args,
        ) by {
        let fi = crate::store::function_index(store.functions@, callee);
        if fi >= 0 && store.functions@[fi].codeless is Some {
            let c = store.functions@[fi].codeless->Some_0;
            if args.len() == c.arguments@.len() {
                assert forall|a: int| 0 <= a < args.len() implies #[trigger] spec_binds(
                    v1,
                    args[a]@,
                    c.arguments@[a].field.field_type@,
                ) == spec_binds(v2, args[a]@, c.arguments@[a].field.field_type@) by {}
            }
        }
    }
    assert forall|e: Effects|
        #[trigger] spec_effect_simple_ok(store, v1, e) == spec_effect_simple_ok(store, v2, e)
        && #[trigger] spec_source_return(store, v1, e) == spec_source_return(store, v2, e) by {
        match e.types {
            EffectType::NOP => {},
            EffectType::LoadVariable(v) => {
                assert(var_index(v1, v@) == var_index(v2, v@));
                if var_index(v1, v@) >= 0 {
                    lemma_var_index_in_range(v1, v@);
                    assert(v1[var_index(v1, v@)].1@ == v2[var_index(v2, v@)].1@);
                }
            },
            EffectType::FunctionCall(n, args) => {
                assert(spec_call_binds(store, v1, n@, args@) == spec_call_binds(
                    store,
                    v2,
                    n@,
                    args@,
                ));
            },
            EffectType::ImplementationCall(_) => {},
        }
    }
    assert forall|src: Effects, out: FinalizedEffects|
        #[trigger] spec_effect_resolves(store, v1, src, out) == spec_effect_resolves(
            store,
            v2,
            src,
            out,
        ) by {
        match src.types {
            EffectType::NOP => {},
            EffectType::LoadVariable(v) => {
                assert(var_index(v1, v@) == var_index(v2, v@));
            },
            EffectType::FunctionCall(n, args) => {
                assert(spec_call_binds(store, v1, n@, args@) == spec_call_binds(
                    store,
                    v2,
                    n@,
                    args@,
                ));
            },
            EffectType::ImplementationCall(_) => {},
        }
    }
    assert(spec_body_simple_ok(store, v1, code, rt) == spec_body_simple_ok(
        store,
        v2,
        code,
        rt,
    )) by {
        if spec_body_simple_ok(store, v1, code, rt) {
            assert forall|i: int| 0 <= i < code.expressions@.len() implies spec_effect_simple_ok(
                store,
                v2,
                (#[trigger] code.expressions@[i]).effect,
            ) && (match code.expressions@[i].expression_type {
                ExpressionType::Return(_) => match (spec_source_return(
                    store,
                    v2,
                    code.expressions@[i].effect,
                ), rt) {
                    (Option::Some(a), Option::Some(b)) => a == b@,
                    (Option::None, Option::Some(_)) => false,
                    (_, Option::None) => true,
                },
                ExpressionType::Line => true,
            }) by {
                assert(spec_effect_simple_ok(store, v1, code.expressions@[i].effect)
                    == spec_effect_simple_ok(store, v2, code.expressions@[i].effect));
                assert(spec_source_return(store, v1, code.expressions@[i].effect)
                    == spec_source_return(store, v2, code.expressions@[i].effect));
            }
        }
        if spec_body_simple_ok(store, v2, code, rt) {
            assert forall|i: int| 0 <= i < code.expressions@.len() implies spec_effect_simple_ok(
                store,
                v1,
                (#[trigger] code.expressions@[i]).effect,
            ) && (match code.expressions@[i].expression_type {
                ExpressionType::Return(_) => match (spec_source_return(
                    store,
                    v1,
                    code.expressions@[i].effect,
                ), rt) {
                    (Option::Some(a), Option::Some(b)) => a == b@,
                    (Option::None, Option::Some(_)) => false,
                    (_, Option::None) => true,
                },
                ExpressionType::Line => true,
            }) by {
                assert(spec_effect_simple_ok(store, v1, code.expressions@[i].effect)
                    == spec_effect_simple_ok(store, v2, code.expressions@[i].effect));
                assert(spec_source_return(store, v1, code.expressions@[i].effect)
                    == spec_source_return(store, v2, code.expressions@[i].effect));
            }
        }
    }
}

/// The per-function local variable map, seeded from the arguments.
pub struct SimpleVariableManager {
    pub variables: Vec<(String, FinalizedTypes)>,
}

impl SimpleVariableManager {
    /// A variable map holding exactly a function's arguments.
    pub fn for_function(codeless: &CodelessFinalizedFunction) -> (r: SimpleVariableManager)
        ensures
            r.variables@.len() == codeless.arguments@.len(),
            forall|i: int|
                0 <= i < codeless.arguments@.len() ==> (#[trigger] r.variables@[i]).0@
                    == codeless.arguments@[i].field.name@ && r.variables@[i].1@
                    == codeless.arguments@[i].field.field_type@,
    {
        let mut variables: Vec<(String, FinalizedTypes)> = Vec::new();
        let mut i: usize = 0;
        while i < codeless.arguments.len()
            invariant
                i <= codeless.arguments@.len(),
                variables@.len() == i,
                forall|j: int|
                    0 <= j < i ==> (#[trigger] variables@[j]).0@ == codeless.arguments@[j].field
                        .name@ && variables@[j].1@ == codeless.arguments@[j].field.field_type@,
            decreases codeless.arguments@.len() - i,
        {
            let f = &codeless.arguments[i].field;
            variables.push((f.name.clone(), f.field_type.duplicate()));
            i += 1;
        }
        SimpleVariableManager { variables }
    }

    /// The type bound to a variable — the first binding decides — or `None`
    /// exactly when the name is unbound.
    pub fn lookup_variable(&self, name: &String) -> (r: Option<&FinalizedTypes>)
        ensures
            match r {
                Option::Some(t) => 0 <= var_index(self.variables@, name@) < self.variables@.len()
                    && *t == self.variables@[var_index(self.variables@, name@)].1,
                Option::None => var_index(self.variables@, name@) == -1,
            },
    {
        let mut i: usize = 0;
        while i < self.variables.len()
            invariant
                i <= self.variables@.len(),
                forall|j: int| 0 <= j < i ==> (#[trigger] self.variables@[j]).0@ != name@,
            decreases self.variables@.len() - i,
        {
            if self.variables[i].0.eq(name) {
                proof {
                    lemma_var_index_prefix(self.variables@, name@, i as int);
                }
                return Option::Some(&self.variables[i].1);
            }
            i += 1;
        }
        proof {
            lemma_var_index_none(self.variables@, name@);
        }
        Option::None
    }
}

/// The static type of a finalized effect: a variable's bound type, or the
/// declared return type of the called function's registered signature;
/// `None` exactly when the effect produces nothing, the variable is
/// unbound, or the callee has no signature or no declared return type.
pub fn get_return(
    types: &FinalizedEffectType,
    variables: &SimpleVariableManager,
    syntax: &Syntax,
) -> (r: Option<FinalizedTypes>)
    ensures
        match *types {
            FinalizedEffectType::NOP => r is None,
            FinalizedEffectType::LoadVariable(v) => match r {
                Option::Some(t) => spec_binds(variables.variables@, v@, t@),
                Option::None => var_index(variables.variables@, v@) == -1,
            },
            FinalizedEffectType::FunctionCall(n, _) => match r {
                Option::Some(t) => spec_callee_return(*syntax, n@) == Option::Some(t@),
                Option::None => spec_callee_return(*syntax, n@) is None,
            },
            FinalizedEffectType::VirtualCall(_, n, _) => match r {
                Option::Some(t) => spec_callee_return(*syntax, n@) == Option::Some(t@),
                Option::None => spec_callee_return(*syntax, n@) is None,
            },
            FinalizedEffectType::GenericVirtualCall(_, n, _, _) => match r {
                Option::Some(t) => spec_callee_return(*syntax, n@) == Option::Some(t@),
                Option::None => spec_callee_return(*syntax, n@) is None,
            },
        },
{
    match types {
        FinalizedEffectType::NOP => Option::None,
        FinalizedEffectType::LoadVariable(v) => {
            match variables.lookup_variable(v) {
                Option::Some(t) => Option::Some(t.duplicate()),
                Option::None => Option::None,
            }
        },
        FinalizedEffectType::FunctionCall(name, _) => return_type_of(name, syntax),
        FinalizedEffectType::VirtualCall(_, name, _) => return_type_of(name, syntax),
        FinalizedEffectType::GenericVirtualCall(_, name, _, _) => return_type_of(name, syntax),
    }
}

/// The declared return type of the named function's codeless signature.
fn return_type_of(name: &String, syntax: &Syntax) -> (r: Option<FinalizedTypes>)
    ensures
        match r {
            Option::Some(t) => spec_callee_return(*syntax, name@) == Option::Some(t@),
            Option::None => spec_callee_return(*syntax, name@) is None,
        },
{
    match syntax.lookup_function(name) {
        Option::Some(entry) => match &entry.codeless {
            Option::Some(codeless) => match &codeless.return_type {
                Option::Some(t) => Option::Some(t.duplicate()),
                Option::None => Option::None,
            },
            Option::None => Option::None,
        },
        Option::None => Option::None,
    }
}

/// Verifies one effect.  A direct call resolves against the callee's
/// codeless signature, suspending while the signature is not yet available
/// and checking is still running; an implementation call goes through the
/// dispatcher.  A completed effect keeps its span.
#[verifier::loop_isolation(false)]
pub fn verify_effect(
    subs: &Vec<(String, FinalizedTypes)>,
    handle: &mut HandleWrapper,
    syntax: &Syntax,
    variables: &SimpleVariableManager,
    e: &Effects,
) -> (r: Outcome<FinalizedEffects>)
    ensures
        match r {
            Outcome::Done(f) => spec_effect_resolves(*syntax, variables.variables@, *e, f),
            Outcome::Failed(e2) => e2.kind != ErrorKind::IncompleteReturn && (match e.types {
                EffectType::NOP => false,
                EffectType::LoadVariable(v) => e2.kind == ErrorKind::UnresolvedName && e2.span
                    == e.span && var_index(variables.variables@, v@) == -1,
                EffectType::FunctionCall(name, args) => (e2.kind == ErrorKind::UnresolvedName
                    || e2.kind == ErrorKind::InvalidBounds) && !spec_call_binds(
                    *syntax,
                    variables.variables@,
                    name@,
                    args@,
                ) && (e2.kind == ErrorKind::UnresolvedName ==> (syntax.finished_all && (
                crate::store::function_index(syntax.functions@, name@) == -1
                    || syntax.functions@[crate::store::function_index(
                    syntax.functions@,
                    name@,
                )].codeless is None)) || (exists|a: int|
                    0 <= a < args@.len() && var_index(
                        variables.variables@,
                        (#[trigger] args@[a])@,
                    ) == -1)),
                EffectType::ImplementationCall(_) => (e2.kind
                    == ErrorKind::NoImplementation && (match site_of(*e).calling {
                    Option::Some(c) => !(c.types is ImplementationCall),
                    Option::None => true,
                }) ==> (syntax.finished_impls && e2.span == e.span)) && ((match site_of(
                    *e,
                ).calling {
                    Option::Some(c) => !(c.types is ImplementationCall),
                    Option::None => true,
                }) ==> (e2.kind == ErrorKind::AmbiguousMethod ==> (match crate::check_impl_call::spec_search_type(
                    *syntax,
                    variables.variables@,
                    crate::finalize::subs_view(subs@),
                    site_of(*e),
                ) {
                    Option::Some(st) => exists|i: int|
                        0 <= i < syntax.structures@.len() && (#[trigger] syntax.structures@[
                            i]).shape.name@ == st.base_name() && crate::check_impl_call::count_suffix_matches(
                            syntax.structures@[i].shape.functions@,
                            site_of(*e).method@,
                        ) >= 2,
                    Option::None => exists|i: int|
                        0 <= i < syntax.structures@.len() && crate::check_impl_call::count_suffix_matches(
                            (#[trigger] syntax.structures@[i]).shape.functions@,
                            site_of(*e).method@,
                        ) >= 2,
                })) && (e2.kind == ErrorKind::UnknownMethod ==> crate::store::struct_index(
                    syntax.structures@,
                    site_of(*e).trait_name@,
                ) >= 0 && (match crate::check_impl_call::spec_search_type(
                    *syntax,
                    variables.variables@,
                    crate::finalize::subs_view(subs@),
                    site_of(*e),
                ) {
                    Option::Some(st) => !st.is_generic() && crate::check_impl_call::spec_of_type(
                        st,
                        site_of(*e).trait_name@,
                        *syntax,
                    ) && site_of(*e).method@.len() > 0 && (crate::check_impl_call::spec_no_serving_slot(
                        syntax.structures@[crate::store::struct_index(
                            syntax.structures@,
                            site_of(*e).trait_name@,
                        )].shape.functions@,
                        site_of(*e).method@,
                    ) || (crate::store::struct_index(syntax.structures@, st.base_name()) >= 0
                        && crate::check_impl_call::count_suffix_matches(
                        syntax.structures@[crate::store::struct_index(
                            syntax.structures@,
                            st.base_name(),
                        )].shape.functions@,
                        site_of(*e).method@,
                    ) == 0)),
                    Option::None => true,
                })) && (e2.kind == ErrorKind::InvalidBounds ==> site_of(*e).returning
                    is Some || (match site_of(*e).calling {
                    Option::Some(c) => c.types is FunctionCall,
                    Option::None => false,
                })) && (e2.kind == ErrorKind::UnresolvedName ==> (crate::store::struct_index(
                    syntax.structures@,
                    site_of(*e).trait_name@,
                ) == -1 && syntax.finished_all) || (exists|a: int|
                    0 <= a < site_of(*e).arguments@.len() && var_index(
                        variables.variables@,
                        (#[trigger] site_of(*e).arguments@[a])@,
                    ) == -1) || (match site_of(*e).calling {
                    Option::Some(c) => match c.types {
                        EffectType::LoadVariable(v) => var_index(
                            variables.variables@,
                            v@,
                        ) == -1,
                        EffectType::FunctionCall(_, _) => true,
                        EffectType::NOP => false,
                        EffectType::ImplementationCall(_) => true,
                    },
                    Option::None => false,
                }))),
            }),
            Outcome::Waiting(_) => (!syntax.finished_all || !syntax.finished_impls) && !(e.types
                is NOP) && !(e.types is LoadVariable),
        },
        (match e.types {
            EffectType::FunctionCall(name, args) => spec_call_binds(
                *syntax,
                variables.variables@,
                name@,
                args@,
            ) ==> r is Done,
            _ => true,
        }),
    decreases *e, 1int,
{
    match &e.types {
        EffectType::NOP => Outcome::Done(
            FinalizedEffects::new(e.span, FinalizedEffectType::NOP),
        ),
        EffectType::LoadVariable(v) => {
            match variables.lookup_variable(v) {
                Option::Some(_) => Outcome::Done(
                    FinalizedEffects::new(e.span, FinalizedEffectType::LoadVariable(v.clone())),
                ),
                Option::None => Outcome::Failed(
                    e.span.make_error(ErrorKind::UnresolvedName, "Unknown variable".to_owned()),
                ),
            }
        },
        EffectType::FunctionCall(name, args) => {
            let entry = match syntax.lookup_function(name) {
                Option::Some(entry) => entry,
                Option::None => {
                    if syntax.all_finalized() {
                        return Outcome::Failed(
                            e.span.make_error(
                                ErrorKind::UnresolvedName,
                                "Unknown function".to_owned(),
                            ),
                        );
                    } else {
                        return Outcome::Waiting(name.clone());
                    }
                },
            };
            let codeless = match &entry.codeless {
                Option::Some(codeless) => codeless,
                Option::None => {
                    if syntax.all_finalized() {
                        return Outcome::Failed(
                            e.span.make_error(
                                ErrorKind::UnresolvedName,
                                "Unknown function".to_owned(),
                            ),
                        );
                    } else {
                        return Outcome::Waiting(name.clone());
                    }
                },
            };
            if args.len() != codeless.arguments.len() {
                return Outcome::Failed(
                    e.span.make_error(ErrorKind::InvalidBounds, "Incorrect arguments".to_owned()),
                );
            }
            let mut effects: Vec<FinalizedEffects> = Vec::new();
            let mut i: usize = 0;
            while i < args.len()
                invariant
                    i <= args@.len(),
                    effects@.len() == i,
                    forall|a: int|
                        0 <= a < i ==> ((#[trigger] effects@[a]).types matches
                            FinalizedEffectType::LoadVariable(w2) && w2@ == args@[a]@)
                            && effects@[a].span == e.span,
                    forall|a: int|
                        0 <= a < i ==> spec_binds(
                            variables.variables@,
                            (#[trigger] args@[a])@,
                            codeless.arguments@[a].field.field_type@,
                        ),
                decreases args@.len() - i,
            {
                let arg = &args[i];
                let bound = match variables.lookup_variable(arg) {
                    Option::Some(t) => t,
                    Option::None => {
                        return Outcome::Failed(
                            e.span.make_error(
                                ErrorKind::UnresolvedName,
                                "Unknown variable".to_owned(),
                            ),
                        );
                    },
                };
                if !bound.same_type(&codeless.arguments[i].field.field_type) {
                    return Outcome::Failed(
                        e.span.make_error(
                            ErrorKind::InvalidBounds,
                            "Incorrect arguments".to_owned(),
                        ),
                    );
                }
                effects.push(
                    FinalizedEffects::new(e.span, FinalizedEffectType::LoadVariable(arg.clone())),
                );
                i += 1;
            }
            Outcome::Done(
                FinalizedEffects::new(
                    e.span,
                    FinalizedEffectType::FunctionCall(name.clone(), effects),
                ),
            )
        },
        EffectType::ImplementationCall(_) => {
            match check_impl_call(subs, handle, syntax, variables, e) {
                Outcome::Done(f) => Outcome::Done(f),
                Outcome::Failed(err) => Outcome::Failed(err),
                Outcome::Waiting(n) => Outcome::Waiting(n),
            }
        },
    }
}

/// Type-checks a body against the declared return type using the
/// per-function variable map.  The completeness flag of the result is
/// truthful: it holds exactly when the checked body ends in a return.
#[verifier::loop_isolation(false)]
pub fn verify_code(
    subs: &Vec<(String, FinalizedTypes)>,
    handle: &mut HandleWrapper,
    code: &CodeBody,
    return_type: &Option<FinalizedTypes>,
    syntax: &Syntax,
    variables: &SimpleVariableManager,
) -> (r: Outcome<FinalizedCodeBody>)
    ensures
        match r {
            Outcome::Done(b) => b.complete == spec_body_complete(b.expressions@)
                && b.expressions@.len() == code.expressions@.len() && (forall|i: int|
                0 <= i < code.expressions@.len() ==> (#[trigger] b.expressions@[i])
                    .expression_type == code.expressions@[i].expression_type) && (forall|i: int|
                0 <= i < code.expressions@.len() ==> spec_effect_resolves(
                    *syntax,
                    variables.variables@,
                    (#[trigger] code.expressions@[i]).effect,
                    b.expressions@[i].effect,
                )),
            Outcome::Failed(e2) => e2.kind != ErrorKind::IncompleteReturn
                && code.expressions@.len() > 0 && !spec_body_simple_ok(
                *syntax,
                variables.variables@,
                *code,
                *return_type,
            ),
            Outcome::Waiting(_) => (!syntax.finished_all || !syntax.finished_impls)
                && code.expressions@.len() > 0 && !spec_body_simple_ok(
                *syntax,
                variables.variables@,
                *code,
                *return_type,
            ),
        },
        spec_body_simple_ok(*syntax, variables.variables@, *code, *return_type) ==> r is Done,
{
    let mut expressions: Vec<FinalizedExpression> = Vec::new();
    let mut i: usize = 0;
    while i < code.expressions.len()
        invariant
            i <= code.expressions@.len(),
            expressions@.len() == i,
            forall|j: int|
                0 <= j < i ==> (#[trigger] expressions@[j]).expression_type == code.expressions@[
                    j].expression_type,
            forall|j: int|
                0 <= j < i ==> spec_effect_resolves(
                    *syntax,
                    variables.variables@,
                    (#[trigger] code.expressions@[j]).effect,
                    expressions@[j].effect,
                ),
        decreases code.expressions@.len() - i,
    {
        let expression = &code.expressions[i];
        let effect = match verify_effect(subs, handle, syntax, variables, &expression.effect) {
            Outcome::Done(f) => f,
            Outcome::Failed(err) => {
                return Outcome::Failed(err);
            },
            Outcome::Waiting(n) => {
                return Outcome::Waiting(n);
            },
        };
        match &expression.expression_type {
            crate::function::ExpressionType::Return(token) => {
                let actual = get_return(&effect.types, variables, syntax);
                proof {
                    if !(expression.effect.types is ImplementationCall) {
                        assert(match actual {
                            Option::Some(t) => spec_source_return(
                                *syntax,
                                variables.variables@,
                                expression.effect,
                            ) == Option::Some(t@),
                            Option::None => spec_source_return(
                                *syntax,
                                variables.variables@,
                                expression.effect,
                            ) is None,
                        });
                    }
                }
                match (&actual, return_type) {
                    (Option::Some(a), Option::Some(b)) => {
                        if !a.same_type(b) {
                            return Outcome::Failed(
                                token.make_error(
                                    ErrorKind::InvalidBounds,
                                    "Incorrect return type".to_owned(),
                                ),
                            );
                        }
                    },
                    (Option::None, Option::Some(_)) => {
                        return Outcome::Failed(
                            token.make_error(
                                ErrorKind::InvalidBounds,
                                "Incorrect return type".to_owned(),
                            ),
                        );
                    },
                    (_, Option::None) => {},
                }
            },
            crate::function::ExpressionType::Line => {},
        }
        let duplicated = match &expression.expression_type {
            crate::function::ExpressionType::Line => crate::function::ExpressionType::Line,
            crate::function::ExpressionType::Return(token) => crate::function::ExpressionType::Return(
                *token,
            ),
        };
        expressions.push(FinalizedExpression::new(duplicated, effect));
        i += 1;
    }
    let complete = if expressions.len() > 0 {
        match &expressions[expressions.len() - 1].expression_type {
            crate::function::ExpressionType::Return(_) => true,
            crate::function::ExpressionType::Line => false,
        }
    } else {
        false
    };
    let label = code.label.clone();
    Outcome::Done(FinalizedCodeBody::new(expressions, label, complete))
}

} // verus!
