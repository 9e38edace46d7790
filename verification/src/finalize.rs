//! The type finalizer.  Unresolved named types resolve against the
//! declaration store; generic references carry their bound-trait set; a
//! generic parameter already bound in the substitution map yields the bound
//! concrete type instead of the parameter; reference wrappers finalize their
//! inner type and preserve wrapping.  Finalization never fails for a name
//! that exists in the store, even poisoned: poisoned structs still finalize
//! to a usable type so checking of the rest of the program continues.

use vstd::prelude::*;
use crate::errors::ErrorKind;
use crate::generics::{Generics, spec_insert};
use crate::resolve::Outcome;
use crate::store::Syntax;
use crate::tokens::Span;
use crate::types::{FinalizedTypes, TypeV, Types, duplicate_names};

verus! {

/// The view of a substitution map: parameter name to bound type view.
pub open spec fn subs_view(subs: Seq<(String, FinalizedTypes)>) -> Seq<(Seq<char>, TypeV)> {
    subs.map_values(|p: (String, FinalizedTypes)| (p.0@, p.1@))
}

/// The first index of a binding for `name`; `-1` when the parameter is unbound.
pub open spec fn sub_index(subs: Seq<(Seq<char>, TypeV)>, name: Seq<char>) -> int
    decreases subs.len(),
{
    if subs.len() == 0 {
        -1
    } else if subs[0].0 == name {
        0
    } else {
        let rest = sub_index(subs.drop_first(), name);
        if rest == -1 {
            -1
        } else {
            rest + 1
        }
    }
}

/// When a scan finds the first binding at `i`, the recursive index agrees.
pub proof fn lemma_sub_index_prefix(subs: Seq<(Seq<char>, TypeV)>, name: Seq<char>, i: int)
    requires
        0 <= i < subs.len(),
        subs[i].0 == name,
        forall|j: int| 0 <= j < i ==> subs[j].0 != name,
    ensures
        sub_index(subs, name) == i,
    decreases subs.len(),
{
    if i > 0 {
        lemma_sub_index_prefix(subs.drop_first(), name, i - 1);
    }
}

/// When no binding matches, the index is `-1`.
pub proof fn lemma_sub_index_none(subs: Seq<(Seq<char>, TypeV)>, name: Seq<char>)
    requires
        forall|j: int| 0 <= j < subs.len() ==> subs[j].0 != name,
    ensures
        sub_index(subs, name) == -1,
    decreases subs.len(),
{
    if subs.len() > 0 {
        lemma_sub_index_none(subs.drop_first(), name);
    }
}

/// The bound value of the first binding for `name`, or `None` when unbound.
#[verifier::loop_isolation(false)]
pub fn lookup_sub<'a>(subs: &'a Vec<(String, FinalizedTypes)>, name: &String) -> (r: Option<
    &'a FinalizedTypes,
>)
    ensures
        match r {
            Option::Some(t) => sub_index(subs_view(subs@), name@) >= 0 && t@ == subs_view(
                subs@,
            )[sub_index(subs_view(subs@), name@)].1,
            Option::None => sub_index(subs_view(subs@), name@) == -1,
        },
{
    let mut i: usize = 0;
    while i < subs.len()
        invariant
            i <= subs@.len(),
            forall|j: int| 0 <= j < i ==> subs@[j].0@ != name@,
        decreases subs@.len() - i,
    {
        if subs[i].0.eq(name) {
            proof {
                assert(forall|j: int| 0 <= j < i ==> subs_view(subs@)[j].0 != name@);
                lemma_sub_index_prefix(subs_view(subs@), name@, i as int);
            }
            return Option::Some(&subs[i].1);
        }
        i += 1;
    }
    proof {
        assert(forall|j: int| 0 <= j < subs@.len() ==> subs_view(subs@)[j].0 != name@);
        lemma_sub_index_none(subs_view(subs@), name@);
    }
    Option::None
}

/// Whether every name a type reference mentions can be resolved: named
/// references and generic arguments against the store or the substitution
/// map, bound traits against the store.
pub open spec fn type_resolvable(t: TypeV, store: Syntax, subs: Seq<(Seq<char>, TypeV)>) -> bool
    decreases t,
{
    match t {
        TypeV::Struct(name, args) => store.spec_has_struct(name) && (forall|i: int|
            0 <= i < args.len() ==> store.spec_has_struct(#[trigger] args[i]) || sub_index(
                subs,
                args[i],
            ) >= 0),
        TypeV::Generic(name, bounds) => sub_index(subs, name) >= 0 || (forall|i: int|
            0 <= i < bounds.len() ==> store.spec_has_struct(#[trigger] bounds[i])),
        TypeV::Reference(inner) => type_resolvable(*inner, store, subs),
    }
}

/// What finalization produces: the written shape, with bound generic
/// parameters replaced by their substitutions.
pub open spec fn spec_finalize_type(t: TypeV, subs: Seq<(Seq<char>, TypeV)>) -> TypeV
    decreases t,
{
    match t {
        TypeV::Struct(name, args) => TypeV::Struct(name, args),
        TypeV::Generic(name, bounds) => {
            if sub_index(subs, name) >= 0 {
                subs[sub_index(subs, name)].1
            } else {
                TypeV::Generic(name, bounds)
            }
        },
        TypeV::Reference(inner) => TypeV::Reference(Box::new(spec_finalize_type(*inner, subs))),
    }
}

/// Finalizes one type reference against the store and a substitution map.
/// Completes for every resolvable reference, poisoned structs included;
/// suspends on a name not yet registered while checking is still running;
/// reports an unresolved-name diagnostic once the liveness signal says no
/// further declaration will ever arrive.
#[verifier::loop_isolation(false)]
pub fn finalize_type(
    t: &Types,
    syntax: &Syntax,
    subs: &Vec<(String, FinalizedTypes)>,
    span: &Span,
) -> (r: Outcome<FinalizedTypes>)
    ensures
        match r {
            Outcome::Done(f) => type_resolvable(t@, *syntax, subs_view(subs@)) && f@
                == spec_finalize_type(t@, subs_view(subs@)),
            Outcome::Failed(e) => !type_resolvable(t@, *syntax, subs_view(subs@))
                && syntax.finished_all && e.kind == ErrorKind::UnresolvedName && e.span == *span,
            Outcome::Waiting(n) => !type_resolvable(t@, *syntax, subs_view(subs@))
                && !syntax.finished_all && !syntax.spec_has_struct(n@),
        },
    decreases *t,
{
    match t {
        Types::Named(name, args) => {
            if syntax.lookup_struct(name).is_none() {
                if syntax.all_finalized() {
                    return Outcome::Failed(
                        span.make_error(ErrorKind::UnresolvedName, "Unresolved type".to_owned()),
                    );
                } else {
                    return Outcome::Waiting(name.clone());
                }
            }
            let mut i: usize = 0;
            while i < args.len()
                invariant
                    i <= args@.len(),
                    forall|j: int|
                        0 <= j < i ==> syntax.spec_has_struct(#[trigger] args@[j]@) || sub_index(
                            subs_view(subs@),
                            args@[j]@,
                        ) >= 0,
                decreases args@.len() - i,
            {
                let arg = &args[i];
                if syntax.lookup_struct(arg).is_none() && lookup_sub(subs, arg).is_none() {
                    proof {
                        assert(args.deep_view()[i as int] == args@[i as int]@);
                    }
                    if syntax.all_finalized() {
                        return Outcome::Failed(
                            span.make_error(
                                ErrorKind::UnresolvedName,
                                "Unresolved type argument".to_owned(),
                            ),
                        );
                    } else {
                        return Outcome::Waiting(arg.clone());
                    }
                }
                i += 1;
            }
            let r = FinalizedTypes::Struct(name.clone(), duplicate_names(args));
            proof {
                assert(r@ =~= spec_finalize_type(t@, subs_view(subs@)));
                assert forall|j: int| 0 <= j < args.deep_view().len() implies syntax
                    .spec_has_struct(#[trigger] args.deep_view()[j]) || sub_index(
                    subs_view(subs@),
                    args.deep_view()[j],
                ) >= 0 by {
                    assert(args.deep_view()[j] == args@[j]@);
                }
            }
            Outcome::Done(r)
        },
        Types::Generic(name, bounds) => {
            match lookup_sub(subs, name) {
                Option::Some(bound) => {
                    let r = bound.duplicate();
                    Outcome::Done(r)
                },
                Option::None => {
                    let mut i: usize = 0;
                    while i < bounds.len()
                        invariant
                            i <= bounds@.len(),
                            forall|j: int|
                                0 <= j < i ==> syntax.spec_has_struct(#[trigger] bounds@[j]@),
                        decreases bounds@.len() - i,
                    {
                        let bound = &bounds[i];
                        if syntax.lookup_struct(bound).is_none() {
                            proof {
                                assert(bounds.deep_view()[i as int] == bounds@[i as int]@);
                            }
                            if syntax.all_finalized() {
                                return Outcome::Failed(
                                    span.make_error(
                                        ErrorKind::UnresolvedName,
                                        "Unresolved bound".to_owned(),
                                    ),
                                );
                            } else {
                                return Outcome::Waiting(bound.clone());
                            }
                        }
                        i += 1;
                    }
                    let r = FinalizedTypes::Generic(name.clone(), duplicate_names(bounds));
                    proof {
                        assert(r@ =~= spec_finalize_type(t@, subs_view(subs@)));
                        assert forall|j: int| 0 <= j < bounds.deep_view().len() implies syntax
                            .spec_has_struct(#[trigger] bounds.deep_view()[j]) by {
                            assert(bounds.deep_view()[j] == bounds@[j]@);
                        }
                    }
                    Outcome::Done(r)
                },
            }
        },
        Types::Reference(inner) => {
            match finalize_type(&**inner, syntax, subs, span) {
                Outcome::Done(f) => {
                    let r = FinalizedTypes::Reference(Box::new(f));
                    assert(r@ =~= spec_finalize_type(t@, subs_view(subs@)));
                    Outcome::Done(r)
                },
                Outcome::Failed(e) => Outcome::Failed(e),
                Outcome::Waiting(n) => Outcome::Waiting(n),
            }
        },
    }
}

/// Applies a substitution map to an already finalized type: bound generic
/// parameters are replaced by their substitutions, everything else is kept.
pub fn substitute_type(t: &FinalizedTypes, subs: &Vec<(String, FinalizedTypes)>) -> (r:
    FinalizedTypes)
    ensures
        r@ == spec_finalize_type(t@, subs_view(subs@)),
    decreases *t,
{
    match t {
        FinalizedTypes::Struct(name, args) => {
            let r = FinalizedTypes::Struct(name.clone(), duplicate_names(args));
            assert(r@ =~= spec_finalize_type(t@, subs_view(subs@)));
            r
        },
        FinalizedTypes::Generic(name, bounds) => {
            match lookup_sub(subs, name) {
                Option::Some(bound) => bound.duplicate(),
                Option::None => {
                    let r = FinalizedTypes::Generic(name.clone(), duplicate_names(bounds));
                    assert(r@ =~= spec_finalize_type(t@, subs_view(subs@)));
                    r
                },
            }
        },
        FinalizedTypes::Reference(inner) => {
            let r = FinalizedTypes::Reference(Box::new(substitute_type(&**inner, subs)));
            assert(r@ =~= spec_finalize_type(t@, subs_view(subs@)));
            r
        },
    }
}

/// Finalization is idempotent: an already finalized type, carrying no
/// unresolved generic bindings, finalizes to itself unchanged.
pub proof fn lemma_finalize_idempotent(t: TypeV)
    ensures
        spec_finalize_type(t, Seq::empty()) == t,
    decreases t,
{
    match t {
        TypeV::Struct(_, _) => {},
        TypeV::Generic(_, _) => {},
        TypeV::Reference(inner) => {
            lemma_finalize_idempotent(*inner);
            assert(spec_finalize_type(t, Seq::empty()) =~= t);
        },
    }
}

/// The view of parsed generic-parameter declarations: each parameter name
/// with the names of its bound traits.
pub open spec fn generic_inputs_view(inputs: Seq<(String, Vec<String>)>) -> Seq<
    (Seq<char>, Seq<Seq<char>>),
> {
    inputs.map_values(|p: (String, Vec<String>)| (p.0@, p.1.deep_view()))
}

/// The table that inserting the declarations in order produces.
pub open spec fn spec_build_generics(inputs: Seq<(Seq<char>, Seq<Seq<char>>)>) -> Seq<
    (Seq<char>, Seq<Seq<char>>),
>
    decreases inputs.len(),
{
    if inputs.len() == 0 {
        Seq::empty()
    } else {
        spec_insert(spec_build_generics(inputs.drop_last()), inputs.last().0, inputs.last().1)
    }
}

/// Whether every bound trait a generic-parameter list mentions is registered.
pub open spec fn generics_resolvable(inputs: Seq<(String, Vec<String>)>, store: Syntax) -> bool {
    forall|i: int, j: int|
        0 <= i < inputs.len() && 0 <= j < inputs[i].1@.len() ==> store.spec_has_struct(
            #[trigger] inputs[i].1@[j]@,
        )
}

/// The substitution map a declaration's own generic parameters induce: each
/// parameter stands for itself, bound to its trait constraints.
pub open spec fn own_generics_subs(generics: Seq<(String, Vec<String>)>) -> Seq<
    (Seq<char>, TypeV),
> {
    generics.map_values(|p: (String, Vec<String>)| (p.0@, TypeV::Generic(p.0@, p.1.deep_view())))
}

/// Builds the substitution map in which each of a declaration's generic
/// parameters is bound to its own generic form.
pub fn build_own_subs(generics: &Vec<(String, Vec<String>)>) -> (r: Vec<(String, FinalizedTypes)>)
    ensures
        subs_view(r@) == own_generics_subs(generics@),
{
    let mut r: Vec<(String, FinalizedTypes)> = Vec::new();
    let mut i: usize = 0;
    while i < generics.len()
        invariant
            i <= generics@.len(),
            r@.len() == i,
            forall|j: int|
                0 <= j < i ==> (#[trigger] subs_view(r@)[j]) == own_generics_subs(generics@)[j],
        decreases generics@.len() - i,
    {
        let name = generics[i].0.clone();
        let bounds = duplicate_names(&generics[i].1);
        let ghost pre = r@;
        r.push((name.clone(), FinalizedTypes::Generic(name, bounds)));
        proof {
            assert(r@[i as int].1@ =~= TypeV::Generic(generics@[i as int].0@, generics@[
                i as int].1.deep_view()));
            assert(subs_view(r@)[i as int] == own_generics_subs(generics@)[i as int]);
            assert forall|j: int|
                0 <= j < i implies (#[trigger] subs_view(r@)[j]) == own_generics_subs(
                generics@,
            )[j] by {
                assert(subs_view(pre)[j] == own_generics_subs(generics@)[j]);
                assert(r@[j] == pre[j]);
                assert(subs_view(r@)[j] == subs_view(pre)[j]);
            }
        }
        i += 1;
    }
    proof {
        assert(subs_view(r@) =~= own_generics_subs(generics@));
    }
    r
}

/// Finalizes a generic-parameter list into the ordered generics table,
/// resolving every bound trait against the store.
#[verifier::loop_isolation(false)]
pub fn finalize_generics(inputs: &Vec<(String, Vec<String>)>, syntax: &Syntax, span: &Span) -> (r:
    Outcome<Generics>)
    ensures
        match r {
            Outcome::Done(g) => generics_resolvable(inputs@, *syntax)
                && crate::generics::generics_entries(g) == spec_build_generics(
                generic_inputs_view(inputs@),
            ),
            Outcome::Failed(e) => !generics_resolvable(inputs@, *syntax) && syntax.finished_all
                && e.kind == ErrorKind::UnresolvedName && e.span == *span,
            Outcome::Waiting(n) => !generics_resolvable(inputs@, *syntax) && !syntax.finished_all
                && !syntax.spec_has_struct(n@),
        },
{
    let mut g = Generics::new();
    let mut i: usize = 0;
    while i < inputs.len()
        invariant
            i <= inputs@.len(),
            crate::generics::generics_entries(g) == spec_build_generics(
                generic_inputs_view(inputs@.take(i as int)),
            ),
            forall|a: int, b: int|
                0 <= a < i && 0 <= b < inputs@[a].1@.len() ==> syntax.spec_has_struct(
                    #[trigger] inputs@[a].1@[b]@,
                ),
        decreases inputs@.len() - i,
    {
        let bounds = &inputs[i].1;
        let mut j: usize = 0;
        while j < bounds.len()
            invariant
                j <= bounds@.len(),
                forall|b: int| 0 <= b < j ==> syntax.spec_has_struct(#[trigger] bounds@[b]@),
            decreases bounds@.len() - j,
        {
            if syntax.lookup_struct(&bounds[j]).is_none() {
                if syntax.all_finalized() {
                    return Outcome::Failed(
                        span.make_error(ErrorKind::UnresolvedName, "Unresolved bound".to_owned()),
                    );
                } else {
                    return Outcome::Waiting(bounds[j].clone());
                }
            }
            j += 1;
        }
        g.insert(inputs[i].0.clone(), duplicate_names(bounds));
        proof {
            assert(generic_inputs_view(inputs@.take(i + 1)).drop_last() =~= generic_inputs_view(
                inputs@.take(i as int),
            ));
            assert(generic_inputs_view(inputs@.take(i + 1)).last().0 == inputs@[i as int].0@);
            assert(generic_inputs_view(inputs@.take(i + 1)).last().1 == inputs@[
                i as int].1.deep_view());
        }
        i += 1;
    }
    proof {
        assert(inputs@.take(inputs@.len() as int) =~= inputs@);
    }
    Outcome::Done(g)
}

} // verus!
