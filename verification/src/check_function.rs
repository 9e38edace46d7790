//! Function verification, in two phases.  The signature phase finalizes
//! every argument type, optionally wrapping each in a reference when the
//! calling convention passes by reference, and the return type, producing a
//! codeless-finalized function.  The body phase registers the signature in
//! the store so recursive and forward calls resolve against it, then checks
//! the body: a body that falls through without a declared return type gets
//! a synthesized implicit return; one that falls through despite a declared
//! return type is an incomplete-return error, unless the function is an
//! abstract trait-method declaration.

use vstd::prelude::*;
use crate::check_code::{
    SimpleVariableManager, lemma_body_predicates_equivalent, spec_body_simple_ok,
    spec_effect_resolves, spec_function_vars, verify_code,
};
use crate::coordinator::HandleWrapper;
use crate::errors::ErrorKind;
use crate::finalize::{
    build_own_subs, finalize_generics, finalize_type, own_generics_subs, spec_finalize_type,
    subs_view, type_resolvable,
};
use crate::function::{
    CodeBody, CodelessFinalizedFunction, ExpressionType, FinalizedCodeBody, FinalizedEffectType,
    FinalizedEffects, FinalizedExpression, FinalizedFunction, FunctionData, UnfinalizedFunction,
    spec_body_complete,
};
use crate::modifiers::{Modifier, is_modifier};
use crate::resolve::Outcome;
use crate::store::Syntax;
use crate::tokens::{CodeErrorToken, Span};
use crate::types::{FinalizedField, FinalizedMemberField, FinalizedTypes, TypeV,
    duplicate_attributes};

verus! {

/// The view an argument's finalized type must have: the finalization of the
/// written type, wrapped in a reference when the convention asks for it.
pub open spec fn spec_argument_type(
    written: TypeV,
    generics: Seq<(String, Vec<String>)>,
    include_refs: bool,
) -> TypeV {
    if include_refs {
        TypeV::Reference(Box::new(spec_finalize_type(written, own_generics_subs(generics))))
    } else {
        spec_finalize_type(written, own_generics_subs(generics))
    }
}

/// Whether every written type of a function's signature resolves: its
/// generic bounds, every argument type, and the return type when declared,
/// under the function's own generic parameters.
pub open spec fn spec_signature_resolvable(function: UnfinalizedFunction, store: Syntax) -> bool {
    crate::finalize::generics_resolvable(function.generics@, store) && (forall|i: int|
        0 <= i < function.fields@.len() ==> type_resolvable(
            (#[trigger] function.fields@[i]).field.field_type@,
            store,
            own_generics_subs(function.generics@),
        )) && (match function.return_type {
        Option::Some(t) => type_resolvable(t@, store, own_generics_subs(function.generics@)),
        Option::None => true,
    })
}

/// The signature phase: finalizes every argument type and the return type
/// against the store, producing the codeless-finalized function.
#[verifier::loop_isolation(false)]
pub fn verify_function(
    function: &UnfinalizedFunction,
    syntax: &Syntax,
    include_refs: bool,
) -> (r: Outcome<CodelessFinalizedFunction>)
    ensures
        match r {
            Outcome::Done(c) => spec_signature_resolvable(*function, *syntax) && c.data.name@
                == function.data.name@ && c.data.modifiers
                == function.data.modifiers && c.token == function.token
                && c.data.attributes@.len() == function.data.attributes@.len() && (forall|a: int|
                0 <= a < function.data.attributes@.len() ==> (#[trigger] c.data.attributes@[
                    a]).name@ == function.data.attributes@[a].name@) && c.arguments@.len()
                == function.fields@.len() && (forall|i: int|
                0 <= i < function.fields@.len() ==> (#[trigger] c.arguments@[i]).field.name@
                    == function.fields@[i].field.name@ && c.arguments@[i].modifiers
                    == function.fields@[i].modifiers && c.arguments@[i].attributes@.len()
                    == function.fields@[i].attributes@.len() && c.arguments@[i].field.field_type@
                    == spec_argument_type(
                    function.fields@[i].field.field_type@,
                    function.generics@,
                    include_refs,
                )) && (match (c.return_type, function.return_type) {
                (Option::Some(a), Option::Some(b)) => a@ == spec_finalize_type(
                    b@,
                    own_generics_subs(function.generics@),
                ),
                (Option::None, Option::None) => true,
                _ => false,
            }),
            Outcome::Failed(e) => e.kind == ErrorKind::UnresolvedName && syntax.finished_all
                && !spec_signature_resolvable(*function, *syntax) && e.span
                == function.token.span,
            Outcome::Waiting(_) => !syntax.finished_all && !spec_signature_resolvable(
                *function,
                *syntax,
            ),
        },
        spec_signature_resolvable(*function, *syntax) ==> r is Done,
{
    let span = function.token.span;
    let generics = match finalize_generics(&function.generics, syntax, &span) {
        Outcome::Done(g) => g,
        Outcome::Failed(e) => {
            return Outcome::Failed(e);
        },
        Outcome::Waiting(n) => {
            return Outcome::Waiting(n);
        },
    };
    let subs = build_own_subs(&function.generics);
    let mut arguments: Vec<FinalizedMemberField> = Vec::new();
    let mut i: usize = 0;
    while i < function.fields.len()
        invariant
            i <= function.fields@.len(),
            arguments@.len() == i,
            subs_view(subs@) == own_generics_subs(function.generics@),
            forall|j: int|
                0 <= j < i ==> (#[trigger] arguments@[j]).field.name@ == function.fields@[j].field
                    .name@ && arguments@[j].modifiers == function.fields@[j].modifiers
                    && arguments@[j].attributes@.len() == function.fields@[j].attributes@.len()
                    && arguments@[j].field.field_type@ == spec_argument_type(
                    function.fields@[j].field.field_type@,
                    function.generics@,
                    include_refs,
                ),
            forall|j: int|
                0 <= j < i ==> type_resolvable(
                    (#[trigger] function.fields@[j]).field.field_type@,
                    *syntax,
                    own_generics_subs(function.generics@),
                ),
        decreases function.fields@.len() - i,
    {
        let member = &function.fields[i];
        let finalized = match finalize_type(&member.field.field_type, syntax, &subs, &span) {
            Outcome::Done(t) => t,
            Outcome::Failed(e) => {
                return Outcome::Failed(e);
            },
            Outcome::Waiting(n) => {
                return Outcome::Waiting(n);
            },
        };
        let field_type = if include_refs {
            FinalizedTypes::Reference(Box::new(finalized))
        } else {
            finalized
        };
        arguments.push(
            FinalizedMemberField {
                modifiers: member.modifiers,
                attributes: duplicate_attributes(&member.attributes),
                field: FinalizedField { name: member.field.name.clone(), field_type },
            },
        );
        i += 1;
    }
    let return_type = match &function.return_type {
        Option::Some(written) => {
            match finalize_type(written, syntax, &subs, &span) {
                Outcome::Done(t) => Option::Some(t),
                Outcome::Failed(e) => {
                    return Outcome::Failed(e);
                },
                Outcome::Waiting(n) => {
                    return Outcome::Waiting(n);
                },
            }
        },
        Option::None => Option::None,
    };
    Outcome::Done(
        CodelessFinalizedFunction {
            generics,
            arguments,
            return_type,
            data: FunctionData {
                attributes: duplicate_attributes(&function.data.attributes),
                modifiers: function.data.modifiers,
                name: function.data.name.clone(),
            },
            token: function.token,
        },
    )
}

/// The body phase.  Registers the codeless signature in the store, so
/// recursive and forward calls resolve against it; internal and extern
/// functions are finalized with an empty, already complete body.  When the
/// checked body does not return: with no declared return type an implicit
/// empty return is synthesized; with one, the incomplete-return error is
/// raised, unless the function is an abstract trait-method declaration.
#[verifier::loop_isolation(false)]
pub fn verify_function_code(
    subs: &Vec<(String, FinalizedTypes)>,
    handle: &mut HandleWrapper,
    code: &CodeBody,
    codeless: CodelessFinalizedFunction,
    syntax: &mut Syntax,
) -> (r: Outcome<FinalizedFunction>)
    requires
        old(syntax).spec_has_function(codeless.data.name@),
    ensures
        final(syntax).spec_has_codeless(codeless.data.name@),
        final(syntax).structures == old(syntax).structures,
        final(syntax).implementations == old(syntax).implementations,
        final(syntax).errors == old(syntax).errors,
        final(syntax).waiters@ == old(syntax).waiters@.filter(
            (|w: crate::store::Waiter| w.name@ != codeless.data.name@),
        ),
        final(syntax).finished_impls == old(syntax).finished_impls,
        final(syntax).finished_all == old(syntax).finished_all,
        forall|n: Seq<char>|
            #[trigger] old(syntax).spec_has_function(n) ==> final(syntax).spec_has_function(n),
        forall|n: Seq<char>|
            #[trigger] old(syntax).spec_has_codeless(n) ==> final(syntax).spec_has_codeless(n),
        forall|n: Seq<char>|
            #[trigger] old(syntax).spec_has_finalized_function(n) ==> final(syntax).spec_has_finalized_function(n),
        (is_modifier(codeless.data.modifiers, Modifier::Internal) || is_modifier(
            codeless.data.modifiers,
            Modifier::Extern,
        )) ==> r is Done,
        match r {
            Outcome::Done(f) => f.data.name@ == codeless.data.name@ && f.data.modifiers
                == codeless.data.modifiers && ((is_modifier(codeless.data.modifiers,
                Modifier::Internal) || is_modifier(codeless.data.modifiers, Modifier::Extern))
                ==> f.code.complete && f.code.expressions@.len() == 0) && ((!is_modifier(
                codeless.data.modifiers,
                Modifier::Internal,
            ) && !is_modifier(codeless.data.modifiers, Modifier::Extern)) ==> (f.code.complete
                == spec_body_complete(f.code.expressions@) && (codeless.return_type is None
                ==> f.code.complete) && (codeless.return_type is Some && !is_modifier(
                codeless.data.modifiers,
                Modifier::Trait,
            ) ==> f.code.complete) && (f.code.expressions@.len() == code.expressions@.len()
                || (codeless.return_type is None && f.code.expressions@.len()
                    == code.expressions@.len() + 1)) && (forall|i: int|
                0 <= i < code.expressions@.len() ==> spec_effect_resolves(
                    *final(syntax),
                    spec_function_vars(codeless),
                    (#[trigger] code.expressions@[i]).effect,
                    f.code.expressions@[i].effect,
                )))),
            Outcome::Failed(e) => (e.kind == ErrorKind::IncompleteReturn ==> (
            codeless.return_type is Some && !is_modifier(codeless.data.modifiers, Modifier::Trait)
                && e.span == codeless.token.span)) && (e.kind != ErrorKind::IncompleteReturn
                ==> code.expressions@.len() > 0 && !spec_body_simple_ok(
                *final(syntax),
                spec_function_vars(codeless),
                *code,
                codeless.return_type,
            )),
            Outcome::Waiting(_) => !final(syntax).finished_all || !final(syntax).finished_impls,
        },
        (!is_modifier(codeless.data.modifiers, Modifier::Internal) && !is_modifier(
            codeless.data.modifiers,
            Modifier::Extern,
        ) && codeless.return_type is None && spec_body_simple_ok(
            *final(syntax),
            spec_function_vars(codeless),
            *code,
            codeless.return_type,
        )) ==> r is Done,
{
    let name = codeless.data.name.clone();
    let modifiers = codeless.data.modifiers;
    let registered = codeless.duplicate();
    // Registration resumes every callback under the name; the scheduler
    // re-polls each resumed task, so the list is not queued separately here.
    let _resumed = syntax.set_codeless(&name, registered);
    proof {
        let i = choose|i: int|
            0 <= i < old(syntax).functions@.len() && old(syntax).functions@[i].name@ == name@
                && syntax.functions@ == old(syntax).functions@.update(
                i,
                crate::store::FunctionEntry {
                    name: old(syntax).functions@[i].name,
                    codeless: Option::Some(registered),
                    finalized: old(syntax).functions@[i].finalized,
                },
            );
        assert forall|n: Seq<char>|
            #[trigger] old(syntax).spec_has_codeless(n) implies syntax.spec_has_codeless(n) by {
            let k = choose|k: int|
                0 <= k < old(syntax).functions@.len() && old(syntax).functions@[k].name@ == n
                    && old(syntax).functions@[k].codeless is Some;
            assert(syntax.functions@[k].name@ == n && syntax.functions@[k].codeless is Some);
        }
        assert forall|n: Seq<char>|
            #[trigger] old(syntax).spec_has_function(n) implies syntax.spec_has_function(n) by {
            let k = choose|k: int|
                0 <= k < old(syntax).functions@.len() && old(syntax).functions@[k].name@ == n;
            assert(syntax.functions@[k].name@ == n);
        }
        assert forall|n: Seq<char>|
            #[trigger] old(syntax).spec_has_finalized_function(n) implies syntax
            .spec_has_finalized_function(n) by {
            let k = choose|k: int|
                0 <= k < old(syntax).functions@.len() && old(syntax).functions@[k].name@ == n
                    && old(syntax).functions@[k].finalized is Some;
            assert(syntax.functions@[k].name@ == n && syntax.functions@[k].finalized is Some);
        }
    }
    if is_modifier(modifiers, Modifier::Internal) || is_modifier(modifiers, Modifier::Extern) {
        // Internal and extern functions verify everything but the code.
        return Outcome::Done(
            codeless.add_code(FinalizedCodeBody::new(Vec::new(), String::new(), true)),
        );
    }
    let variable_manager = SimpleVariableManager::for_function(&codeless);
    proof {
        assert forall|i: int| 0 <= i < variable_manager.variables@.len() implies (
        #[trigger] variable_manager.variables@[i]).0@ == spec_function_vars(codeless)[i].0@
            && variable_manager.variables@[i].1@ == spec_function_vars(codeless)[i].1@ by {}
        lemma_body_predicates_equivalent(
            *syntax,
            variable_manager.variables@,
            spec_function_vars(codeless),
            *code,
            codeless.return_type,
        );
    }
    let mut checked = match verify_code(
        subs,
        handle,
        code,
        &codeless.return_type,
        syntax,
        &variable_manager,
    ) {
        Outcome::Done(b) => b,
        Outcome::Failed(e) => {
            return Outcome::Failed(e);
        },
        Outcome::Waiting(n) => {
            return Outcome::Waiting(n);
        },
    };
    if !checked.complete {
        if codeless.return_type.is_none() {
            // Synthesize the implicit empty return at the end of the body.
            let implicit = FinalizedExpression::new(
                ExpressionType::Return(CodeErrorToken::make_empty()),
                FinalizedEffects::new(Span::make_empty(), FinalizedEffectType::NOP),
            );
            let mut expressions = checked.expressions;
            expressions.push(implicit);
            checked = FinalizedCodeBody::new(expressions, checked.label, true);
        } else if !is_modifier(modifiers, Modifier::Trait) {
            return Outcome::Failed(
                codeless.token.make_error(
                    ErrorKind::IncompleteReturn,
                    "Function does not return a value on every path".to_owned(),
                ),
            );
        }
    }
    Outcome::Done(codeless.add_code(checked))
}

} // verus!
