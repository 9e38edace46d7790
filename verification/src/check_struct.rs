//! Struct verification: finalizes every field's type against the store,
//! delegating to the type finalizer.  A field type that can never resolve
//! poisons the struct instead of failing it: the poisoned struct still
//! carries its name and fields, so dependents can continue checking.

use vstd::prelude::*;
use crate::errors::ParsingError;
use crate::finalize::{
    build_own_subs, finalize_generics, finalize_type, generics_resolvable, own_generics_subs,
    spec_finalize_type, type_resolvable,
};
use crate::generics::Generics;
use crate::resolve::Outcome;
use crate::store::Syntax;
use crate::structure::{FinalizedStruct, Struct};
use crate::tokens::Span;
use crate::types::{FinalizedField, FinalizedMemberField, FinalizedTypes, duplicate_attributes,
    duplicate_names};

verus! {

/// Whether every field type of the declaration resolves against the store,
/// under the declaration's own generic parameters.
pub open spec fn spec_struct_resolvable(structure: Struct, store: Syntax) -> bool {
    generics_resolvable(structure.generics@, store) && (forall|i: int|
        0 <= i < structure.fields@.len() ==> type_resolvable(
            (#[trigger] structure.fields@[i]).field.field_type@,
            store,
            own_generics_subs(structure.generics@),
        ))
}

/// Verifies a struct declaration: finalizes every field's type.  The result
/// keeps the declaration's name, modifiers, and field names; its poison
/// list is empty exactly when everything resolved, and a poisoned struct is
/// still a usable, named stand-in.  The verifier never fails hard; it
/// suspends only while checking is still running.
#[verifier::loop_isolation(false)]
pub fn verify_struct(structure: &Struct, syntax: &Syntax) -> (r: Outcome<FinalizedStruct>)
    ensures
        match r {
            Outcome::Done(f) => f.name@ == structure.name@ && f.modifiers == structure.modifiers
                && f.fields@.len() == structure.fields@.len() && (forall|i: int|
                0 <= i < structure.fields@.len() ==> (#[trigger] f.fields@[i]).field.name@
                    == structure.fields@[i].field.name@) && ((f.poisoned@.len() == 0)
                <==> spec_struct_resolvable(*structure, *syntax)) && (forall|i: int|
                0 <= i < structure.fields@.len() && type_resolvable(
                    (#[trigger] structure.fields@[i]).field.field_type@,
                    *syntax,
                    own_generics_subs(structure.generics@),
                ) ==> f.fields@[i].field.field_type@ == spec_finalize_type(
                    structure.fields@[i].field.field_type@,
                    own_generics_subs(structure.generics@),
                )),
            Outcome::Failed(_) => false,
            Outcome::Waiting(_) => !syntax.finished_all,
        },
{
    let span = Span::make_empty();
    let mut poisoned: Vec<ParsingError> = Vec::new();
    let generics_table: Generics = match finalize_generics(&structure.generics, syntax, &span) {
        Outcome::Done(g) => g,
        Outcome::Failed(e) => {
            poisoned.push(e);
            Generics::new()
        },
        Outcome::Waiting(n) => {
            return Outcome::Waiting(n);
        },
    };
    let subs = build_own_subs(&structure.generics);
    let mut fields: Vec<FinalizedMemberField> = Vec::new();
    let mut i: usize = 0;
    while i < structure.fields.len()
        invariant
            i <= structure.fields@.len(),
            fields@.len() == i,
            crate::finalize::subs_view(subs@) == own_generics_subs(structure.generics@),
            forall|j: int|
                0 <= j < i ==> (#[trigger] fields@[j]).field.name@ == structure.fields@[j].field
                    .name@,
            forall|j: int|
                0 <= j < i && type_resolvable(
                    (#[trigger] structure.fields@[j]).field.field_type@,
                    *syntax,
                    own_generics_subs(structure.generics@),
                ) ==> fields@[j].field.field_type@ == spec_finalize_type(
                    structure.fields@[j].field.field_type@,
                    own_generics_subs(structure.generics@),
                ),
            (poisoned@.len() == 0) <==> (generics_resolvable(structure.generics@, *syntax) && (
            forall|j: int|
                0 <= j < i ==> type_resolvable(
                    (#[trigger] structure.fields@[j]).field.field_type@,
                    *syntax,
                    own_generics_subs(structure.generics@),
                ))),
        decreases structure.fields@.len() - i,
    {
        let member = &structure.fields[i];
        let finalized_type: FinalizedTypes = match finalize_type(
            &member.field.field_type,
            syntax,
            &subs,
            &span,
        ) {
            Outcome::Done(t) => t,
            Outcome::Failed(e) => {
                poisoned.push(e);
                FinalizedTypes::Struct("void".to_owned(), Vec::new())
            },
            Outcome::Waiting(n) => {
                return Outcome::Waiting(n);
            },
        };
        fields.push(
            FinalizedMemberField {
                modifiers: member.modifiers,
                attributes: duplicate_attributes(&member.attributes),
                field: FinalizedField {
                    name: member.field.name.clone(),
                    field_type: finalized_type,
                },
            },
        );
        i += 1;
    }
    Outcome::Done(
        FinalizedStruct {
            modifiers: structure.modifiers,
            name: structure.name.clone(),
            generics: generics_table,
            fields,
            functions: duplicate_names(&structure.functions),
            traits: duplicate_names(&structure.traits),
            poisoned,
        },
    )
}

} // verus!
