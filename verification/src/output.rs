//! The concrete checker: a wrapper around the data checkers use.  It owns
//! the coordinator handle and the current generics substitution map, drives
//! the two verification phases, and turns every checking failure into a
//! recorded diagnostic plus a placeholder result, so one bad declaration
//! yields one diagnostic instead of aborting the run.

use vstd::prelude::*;
use crate::check_function::{verify_function, verify_function_code, spec_argument_type};
use crate::check_struct::verify_struct;
use crate::coordinator::HandleWrapper;
use crate::function::{
    CodeBody, CodelessFinalizedFunction, FinalizedCodeBody, FinalizedFunction, FunctionData,
    UnfinalizedFunction,
};
use crate::generics::Generics;
use crate::resolve::Outcome;
use crate::store::Syntax;
use crate::structure::{FinalizedStruct, Struct};
use crate::tokens::CodeErrorToken;
use crate::types::FinalizedTypes;

verus! {

/// Wrapper around data used by checkers.
pub struct TypesChecker {
    /// The coordinator handle background work is spawned through.
    pub runtime: HandleWrapper,
    /// Generics bound in the current context.
    pub generics: Vec<(String, FinalizedTypes)>,
    /// Whether argument types are wrapped in references.
    pub include_refs: bool,
}

impl TypesChecker {
    /// Makes a new TypesChecker.
    pub fn new(runtime: HandleWrapper, include_refs: bool) -> (r: TypesChecker)
        ensures
            r.runtime == runtime,
            r.generics@.len() == 0,
            r.spec_include_refs() == include_refs,
    {
        TypesChecker { runtime, generics: Vec::new(), include_refs }
    }

    /// Whether argument types are wrapped in references.
    pub open spec fn spec_include_refs(&self) -> bool {
        self.include_refs
    }

    /// The coordinator handle.
    pub fn handle(&self) -> (r: &HandleWrapper)
        ensures
            *r == self.runtime,
    {
        &self.runtime
    }

    /// The generics bound in the current context.
    pub fn generics(&self) -> (r: &Vec<(String, FinalizedTypes)>)
        ensures
            *r == self.generics,
    {
        &self.generics
    }

    /// Binds a generic in the current context: rebinding a name replaces
    /// its binding in place, as an insert into the original map did; a new
    /// name is bound last.
    pub fn mut_generics(&mut self, name: String, bound: FinalizedTypes)
        ensures
            ({
                let idx = crate::finalize::sub_index(
                    crate::finalize::subs_view(old(self).generics@),
                    name@,
                );
                if idx == -1 {
                    final(self).generics@ == old(self).generics@.push((name, bound))
                } else {
                    final(self).generics@ == old(self).generics@.update(idx, (name, bound))
                }
            }),
            final(self).runtime == old(self).runtime,
            final(self).spec_include_refs() == old(self).spec_include_refs(),
    {
        let mut i: usize = 0;
        while i < self.generics.len()
            invariant
                i <= self.generics@.len(),
                forall|j: int| 0 <= j < i ==> (#[trigger] self.generics@[j]).0@ != name@,
                *self == *old(self),
            decreases self.generics@.len() - i,
        {
            if self.generics[i].0.eq(&name) {
                proof {
                    assert(forall|j: int|
                        0 <= j < i ==> crate::finalize::subs_view(self.generics@)[j].0 != name@);
                    crate::finalize::lemma_sub_index_prefix(
                        crate::finalize::subs_view(self.generics@),
                        name@,
                        i as int,
                    );
                }
                let _old_binding = self.generics.remove(i);
                self.generics.insert(i, (name, bound));
                proof {
                    assert(self.generics@ =~= old(self).generics@.update(i as int, self.generics@[
                        i as int]));
                }
                return ;
            }
            i += 1;
        }
        proof {
            assert(forall|j: int|
                0 <= j < self.generics@.len() ==> crate::finalize::subs_view(self.generics@)[j].0
                    != name@);
            crate::finalize::lemma_sub_index_none(
                crate::finalize::subs_view(self.generics@),
                name@,
            );
        }
        self.generics.push((name, bound));
    }

    /// A checker sharing this one's configuration, with no pending work.
    pub fn cloned(&self) -> (r: TypesChecker)
        ensures
            r.spec_include_refs() == self.spec_include_refs(),
            r.generics@.len() == 0,
            r.runtime.jobs@.len() == 0,
    {
        TypesChecker {
            runtime: HandleWrapper::new(),
            generics: Vec::new(),
            include_refs: self.include_refs,
        }
    }

    /// The signature phase of function verification.  A failure is recorded
    /// in the store's error list and a placeholder codeless function with an
    /// empty name is handed back, so downstream consumers still get a value.
    pub fn verify_func(&mut self, function: &UnfinalizedFunction, syntax: &mut Syntax) -> (r:
        Outcome<CodelessFinalizedFunction>)
        ensures
            final(syntax).structures == old(syntax).structures,
            final(syntax).functions == old(syntax).functions,
            final(syntax).implementations == old(syntax).implementations,
            final(syntax).waiters == old(syntax).waiters,
            final(syntax).finished_all == old(syntax).finished_all,
            final(syntax).finished_impls == old(syntax).finished_impls,
            match r {
                Outcome::Done(c) => (final(syntax).errors == old(syntax).errors && c.data.name@
                    == function.data.name@ && c.arguments@.len() == function.fields@.len() && (
                forall|i: int|
                    0 <= i < function.fields@.len() ==> (#[trigger] c.arguments@[i]).field.name@
                        == function.fields@[i].field.name@ && c.arguments@[i].field.field_type@
                        == spec_argument_type(
                        function.fields@[i].field.field_type@,
                        function.generics@,
                        old(self).spec_include_refs(),
                    )) && (match (c.return_type, function.return_type) {
                    (Option::Some(a), Option::Some(b)) => a@
                        == crate::finalize::spec_finalize_type(
                        b@,
                        crate::finalize::own_generics_subs(function.generics@),
                    ),
                    (Option::None, Option::None) => true,
                    _ => false,
                })) || (final(syntax).errors@ == old(syntax).errors@.push(
                    final(syntax).errors@.last(),
                ) && final(syntax).errors@.last().kind == crate::errors::ErrorKind::UnresolvedName
                    && final(syntax).errors@.last().span == function.token.span && final(syntax).finished_all && c.data.name@ == Seq::<char>::empty() && c.arguments@.len() == 0
                    && c.return_type is None),
                Outcome::Failed(_) => false,
                Outcome::Waiting(_) => !final(syntax).finished_all && final(syntax).errors == old(syntax).errors,
            },
            crate::check_function::spec_signature_resolvable(*function, *old(syntax)) ==> (r
                is Done && final(syntax).errors == old(syntax).errors),
    {
        match verify_function(function, syntax, self.include_refs) {
            Outcome::Done(c) => Outcome::Done(c),
            Outcome::Failed(error) => {
                syntax.record_error(error);
                Outcome::Done(
                    CodelessFinalizedFunction {
                        generics: Generics::new(),
                        arguments: Vec::new(),
                        return_type: Option::None,
                        data: FunctionData::new(Vec::new(), 0, String::new()),
                        token: CodeErrorToken::make_empty(),
                    },
                )
            },
            Outcome::Waiting(n) => Outcome::Waiting(n),
        }
    }

    /// The body phase of function verification.  A failure is recorded in
    /// the store's error list, exactly one diagnostic per failing body, and
    /// a placeholder finalized function is handed back, so checking of
    /// subsequent declarations still proceeds.
    pub fn verify_code(
        &mut self,
        function: CodelessFinalizedFunction,
        code: &CodeBody,
        syntax: &mut Syntax,
    ) -> (r: Outcome<FinalizedFunction>)
        requires
            old(syntax).spec_has_function(function.data.name@),
        ensures
            final(syntax).structures == old(syntax).structures,
            final(syntax).implementations == old(syntax).implementations,
            final(syntax).finished_all == old(syntax).finished_all,
            final(syntax).finished_impls == old(syntax).finished_impls,
            forall|n: Seq<char>|
                #[trigger] old(syntax).spec_has_function(n) ==> final(syntax).spec_has_function(n),
            forall|n: Seq<char>|
                #[trigger] old(syntax).spec_has_codeless(n) ==> final(syntax).spec_has_codeless(n),
            forall|n: Seq<char>|
                #[trigger] old(syntax).spec_has_finalized_function(n) ==> final(syntax).spec_has_finalized_function(n),
            final(syntax).spec_has_codeless(function.data.name@),
            match r {
                Outcome::Done(f) => (final(syntax).errors == old(syntax).errors && f.data.name@
                    == function.data.name@ && (function.return_type is None
                    && !crate::modifiers::is_modifier(
                    function.data.modifiers,
                    crate::modifiers::Modifier::Internal,
                ) && !crate::modifiers::is_modifier(
                    function.data.modifiers,
                    crate::modifiers::Modifier::Extern,
                ) ==> f.code.complete)) || (final(syntax).errors@ == old(syntax).errors@.push(
                    final(syntax).errors@.last(),
                ) && final(syntax).errors@.last().kind != crate::errors::ErrorKind::IncompleteReturn
                    && f.data.name@ == Seq::<char>::empty() && f.code.expressions@.len() == 0) || (
                final(syntax).errors@ == old(syntax).errors@.push(final(syntax).errors@.last())
                    && final(syntax).errors@.last().kind
                    == crate::errors::ErrorKind::IncompleteReturn && function.return_type is Some
                    && !crate::modifiers::is_modifier(
                    function.data.modifiers,
                    crate::modifiers::Modifier::Trait,
                ) && f.data.name@ == Seq::<char>::empty() && f.code.expressions@.len() == 0),
                Outcome::Failed(_) => false,
                Outcome::Waiting(_) => !final(syntax).finished_all || !final(syntax).finished_impls,
            },
    {
        match verify_function_code(&self.generics, &mut self.runtime, code, function, syntax) {
            Outcome::Done(f) => Outcome::Done(f),
            Outcome::Failed(error) => {
                syntax.record_error(error);
                Outcome::Done(
                    FinalizedFunction {
                        generics: Generics::new(),
                        fields: Vec::new(),
                        code: FinalizedCodeBody::new(Vec::new(), String::new(), false),
                        return_type: Option::None,
                        data: FunctionData::new(Vec::new(), 0, String::new()),
                        token: CodeErrorToken::make_empty(),
                    },
                )
            },
            Outcome::Waiting(n) => Outcome::Waiting(n),
        }
    }

    /// Struct verification: delegates to the struct verifier, which never
    /// fails hard; a poisoned result carries its errors with it.
    pub fn verify_struct(&mut self, structure: &Struct, syntax: &mut Syntax) -> (r: Outcome<
        FinalizedStruct,
    >)
        ensures
            *final(syntax) == *old(syntax),
            match r {
                Outcome::Done(f) => f.name@ == structure.name@ && f.modifiers
                    == structure.modifiers && f.fields@.len() == structure.fields@.len() && (
                forall|i: int|
                    0 <= i < structure.fields@.len() ==> (#[trigger] f.fields@[i]).field.name@
                        == structure.fields@[i].field.name@) && ((f.poisoned@.len() == 0)
                    <==> crate::check_struct::spec_struct_resolvable(*structure, *old(syntax)))
                    && (forall|i: int|
                    0 <= i < structure.fields@.len() && crate::finalize::type_resolvable(
                        (#[trigger] structure.fields@[i]).field.field_type@,
                        *old(syntax),
                        crate::finalize::own_generics_subs(structure.generics@),
                    ) ==> f.fields@[i].field.field_type@ == crate::finalize::spec_finalize_type(
                        structure.fields@[i].field.field_type@,
                        crate::finalize::own_generics_subs(structure.generics@),
                    )),
                Outcome::Failed(_) => false,
                Outcome::Waiting(_) => !final(syntax).finished_all,
            },
    {
        match verify_struct(structure, syntax) {
            Outcome::Done(f) => Outcome::Done(f),
            Outcome::Failed(e) => Outcome::Failed(e),
            Outcome::Waiting(n) => Outcome::Waiting(n),
        }
    }
}

} // verus!
