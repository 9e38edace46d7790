//! The task coordinator: schedules concurrent units of work, such as
//! producing a specialized (degenericized) version of a generic method
//! header, without blocking the caller.  Jobs are identified by name; the
//! driver runs each spawned job and registers its result in the declaration
//! store, so resolution-protocol waiters are resumed.  No ordering is
//! guaranteed between independently spawned jobs.

use vstd::prelude::*;
use crate::errors::ErrorKind;
use crate::function::{CodelessFinalizedFunction, FunctionData};
use crate::resolve::Outcome;
use crate::store::Syntax;
use crate::tokens::Span;
use vstd::string::StringExecFns;

verus! {

/// A unit of background work.
pub enum Job {
    /// Produce a specialized, fully concrete header for the named generic
    /// method, registering it under the specialized name.
    DegenericHeader { target: String },
}

/// A spawned unit of work: the name identifying it, and the work itself.
pub struct SpawnedJob {
    pub name: String,
    pub job: Job,
}

/// The coordinator handle: the queue of spawned, not yet executed jobs.
pub struct HandleWrapper {
    pub jobs: Vec<SpawnedJob>,
}

impl HandleWrapper {
    /// A handle with no pending work.
    pub fn new() -> (r: HandleWrapper)
        ensures
            r.jobs@.len() == 0,
    {
        HandleWrapper { jobs: Vec::new() }
    }

    /// Schedules a unit of work under a name, without blocking the caller.
    pub fn spawn(&mut self, name: String, job: Job)
        ensures
            final(self).jobs@ == old(self).jobs@.push(SpawnedJob { name, job }),
    {
        self.jobs.push(SpawnedJob { name, job });
    }
}

/// The synthetic name a specialization of a method is registered under.
pub fn specialized_name(base: &String) -> (r: String)
    ensures
        r@ == base@ + "::degenericed"@,
{
    base.clone().concat("::degenericed")
}

/// Runs one degenericization job: produces a concrete header for the target
/// method and registers it in the store under the specialized name, resuming
/// waiters.  When the target's signature can never be found, an
/// unresolved-name diagnostic is recorded instead; either way the job ends.
pub fn run_job(job: &SpawnedJob, syntax: &mut Syntax) -> (r: Outcome<()>)
    ensures
        match r {
            Outcome::Done(_) => final(syntax).spec_has_function(job.job->DegenericHeader_target@
                + "::degenericed"@) && (!old(syntax).spec_has_function(
                job.job->DegenericHeader_target@ + "::degenericed"@,
            ) ==> final(syntax).spec_has_codeless(
                job.job->DegenericHeader_target@ + "::degenericed"@,
            ) && ({
                let ti = crate::store::function_index(
                    old(syntax).functions@,
                    job.job->DegenericHeader_target@,
                );
                let ni = crate::store::function_index(
                    final(syntax).functions@,
                    job.job->DegenericHeader_target@ + "::degenericed"@,
                );
                0 <= ti < old(syntax).functions@.len() && old(syntax).functions@[ti].codeless is Some && 0 <= ni < final(syntax).functions@.len()
                    && final(syntax).functions@[ni].codeless is Some && ({
                    let c = old(syntax).functions@[ti].codeless->Some_0;
                    let nc = final(syntax).functions@[ni].codeless->Some_0;
                    nc.arguments@.len() == c.arguments@.len() && (forall|a: int|
                        0 <= a < c.arguments@.len() ==> (#[trigger] nc.arguments@[a]).field.name@
                            == c.arguments@[a].field.name@ && nc.arguments@[a].field.field_type@
                            == c.arguments@[a].field.field_type@) && (match (
                        nc.return_type,
                        c.return_type,
                    ) {
                        (Option::Some(a), Option::Some(b)) => a@ == b@,
                        (Option::None, Option::None) => true,
                        _ => false,
                    }) && crate::generics::generics_entries(nc.generics)
                        == Seq::<(Seq<char>, Seq<Seq<char>>)>::empty()
                })
            })),
            Outcome::Failed(e) => e.kind == ErrorKind::UnresolvedName && final(syntax).finished_all
                && (crate::store::function_index(
                final(syntax).functions@,
                job.job->DegenericHeader_target@,
            ) == -1 || final(syntax).functions@[crate::store::function_index(
                final(syntax).functions@,
                job.job->DegenericHeader_target@,
            )].codeless is None),
            Outcome::Waiting(_) => !final(syntax).finished_all,
        },
        final(syntax).errors == old(syntax).errors,
        final(syntax).structures == old(syntax).structures,
        final(syntax).implementations == old(syntax).implementations,
        final(syntax).finished_all == old(syntax).finished_all,
        final(syntax).finished_impls == old(syntax).finished_impls,
        forall|n: Seq<char>|
            #[trigger] old(syntax).spec_has_function(n) ==> final(syntax).spec_has_function(n),
        forall|n: Seq<char>|
            #[trigger] old(syntax).spec_has_codeless(n) ==> final(syntax).spec_has_codeless(n),
        forall|n: Seq<char>|
            #[trigger] old(syntax).spec_has_finalized_function(n) ==> final(syntax).spec_has_finalized_function(n),
{
    match &job.job {
        Job::DegenericHeader { target } => {
            let new_name = specialized_name(target);
            if syntax.lookup_function(&new_name).is_some() {
                // The specialization is already registered; nothing to do.
                return Outcome::Done(());
            }
            let codeless: CodelessFinalizedFunction = match syntax.lookup_function(target) {
                Option::Some(entry) => match &entry.codeless {
                    Option::Some(codeless) => codeless.duplicate(),
                    Option::None => {
                        if syntax.all_finalized() {
                            return Outcome::Failed(
                                Span::make_empty().make_error(
                                    ErrorKind::UnresolvedName,
                                    "Unknown specialization target".to_owned(),
                                ),
                            );
                        } else {
                            return Outcome::Waiting(target.clone());
                        }
                    },
                },
                Option::None => {
                    if syntax.all_finalized() {
                        return Outcome::Failed(
                            Span::make_empty().make_error(
                                ErrorKind::UnresolvedName,
                                "Unknown specialization target".to_owned(),
                            ),
                        );
                    } else {
                        return Outcome::Waiting(target.clone());
                    }
                },
            };
            let specialized = CodelessFinalizedFunction {
                generics: crate::generics::Generics::new(),
                arguments: codeless.arguments,
                return_type: codeless.return_type,
                data: FunctionData {
                    attributes: codeless.data.attributes,
                    modifiers: codeless.data.modifiers,
                    name: new_name.clone(),
                },
                token: codeless.token,
            };
            let ghost s1_pre = *syntax;
            syntax.register_function_name(new_name.clone());
            let ghost s1 = *syntax;
            let _resumed = syntax.set_codeless(&new_name, specialized);
            proof {
                assert forall|n: Seq<char>|
                    #[trigger] old(syntax).spec_has_codeless(n) implies syntax.spec_has_codeless(
                    n,
                ) by {
                    assert(s1.spec_has_codeless(n));
                    if n == new_name@ {
                        assert(syntax.spec_has_codeless(n));
                    } else {
                        let k = choose|k: int|
                            0 <= k < s1.functions@.len() && s1.functions@[k].name@ == n
                                && s1.functions@[k].codeless is Some;
                        let i = choose|i: int|
                            0 <= i < s1.functions@.len() && s1.functions@[i].name@ == new_name@
                                && syntax.functions@ == s1.functions@.update(
                                i,
                                crate::store::FunctionEntry {
                                    name: s1.functions@[i].name,
                                    codeless: syntax.functions@[i].codeless,
                                    finalized: s1.functions@[i].finalized,
                                },
                            );
                        assert(k != i);
                        assert(syntax.functions@[k].name@ == n && syntax.functions@[k].codeless
                            is Some);
                    }
                }
                assert forall|n: Seq<char>|
                    #[trigger] old(syntax).spec_has_function(n) implies syntax.spec_has_function(
                    n,
                ) by {
                    assert(s1.spec_has_function(n));
                    let k = choose|k: int|
                        0 <= k < s1.functions@.len() && s1.functions@[k].name@ == n;
                    assert(syntax.functions@[k].name@ == n);
                }
                assert forall|n: Seq<char>|
                    #[trigger] old(syntax).spec_has_finalized_function(n) implies syntax
                    .spec_has_finalized_function(n) by {
                    assert(s1.spec_has_finalized_function(n));
                    let k = choose|k: int|
                        0 <= k < s1.functions@.len() && s1.functions@[k].name@ == n
                            && s1.functions@[k].finalized is Some;
                    assert(syntax.functions@[k].name@ == n && syntax.functions@[k].finalized
                        is Some);
                }
            }
            proof {
                let ti = crate::store::function_index(old(syntax).functions@, target@);
                let len0 = s1_pre.functions@.len() as int;
                assert(s1.functions@ == s1_pre.functions@.push(
                    crate::store::FunctionEntry {
                        name: new_name,
                        codeless: Option::None,
                        finalized: Option::None,
                    },
                ));
                let i2 = choose|i2: int|
                    0 <= i2 < s1.functions@.len() && s1.functions@[i2].name@ == new_name@
                        && syntax.functions@ == s1.functions@.update(
                        i2,
                        crate::store::FunctionEntry {
                            name: s1.functions@[i2].name,
                            codeless: Option::Some(specialized),
                            finalized: s1.functions@[i2].finalized,
                        },
                    );
                assert(i2 == len0);
                assert(syntax.functions@[i2].name@ == new_name@);
                assert(syntax.functions@[i2].codeless == Option::Some(specialized));
                assert forall|j: int| 0 <= j < i2 implies syntax.functions@[j].name@
                    != new_name@ by {
                    assert(syntax.functions@[j] == s1_pre.functions@[j]);
                }
                crate::store::lemma_function_index_prefix(syntax.functions@, new_name@, i2);
                assert(crate::store::function_index(syntax.functions@, new_name@) == i2);
            }
            Outcome::Done(())
        },
    }
}

} // verus!
