//! The cooperative driver.  Any number of struct and function verification
//! tasks are conceptually in flight; each poll of a task either completes
//! it or suspends on a named declaration through the resolution protocol.
//! The driver re-polls suspended tasks as registrations wake their waiters,
//! raises the liveness signal once no further checking can make progress,
//! and then forces every remaining task to completion: a poll under the
//! liveness signal can no longer suspend, so every declaration is
//! eventually produced, possibly poisoned, and no waiter starves.

use vstd::prelude::*;
use crate::coordinator::run_job;
use crate::function::UnfinalizedFunction;
use crate::output::TypesChecker;
use crate::resolve::Outcome;
use crate::store::{Syntax, TraitImpl};
use crate::structure::Struct;

verus! {

/// The invariant the driver maintains across polls: every declared name
/// stays registered, completed structs stay finalized, and a function past
/// its signature phase keeps its codeless signature available.
pub open spec fn driver_inv(
    syntax: Syntax,
    structs: Seq<Struct>,
    functions: Seq<UnfinalizedFunction>,
    struct_done: Seq<bool>,
    fn_phase: Seq<u8>,
) -> bool {
    &&& struct_done.len() == structs.len()
    &&& fn_phase.len() == functions.len()
    &&& (forall|j: int| 0 <= j < fn_phase.len() ==> (#[trigger] fn_phase[j]) <= 2)
    &&& (forall|j: int|
        0 <= j < structs.len() ==> syntax.spec_has_struct((#[trigger] structs[j]).name@))
    &&& (forall|j: int|
        0 <= j < functions.len() ==> syntax.spec_has_function(
            (#[trigger] functions[j]).data.name@,
        ))
    &&& (forall|j: int|
        0 <= j < structs.len() && struct_done[j] ==> syntax.spec_has_finalized_struct(
            (#[trigger] structs[j]).name@,
        ))
    &&& (forall|j: int|
        0 <= j < functions.len() && fn_phase[j] == 2 ==> syntax.spec_has_finalized_function(
            (#[trigger] functions[j]).data.name@,
        ))
}

/// One poll of one struct task.  On completion the finalized struct is
/// registered, its poison errors are recorded on the process-wide list, and
/// waiters on its name are resumed.
#[verifier::loop_isolation(false)]
fn poll_struct(
    checker: &mut TypesChecker,
    syntax: &mut Syntax,
    structure: &Struct,
    task: usize,
) -> (done: bool)
    requires
        old(syntax).spec_has_struct(structure.name@),
    ensures
        done ==> final(syntax).spec_has_finalized_struct(structure.name@),
        !done ==> !final(syntax).finished_all,
        final(syntax).finished_all == old(syntax).finished_all,
        final(syntax).finished_impls == old(syntax).finished_impls,
        final(syntax).functions == old(syntax).functions,
        final(syntax).implementations == old(syntax).implementations,
        forall|n: Seq<char>| #[trigger] old(syntax).spec_has_struct(n) ==> final(syntax).spec_has_struct(n),
        forall|n: Seq<char>|
            #[trigger] old(syntax).spec_has_finalized_struct(n) ==> final(syntax).spec_has_finalized_struct(
                n,
            ),
{
    match checker.verify_struct(structure, syntax) {
        Outcome::Done(f) => {
            let mut p: usize = 0;
            let ghost mid = *syntax;
            while p < f.poisoned.len()
                invariant
                    p <= f.poisoned@.len(),
                    syntax.structures == mid.structures,
                    syntax.functions == mid.functions,
                    syntax.implementations == mid.implementations,
                    syntax.finished_all == mid.finished_all,
                    syntax.finished_impls == mid.finished_impls,
                decreases f.poisoned@.len() - p,
            {
                let e = f.poisoned[p].duplicate();
                syntax.record_error(e);
                p += 1;
            }
            let ghost pre2 = *syntax;
            // Finalization resumes every callback under the name; the round
            // scheduler re-polls each suspended task, so the resumed list
            // needs no separate queue.
            let _resumed = syntax.set_finalized_struct(&structure.name, f);
            proof {
                assert forall|n: Seq<char>|
                    #[trigger] old(syntax).spec_has_struct(n) implies syntax.spec_has_struct(n) by {
                    assert(old(syntax).structures@ == pre2.structures@);
                    assert(pre2.spec_has_struct(n));
                }
                assert forall|n: Seq<char>|
                    #[trigger] old(syntax).spec_has_finalized_struct(n) implies syntax
                    .spec_has_finalized_struct(n) by {
                    assert(old(syntax).structures@ == pre2.structures@);
                    assert(pre2.spec_has_finalized_struct(n));
                }
            }
            true
        },
        Outcome::Failed(_) => {
            proof {
                assert(false);
            }
            false
        },
        Outcome::Waiting(n) => {
            syntax.register_waiter(n, task);
            false
        },
    }
}

/// One poll of one function task.  The signature phase stores the codeless
/// signature, or finalizes a placeholder at once when the signature could
/// never resolve; the body phase finalizes the function, possibly as a
/// placeholder with its diagnostic recorded.  Waiters on the function's
/// name are resumed at each registration.
#[verifier::loop_isolation(false)]
fn poll_function(
    checker: &mut TypesChecker,
    syntax: &mut Syntax,
    function: &UnfinalizedFunction,
    phase: u8,
    task: usize,
) -> (new_phase: u8)
    requires
        old(syntax).spec_has_function(function.data.name@),
        phase == 0 || phase == 1,
    ensures
        new_phase == phase || new_phase == phase + 1 || new_phase == 2,
        new_phase == phase ==> !final(syntax).finished_all || !final(syntax).finished_impls,
        new_phase == 2 ==> final(syntax).spec_has_finalized_function(function.data.name@),
        final(syntax).finished_all == old(syntax).finished_all,
        final(syntax).finished_impls == old(syntax).finished_impls,
        final(syntax).structures == old(syntax).structures,
        final(syntax).implementations == old(syntax).implementations,
        forall|n: Seq<char>|
            #[trigger] old(syntax).spec_has_function(n) ==> final(syntax).spec_has_function(n),
        forall|n: Seq<char>|
            #[trigger] old(syntax).spec_has_codeless(n) ==> final(syntax).spec_has_codeless(n),
        forall|n: Seq<char>|
            #[trigger] old(syntax).spec_has_finalized_function(n) ==> final(syntax).spec_has_finalized_function(n),
        forall|n: Seq<char>|
            #[trigger] old(syntax).spec_has_struct(n) == final(syntax).spec_has_struct(n),
        forall|n: Seq<char>|
            #[trigger] old(syntax).spec_has_finalized_struct(n) == final(syntax).spec_has_finalized_struct(
                n,
            ),
{
    if phase == 0 {
        match checker.verify_func(function, syntax) {
            Outcome::Done(codeless) => {
                if codeless.data.name.as_str().is_empty() {
                    // The signature could never resolve; its diagnostic is
                    // recorded and a placeholder finalized function stands
                    // in so downstream consumers still get a value.
                    let placeholder = codeless.add_code(
                        crate::function::FinalizedCodeBody::new(
                            Vec::new(),
                            String::new(),
                            false,
                        ),
                    );
                    let ghost pre2 = *syntax;
                    let _resumed = syntax.set_finalized_function(&function.data.name, placeholder);
                    proof {
                        let i = choose|i: int|
                            0 <= i < pre2.functions@.len() && pre2.functions@[i].name@ == function.data
                                .name@ && syntax.functions@ == pre2.functions@.update(
                                i,
                                crate::store::FunctionEntry {
                                    name: pre2.functions@[i].name,
                                    codeless: pre2.functions@[i].codeless,
                                    finalized: Option::Some(placeholder),
                                },
                            );
                        crate::store::lemma_update_preserves(pre2.functions@, syntax.functions@, i);
                        assert forall|n: Seq<char>|
                            #[trigger] old(syntax).spec_has_function(n) implies syntax.spec_has_function(
                            n,
                        ) by {
                            assert(pre2.spec_has_function(n));
                        }
                        assert forall|n: Seq<char>|
                            #[trigger] old(syntax).spec_has_codeless(n) implies syntax.spec_has_codeless(
                            n,
                        ) by {
                            assert(pre2.spec_has_codeless(n));
                        }
                        assert forall|n: Seq<char>|
                            #[trigger] old(syntax).spec_has_finalized_function(n) implies syntax
                            .spec_has_finalized_function(n) by {
                            assert(pre2.spec_has_finalized_function(n));
                        }
                    }
                    2
                } else {
                    let ghost pre2 = *syntax;
                    let _resumed = syntax.set_codeless(&function.data.name, codeless);
                    proof {
                        let i = choose|i: int|
                            0 <= i < pre2.functions@.len() && pre2.functions@[i].name@ == function.data
                                .name@ && syntax.functions@ == pre2.functions@.update(
                                i,
                                crate::store::FunctionEntry {
                                    name: pre2.functions@[i].name,
                                    codeless: Option::Some(codeless),
                                    finalized: pre2.functions@[i].finalized,
                                },
                            );
                        crate::store::lemma_update_preserves(pre2.functions@, syntax.functions@, i);
                        assert forall|n: Seq<char>|
                            #[trigger] old(syntax).spec_has_function(n) implies syntax.spec_has_function(
                            n,
                        ) by {
                            assert(pre2.spec_has_function(n));
                        }
                        assert forall|n: Seq<char>|
                            #[trigger] old(syntax).spec_has_codeless(n) implies syntax.spec_has_codeless(
                            n,
                        ) by {
                            assert(pre2.spec_has_codeless(n));
                        }
                        assert forall|n: Seq<char>|
                            #[trigger] old(syntax).spec_has_finalized_function(n) implies syntax
                            .spec_has_finalized_function(n) by {
                            assert(pre2.spec_has_finalized_function(n));
                        }
                    }
                    1
                }
            },
            Outcome::Failed(_) => {
                proof {
                    assert(false);
                }
                0
            },
            Outcome::Waiting(n) => {
                syntax.register_waiter(n, task);
                0
            },
        }
    } else {
        let found: Option<crate::function::CodelessFinalizedFunction> = match syntax
            .lookup_function(&function.data.name) {
            Option::Some(entry) => match &entry.codeless {
                Option::Some(codeless) => Option::Some(codeless.duplicate()),
                Option::None => Option::None,
            },
            Option::None => Option::None,
        };
        let mut codeless = match found {
            Option::Some(codeless) => codeless,
            Option::None => {
                // The signature never became available; finalize a
                // placeholder so no dependent can starve.
                let placeholder = crate::function::CodelessFinalizedFunction {
                    generics: crate::generics::Generics::new(),
                    arguments: Vec::new(),
                    return_type: Option::None,
                    data: crate::function::FunctionData::new(Vec::new(), 0, String::new()),
                    token: crate::tokens::CodeErrorToken::make_empty(),
                }.add_code(
                    crate::function::FinalizedCodeBody::new(Vec::new(), String::new(), false),
                );
                let ghost pre2 = *syntax;
                let _resumed = syntax.set_finalized_function(&function.data.name, placeholder);
                proof {
                    let i = choose|i: int|
                        0 <= i < pre2.functions@.len() && pre2.functions@[i].name@ == function.data
                            .name@ && syntax.functions@ == pre2.functions@.update(
                            i,
                            crate::store::FunctionEntry {
                                name: pre2.functions@[i].name,
                                codeless: pre2.functions@[i].codeless,
                                finalized: Option::Some(placeholder),
                            },
                        );
                    crate::store::lemma_update_preserves(pre2.functions@, syntax.functions@, i);
                    assert forall|n: Seq<char>|
                        #[trigger] old(syntax).spec_has_function(n) implies syntax.spec_has_function(
                        n,
                    ) by {
                        assert(pre2.spec_has_function(n));
                    }
                    assert forall|n: Seq<char>|
                        #[trigger] old(syntax).spec_has_codeless(n) implies syntax.spec_has_codeless(
                        n,
                    ) by {
                        assert(pre2.spec_has_codeless(n));
                    }
                    assert forall|n: Seq<char>|
                        #[trigger] old(syntax).spec_has_finalized_function(n) implies syntax
                        .spec_has_finalized_function(n) by {
                        assert(pre2.spec_has_finalized_function(n));
                    }
                }
                return 2;
            },
        };
        codeless.data.name = function.data.name.clone();
        match checker.verify_code(codeless, &function.code, syntax) {
            Outcome::Done(f) => {
                let ghost pre2 = *syntax;
                let _resumed = syntax.set_finalized_function(&function.data.name, f);
                proof {
                    let i = choose|i: int|
                        0 <= i < pre2.functions@.len() && pre2.functions@[i].name@ == function.data
                            .name@ && syntax.functions@ == pre2.functions@.update(
                            i,
                            crate::store::FunctionEntry {
                                name: pre2.functions@[i].name,
                                codeless: pre2.functions@[i].codeless,
                                finalized: Option::Some(f),
                            },
                        );
                    crate::store::lemma_update_preserves(pre2.functions@, syntax.functions@, i);
                    assert forall|n: Seq<char>|
                        #[trigger] old(syntax).spec_has_function(n) implies syntax.spec_has_function(
                        n,
                    ) by {
                        assert(pre2.spec_has_function(n));
                    }
                    assert forall|n: Seq<char>|
                        #[trigger] old(syntax).spec_has_codeless(n) implies syntax.spec_has_codeless(
                        n,
                    ) by {
                        assert(pre2.spec_has_codeless(n));
                    }
                    assert forall|n: Seq<char>|
                        #[trigger] old(syntax).spec_has_finalized_function(n) implies syntax
                        .spec_has_finalized_function(n) by {
                        assert(pre2.spec_has_finalized_function(n));
                    }
                }
                2
            },
            Outcome::Failed(_) => {
                proof {
                    assert(false);
                }
                1
            },
            Outcome::Waiting(n) => {
                syntax.register_waiter(n, task);
                1
            },
        }
    }
}


/// Checks a whole program: registers every struct shape and function name
/// up front, so forward and cyclic references resolve regardless of
/// declaration order; re-polls suspended tasks in rounds; raises the
/// liveness signal when nothing further can arrive; forces every remaining
/// task to completion, so every declaration ends finalized, possibly
/// poisoned, under its name; and finally runs the spawned specialization
/// jobs.  The store it returns answers every name that was declared.
#[verifier::loop_isolation(false)]
pub fn check_program(
    checker: &mut TypesChecker,
    structs: Vec<Struct>,
    functions: Vec<UnfinalizedFunction>,
    implementations: Vec<TraitImpl>,
) -> (syntax: Syntax)
    requires
        forall|i: int, j: int|
            0 <= i < j < structs@.len() ==> (#[trigger] structs@[i]).name@ != (
            #[trigger] structs@[j]).name@,
        forall|i: int, j: int|
            0 <= i < j < functions@.len() ==> (#[trigger] functions@[i]).data.name@ != (
            #[trigger] functions@[j]).data.name@,
        structs@.len() + 2 * functions@.len() + 1 < 1000000000,
    ensures
        syntax.finished_all && syntax.finished_impls,
        forall|i: int|
            0 <= i < structs@.len() ==> syntax.spec_has_finalized_struct(
                (#[trigger] structs@[i]).name@,
            ),
        forall|i: int|
            0 <= i < functions@.len() ==> syntax.spec_has_finalized_function(
                (#[trigger] functions@[i]).data.name@,
            ),
{
    let mut syntax = Syntax::new();
    syntax.implementations = implementations;
    let mut si: usize = 0;
    while si < structs.len()
        invariant
            si <= structs@.len(),
            syntax.structures@.len() == si,
            forall|j: int|
                0 <= j < si ==> (#[trigger] syntax.structures@[j]).shape.name@ == structs@[j]
                    .name@,
            syntax.functions@.len() == 0,
            !syntax.finished_all,
            !syntax.finished_impls,
        decreases structs@.len() - si,
    {
        let shape = structs[si].duplicate();
        proof {
            if syntax.spec_has_struct(shape.name@) {
                let k = choose|k: int|
                    0 <= k < syntax.structures@.len() && syntax.structures@[k].shape.name@
                        == shape.name@;
                assert(structs@[k].name@ == structs@[si as int].name@);
                assert(false);
            }
        }
        let _resumed = syntax.register_struct(shape);
        si += 1;
    }
    proof {
        assert forall|j: int| 0 <= j < structs@.len() implies syntax.spec_has_struct(
            (#[trigger] structs@[j]).name@,
        ) by {
            assert(syntax.structures@[j].shape.name@ == structs@[j].name@);
        }
    }
    let mut fi: usize = 0;
    while fi < functions.len()
        invariant
            fi <= functions@.len(),
            syntax.functions@.len() == fi,
            forall|j: int|
                0 <= j < fi ==> (#[trigger] syntax.functions@[j]).name@ == functions@[j].data
                    .name@,
            forall|j: int|
                0 <= j < structs@.len() ==> syntax.spec_has_struct(
                    (#[trigger] structs@[j]).name@,
                ),
            !syntax.finished_all,
            !syntax.finished_impls,
        decreases functions@.len() - fi,
    {
        proof {
            if syntax.spec_has_function(functions@[fi as int].data.name@) {
                let k = choose|k: int|
                    0 <= k < syntax.functions@.len() && syntax.functions@[k].name@ == functions@[
                        fi as int].data.name@;
                assert(functions@[k].data.name@ == functions@[fi as int].data.name@);
                assert(false);
            }
        }
        syntax.register_function_name(functions[fi].data.name.clone());
        fi += 1;
    }
    proof {
        assert forall|j: int| 0 <= j < functions@.len() implies syntax.spec_has_function(
            (#[trigger] functions@[j]).data.name@,
        ) by {
            assert(syntax.functions@[j].name@ == functions@[j].data.name@);
        }
    }
    let mut struct_done: Vec<bool> = Vec::new();
    let mut k: usize = 0;
    while k < structs.len()
        invariant
            k <= structs@.len(),
            struct_done@.len() == k,
            forall|j: int| 0 <= j < k ==> !(#[trigger] struct_done@[j]),
        decreases structs@.len() - k,
    {
        struct_done.push(false);
        k += 1;
    }
    let mut fn_phase: Vec<u8> = Vec::new();
    let mut k2: usize = 0;
    while k2 < functions.len()
        invariant
            k2 <= functions@.len(),
            fn_phase@.len() == k2,
            forall|j: int| 0 <= j < k2 ==> (#[trigger] fn_phase@[j]) == 0,
        decreases functions@.len() - k2,
    {
        fn_phase.push(0);
        k2 += 1;
    }
    proof {
        assert(driver_inv(syntax, structs@, functions@, struct_done@, fn_phase@));
    }
    // Cooperative rounds: each round re-polls every unfinished task, so a
    // task suspended on a name is re-polled after that name registers.
    let rounds = structs.len() + 2 * functions.len() + 1;
    let mut round: usize = 0;
    while round < rounds
        invariant
            driver_inv(syntax, structs@, functions@, struct_done@, fn_phase@),
            !syntax.finished_all,
            !syntax.finished_impls,
        decreases rounds - round,
    {
        let mut s: usize = 0;
        while s < structs.len()
            invariant
                s <= structs@.len(),
                driver_inv(syntax, structs@, functions@, struct_done@, fn_phase@),
                !syntax.finished_all,
                !syntax.finished_impls,
            decreases structs@.len() - s,
        {
            if !struct_done[s] {
                let done = poll_struct(checker, &mut syntax, &structs[s], s);
                struct_done.set(s, done);
            }
            s += 1;
        }
        let mut f: usize = 0;
        while f < functions.len()
            invariant
                f <= functions@.len(),
                driver_inv(syntax, structs@, functions@, struct_done@, fn_phase@),
                !syntax.finished_all,
                !syntax.finished_impls,
            decreases functions@.len() - f,
        {
            let phase = fn_phase[f];
            if phase < 2 {
                let new_phase = poll_function(
                    checker,
                    &mut syntax,
                    &functions[f],
                    phase,
                    structs.len() + f,
                );
                fn_phase.set(f, new_phase);
            }
            f += 1;
        }
        round += 1;
    }
    // The liveness signal: nothing further will ever be registered.  Under
    // it no poll can suspend, so the last pass completes everything.
    syntax.finish_checking();
    let mut s: usize = 0;
    while s < structs.len()
        invariant
            s <= structs@.len(),
            driver_inv(syntax, structs@, functions@, struct_done@, fn_phase@),
            syntax.finished_all,
            syntax.finished_impls,
            forall|j: int| 0 <= j < s ==> (#[trigger] struct_done@[j]),
        decreases structs@.len() - s,
    {
        if !struct_done[s] {
            let done = poll_struct(checker, &mut syntax, &structs[s], s);
            proof {
                assert(done);
            }
            struct_done.set(s, done);
        }
        s += 1;
    }
    let mut f: usize = 0;
    while f < functions.len()
        invariant
            f <= functions@.len(),
            driver_inv(syntax, structs@, functions@, struct_done@, fn_phase@),
            syntax.finished_all,
            syntax.finished_impls,
            forall|j: int| 0 <= j < s_len(structs@) ==> (#[trigger] struct_done@[j]),
            forall|j: int| 0 <= j < f ==> (#[trigger] fn_phase@[j]) == 2,
        decreases functions@.len() - f,
    {
        let mut phase = fn_phase[f];
        while phase < 2
            invariant
                driver_inv(syntax, structs@, functions@, struct_done@, fn_phase@),
                syntax.finished_all,
                syntax.finished_impls,
                f < functions@.len(),
                phase == fn_phase@[f as int],
                forall|j: int| 0 <= j < s_len(structs@) ==> (#[trigger] struct_done@[j]),
                forall|j: int| 0 <= j < f ==> (#[trigger] fn_phase@[j]) == 2,
            decreases 2 - phase,
        {
            let new_phase = poll_function(
                checker,
                &mut syntax,
                &functions[f],
                phase,
                structs.len() + f,
            );
            proof {
                assert(new_phase > phase);
            }
            fn_phase.set(f, new_phase);
            phase = new_phase;
        }
        proof {
            assert(fn_phase@[f as int] == 2);
        }
        f += 1;
    }
    // Run the spawned specialization jobs: each registers its result, or
    // records its diagnostic, and either way ends.
    let mut j: usize = 0;
    while j < checker.runtime.jobs.len()
        invariant
            j <= checker.runtime.jobs@.len(),
            driver_inv(syntax, structs@, functions@, struct_done@, fn_phase@),
            syntax.finished_all,
            syntax.finished_impls,
            forall|i: int| 0 <= i < structs@.len() ==> (#[trigger] struct_done@[i]),
            forall|i: int| 0 <= i < functions@.len() ==> (#[trigger] fn_phase@[i]) == 2,
        decreases checker.runtime.jobs@.len() - j,
    {
        match run_job(&checker.runtime.jobs[j], &mut syntax) {
            Outcome::Done(_) => {},
            Outcome::Failed(e) => {
                syntax.record_error(e);
            },
            Outcome::Waiting(_) => {
                proof {
                    assert(false);
                }
            },
        }
        j += 1;
    }
    syntax
}

/// The length of a struct list; a name for the invariant above.
pub open spec fn s_len(structs: Seq<Struct>) -> int {
    structs.len() as int
}

} // verus!
