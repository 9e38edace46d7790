//! The declaration store: the process-wide registry of struct, function, and
//! trait-implementation declarations, their finalization status, pending
//! resumption callbacks, and the accumulated error list.  All shared state
//! sits here, behind one consistency boundary.  A name is assigned once and
//! never reused: registration requires the name to be fresh.

use vstd::prelude::*;
use crate::errors::ParsingError;
use crate::function::{CodelessFinalizedFunction, FinalizedFunction};
use crate::structure::{FinalizedStruct, Struct};

verus! {

/// A struct declaration and, once produced, its finalized form.
/// Finalization is monotonic: signature-only to finalized, never reverted.
pub struct StructEntry {
    pub shape: Struct,
    pub finalized: Option<FinalizedStruct>,
}

/// A function declaration: its name is known from registration; the codeless
/// signature and the finalized form appear as checking progresses.
pub struct FunctionEntry {
    pub name: String,
    pub codeless: Option<CodelessFinalizedFunction>,
    pub finalized: Option<FinalizedFunction>,
}

/// A registered trait implementation: the trait, the implementing type, and
/// the names of the methods the implementation provides, in order.
pub struct TraitImpl {
    pub trait_name: String,
    pub target_name: String,
    pub methods: Vec<String>,
}

/// A resumption callback: the task to resume when the named declaration
/// becomes available.
pub struct Waiter {
    pub name: String,
    pub task: usize,
}

/// The declaration store.
pub struct Syntax {
    pub structures: Vec<StructEntry>,
    pub functions: Vec<FunctionEntry>,
    pub implementations: Vec<TraitImpl>,
    pub errors: Vec<ParsingError>,
    pub waiters: Vec<Waiter>,
    pub finished_impls: bool,
    pub finished_all: bool,
}

impl Syntax {
    /// An empty store: nothing registered, no errors, checking not finished.
    pub fn new() -> (r: Syntax)
        ensures
            r.structures@.len() == 0,
            r.functions@.len() == 0,
            r.implementations@.len() == 0,
            r.errors@.len() == 0,
            r.waiters@.len() == 0,
            !r.finished_impls,
            !r.finished_all,
    {
        Syntax {
            structures: Vec::new(),
            functions: Vec::new(),
            implementations: Vec::new(),
            errors: Vec::new(),
            waiters: Vec::new(),
            finished_impls: false,
            finished_all: false,
        }
    }

    /// Whether a struct declaration with this name is registered.
    pub open spec fn spec_has_struct(&self, name: Seq<char>) -> bool {
        shape_table_has(self.structures@, name)
    }

    /// Whether a function with this name is registered.
    pub open spec fn spec_has_function(&self, name: Seq<char>) -> bool {
        table_has(self.functions@, name)
    }

    /// Whether a function with this name has its codeless signature available.
    pub open spec fn spec_has_codeless(&self, name: Seq<char>) -> bool {
        table_has_codeless(self.functions@, name)
    }

    /// Whether a function with this name has been finalized.
    pub open spec fn spec_has_finalized_function(&self, name: Seq<char>) -> bool {
        table_has_finalized(self.functions@, name)
    }

    /// Whether a struct with this name has been finalized.
    pub open spec fn spec_has_finalized_struct(&self, name: Seq<char>) -> bool {
        shape_table_has_finalized(self.structures@, name)
    }

    /// Raises the liveness signal: all pending checking has finished, so
    /// searches that found nothing know that nothing will ever be found.
    pub fn finish_checking(&mut self)
        ensures
            final(self).finished_all,
            final(self).finished_impls,
            final(self).structures == old(self).structures,
            final(self).functions == old(self).functions,
            final(self).implementations == old(self).implementations,
            final(self).errors == old(self).errors,
            final(self).waiters == old(self).waiters,
    {
        self.finished_impls = true;
        self.finished_all = true;
    }

    /// Used as the liveness check by searches that must distinguish "nothing
    /// found yet" from "nothing will ever be found".
    pub fn all_finalized(&self) -> (r: bool)
        ensures
            r == self.finished_all,
    {
        self.finished_all
    }

    /// Looks up a struct declaration by name: `Some` exactly when a
    /// declaration with that name is registered; the entry returned is a
    /// registered one carrying that name.
    pub fn lookup_struct(&self, name: &String) -> (r: Option<&StructEntry>)
        ensures
            match r {
                Option::Some(e) => self.spec_has_struct(name@) && e.shape.name@ == name@ && 0
                    <= struct_index(self.structures@, name@) < self.structures@.len() && *e
                    == self.structures@[struct_index(self.structures@, name@)],
                Option::None => !self.spec_has_struct(name@) && struct_index(
                    self.structures@,
                    name@,
                ) == -1,
            },
    {
        let mut i: usize = 0;
        while i < self.structures.len()
            invariant
                i <= self.structures@.len(),
                forall|j: int| 0 <= j < i ==> self.structures@[j].shape.name@ != name@,
            decreases self.structures@.len() - i,
        {
            if self.structures[i].shape.name.eq(name) {
                proof {
                    lemma_struct_index_prefix(self.structures@, name@, i as int);
                }
                return Option::Some(&self.structures[i]);
            }
            i += 1;
        }
        proof {
            lemma_struct_index_none(self.structures@, name@);
        }
        Option::None
    }

    /// Looks up a function entry by name.
    pub fn lookup_function(&self, name: &String) -> (r: Option<&FunctionEntry>)
        ensures
            match r {
                Option::Some(e) => self.spec_has_function(name@) && e.name@ == name@ && 0
                    <= function_index(self.functions@, name@) < self.functions@.len() && *e
                    == self.functions@[function_index(self.functions@, name@)],
                Option::None => !self.spec_has_function(name@) && function_index(
                    self.functions@,
                    name@,
                ) == -1,
            },
    {
        let mut i: usize = 0;
        while i < self.functions.len()
            invariant
                i <= self.functions@.len(),
                forall|j: int| 0 <= j < i ==> self.functions@[j].name@ != name@,
            decreases self.functions@.len() - i,
        {
            if self.functions[i].name.eq(name) {
                proof {
                    lemma_function_index_prefix(self.functions@, name@, i as int);
                }
                return Option::Some(&self.functions[i]);
            }
            i += 1;
        }
        proof {
            lemma_function_index_none(self.functions@, name@);
        }
        Option::None
    }

    /// Registers a struct declaration the instant its signature is known,
    /// before its body is checked, so dependents can reference its shape.
    pub fn register_struct(&mut self, shape: Struct) -> (resumed: Vec<usize>)
        requires
            !old(self).spec_has_struct(shape.name@),
        ensures
            final(self).structures@ == old(self).structures@.push(
                StructEntry { shape, finalized: Option::None },
            ),
            final(self).spec_has_struct(shape.name@),
            final(self).functions == old(self).functions,
            final(self).implementations == old(self).implementations,
            final(self).errors == old(self).errors,
            final(self).waiters@ == old(self).waiters@.filter(
                (|w: Waiter| w.name@ != shape.name@),
            ),
            resumed@ == old(self).waiters@.filter((|w: Waiter| w.name@ == shape.name@))
                .map_values((|w: Waiter| w.task)),
            final(self).finished_impls == old(self).finished_impls,
            final(self).finished_all == old(self).finished_all,
            forall|n: Seq<char>| #[trigger] old(self).spec_has_struct(n) ==> final(self).spec_has_struct(n),
    {
        let ghost pre = self.structures@;
        let name = shape.name.clone();
        self.structures.push(StructEntry { shape, finalized: Option::None });
        proof {
            assert(self.structures@[pre.len() as int].shape.name@ == shape.name@);
            assert forall|n: Seq<char>|
                #[trigger] old(self).spec_has_struct(n) implies self.spec_has_struct(n) by {
                let i = choose|i: int| 0 <= i < pre.len() && pre[i].shape.name@ == n;
                assert(self.structures@[i].shape.name@ == n);
            }
        }
        self.take_waiters(&name)
    }

    /// Creates an empty function entry under a fresh name.
    pub fn register_function_name(&mut self, name: String)
        requires
            !old(self).spec_has_function(name@),
        ensures
            final(self).functions@ == old(self).functions@.push(
                FunctionEntry { name, codeless: Option::None, finalized: Option::None },
            ),
            final(self).spec_has_function(name@),
            final(self).structures == old(self).structures,
            final(self).implementations == old(self).implementations,
            final(self).errors == old(self).errors,
            final(self).waiters == old(self).waiters,
            final(self).finished_impls == old(self).finished_impls,
            final(self).finished_all == old(self).finished_all,
            forall|n: Seq<char>|
                #[trigger] old(self).spec_has_function(n) ==> final(self).spec_has_function(n),
            forall|n: Seq<char>|
                #[trigger] old(self).spec_has_codeless(n) ==> final(self).spec_has_codeless(n),
            forall|n: Seq<char>|
                #[trigger] old(self).spec_has_finalized_function(n) ==> final(self).spec_has_finalized_function(n),
    {
        let ghost pre = self.functions@;
        self.functions.push(FunctionEntry { name, codeless: Option::None, finalized: Option::None });
        proof {
            assert(self.functions@[pre.len() as int].name@ == name@);
            assert forall|n: Seq<char>|
                #[trigger] old(self).spec_has_function(n) implies self.spec_has_function(n) by {
                let i = choose|i: int| 0 <= i < pre.len() && pre[i].name@ == n;
                assert(self.functions@[i].name@ == n);
            }
            assert forall|n: Seq<char>|
                #[trigger] old(self).spec_has_codeless(n) implies self.spec_has_codeless(n) by {
                let i = choose|i: int|
                    0 <= i < pre.len() && pre[i].name@ == n && pre[i].codeless is Some;
                assert(self.functions@[i].name@ == n && self.functions@[i].codeless is Some);
            }
            assert forall|n: Seq<char>|
                #[trigger] old(self).spec_has_finalized_function(n) implies self.spec_has_finalized_function(
                n,
            ) by {
                let i = choose|i: int|
                    0 <= i < pre.len() && pre[i].name@ == n && pre[i].finalized is Some;
                assert(self.functions@[i].name@ == n && self.functions@[i].finalized is Some);
            }
        }
    }

    /// The position of the function entry with the given name.
    fn find_function_position(&self, name: &String) -> (r: Option<usize>)
        ensures
            match r {
                Option::Some(i) => i < self.functions@.len() && self.functions@[i as int].name@
                    == name@,
                Option::None => !self.spec_has_function(name@),
            },
    {
        let mut i: usize = 0;
        while i < self.functions.len()
            invariant
                i <= self.functions@.len(),
                forall|j: int| 0 <= j < i ==> self.functions@[j].name@ != name@,
            decreases self.functions@.len() - i,
        {
            if self.functions[i].name.eq(name) {
                return Option::Some(i);
            }
            i += 1;
        }
        Option::None
    }

    /// The position of the struct entry with the given name.
    fn find_struct_position(&self, name: &String) -> (r: Option<usize>)
        ensures
            match r {
                Option::Some(i) => i < self.structures@.len() && self.structures@[i as int].shape
                    .name@ == name@,
                Option::None => !self.spec_has_struct(name@),
            },
    {
        let mut i: usize = 0;
        while i < self.structures.len()
            invariant
                i <= self.structures@.len(),
                forall|j: int| 0 <= j < i ==> self.structures@[j].shape.name@ != name@,
            decreases self.structures@.len() - i,
        {
            if self.structures[i].shape.name.eq(name) {
                return Option::Some(i);
            }
            i += 1;
        }
        Option::None
    }

    /// Stores the codeless signature of a registered function, replacing any
    /// earlier one, so recursive and forward calls resolve against it.
    pub fn set_codeless(&mut self, name: &String, codeless: CodelessFinalizedFunction) -> (
        resumed: Vec<usize>)
        requires
            old(self).spec_has_function(name@),
        ensures
            final(self).spec_has_codeless(name@),
            exists|i: int|
                0 <= i < old(self).functions@.len() && old(self).functions@[i].name@ == name@
                    && final(self).functions@ == old(self).functions@.update(
                    i,
                    FunctionEntry {
                        name: old(self).functions@[i].name,
                        codeless: Option::Some(codeless),
                        finalized: old(self).functions@[i].finalized,
                    },
                ),
            final(self).structures == old(self).structures,
            final(self).implementations == old(self).implementations,
            final(self).errors == old(self).errors,
            final(self).waiters@ == old(self).waiters@.filter((|w: Waiter| w.name@ != name@)),
            resumed@ == old(self).waiters@.filter((|w: Waiter| w.name@ == name@)).map_values(
                (|w: Waiter| w.task),
            ),
            final(self).finished_impls == old(self).finished_impls,
            final(self).finished_all == old(self).finished_all,
            forall|n: Seq<char>|
                #[trigger] old(self).spec_has_function(n) ==> final(self).spec_has_function(n),
            forall|n: Seq<char>|
                #[trigger] old(self).spec_has_codeless(n) ==> final(self).spec_has_codeless(n),
            forall|n: Seq<char>|
                #[trigger] old(self).spec_has_finalized_function(n) ==> final(self).spec_has_finalized_function(n),
    {
        let position = self.find_function_position(name);
        match position {
            Option::Some(i) => {
                let entry = self.functions.remove(i);
                let new_entry = FunctionEntry {
                    name: entry.name,
                    codeless: Option::Some(codeless),
                    finalized: entry.finalized,
                };
                self.functions.insert(i, new_entry);
                proof {
                    assert(self.functions@ =~= old(self).functions@.update(
                        i as int,
                        self.functions@[i as int],
                    ));
                    assert(self.functions@[i as int].name@ == name@);
                    assert(self.functions@[i as int].codeless is Some);
                    lemma_update_preserves(old(self).functions@, self.functions@, i as int);
                }
                self.take_waiters(name)
            },
            Option::None => {
                proof {
                    assert(false);
                }
                Vec::new()
            },
        }
    }

    /// Stores the finalized form of a registered function.  Finalization is
    /// monotonic: an already finalized entry stays finalized.
    pub fn set_finalized_function(&mut self, name: &String, finalized: FinalizedFunction) -> (
        resumed: Vec<usize>)
        requires
            old(self).spec_has_function(name@),
        ensures
            final(self).spec_has_finalized_function(name@),
            exists|i: int|
                0 <= i < old(self).functions@.len() && old(self).functions@[i].name@ == name@
                    && final(self).functions@ == old(self).functions@.update(
                    i,
                    FunctionEntry {
                        name: old(self).functions@[i].name,
                        codeless: old(self).functions@[i].codeless,
                        finalized: Option::Some(finalized),
                    },
                ),
            final(self).structures == old(self).structures,
            final(self).implementations == old(self).implementations,
            final(self).errors == old(self).errors,
            final(self).waiters@ == old(self).waiters@.filter((|w: Waiter| w.name@ != name@)),
            resumed@ == old(self).waiters@.filter((|w: Waiter| w.name@ == name@)).map_values(
                (|w: Waiter| w.task),
            ),
            final(self).finished_impls == old(self).finished_impls,
            final(self).finished_all == old(self).finished_all,
            forall|n: Seq<char>|
                #[trigger] old(self).spec_has_function(n) ==> final(self).spec_has_function(n),
            forall|n: Seq<char>|
                #[trigger] old(self).spec_has_codeless(n) ==> final(self).spec_has_codeless(n),
            forall|n: Seq<char>|
                #[trigger] old(self).spec_has_finalized_function(n) ==> final(self).spec_has_finalized_function(n),
    {
        let position = self.find_function_position(name);
        match position {
            Option::Some(i) => {
                let entry = self.functions.remove(i);
                let new_entry = FunctionEntry {
                    name: entry.name,
                    codeless: entry.codeless,
                    finalized: Option::Some(finalized),
                };
                self.functions.insert(i, new_entry);
                proof {
                    assert(self.functions@ =~= old(self).functions@.update(
                        i as int,
                        self.functions@[i as int],
                    ));
                    assert(self.functions@[i as int].name@ == name@);
                    assert(self.functions@[i as int].finalized is Some);
                    lemma_update_preserves(old(self).functions@, self.functions@, i as int);
                }
                self.take_waiters(name)
            },
            Option::None => {
                proof {
                    assert(false);
                }
                Vec::new()
            },
        }
    }

    /// Stores the finalized form of a registered struct.
    pub fn set_finalized_struct(&mut self, name: &String, finalized: FinalizedStruct) -> (
        resumed: Vec<usize>)
        requires
            old(self).spec_has_struct(name@),
        ensures
            exists|i: int|
                0 <= i < old(self).structures@.len() && old(self).structures@[i].shape.name@
                    == name@ && final(self).structures@ == old(self).structures@.update(
                    i,
                    StructEntry {
                        shape: old(self).structures@[i].shape,
                        finalized: Option::Some(finalized),
                    },
                ),
            final(self).functions == old(self).functions,
            final(self).implementations == old(self).implementations,
            final(self).errors == old(self).errors,
            final(self).waiters@ == old(self).waiters@.filter((|w: Waiter| w.name@ != name@)),
            resumed@ == old(self).waiters@.filter((|w: Waiter| w.name@ == name@)).map_values(
                (|w: Waiter| w.task),
            ),
            final(self).finished_impls == old(self).finished_impls,
            final(self).finished_all == old(self).finished_all,
            forall|n: Seq<char>| #[trigger] old(self).spec_has_struct(n) ==> final(self).spec_has_struct(n),
            forall|n: Seq<char>|
                #[trigger] old(self).spec_has_finalized_struct(n) ==> final(self).spec_has_finalized_struct(
                    n,
                ),
            final(self).spec_has_finalized_struct(name@),
    {
        let position = self.find_struct_position(name);
        match position {
            Option::Some(i) => {
                let entry = self.structures.remove(i);
                let new_entry = StructEntry {
                    shape: entry.shape,
                    finalized: Option::Some(finalized),
                };
                self.structures.insert(i, new_entry);
                proof {
                    assert(self.structures@ =~= old(self).structures@.update(
                        i as int,
                        self.structures@[i as int],
                    ));
                    assert(self.structures@[i as int].shape.name@ == name@);
                    assert(self.structures@[i as int].finalized is Some);
                    assert forall|n: Seq<char>|
                        #[trigger] old(self).spec_has_struct(n) implies self.spec_has_struct(n) by {
                        let k = choose|k: int|
                            0 <= k < old(self).structures@.len() && old(self).structures@[k].shape.name@ == n;
                        assert(self.structures@[k].shape.name@ == n);
                    }
                    assert forall|n: Seq<char>|
                        #[trigger] old(self).spec_has_finalized_struct(n) implies self
                        .spec_has_finalized_struct(n) by {
                        let k = choose|k: int|
                            0 <= k < old(self).structures@.len() && old(
                                self,
                            ).structures@[k].shape.name@ == n && old(
                                self,
                            ).structures@[k].finalized is Some;
                        assert(self.structures@[k].shape.name@ == n && self.structures@[
                            k].finalized is Some);
                    }
                }
                self.take_waiters(name)
            },
            Option::None => {
                proof {
                    assert(false);
                }
                Vec::new()
            },
        }
    }

    /// Appends to the process-wide error list; never aborts.
    pub fn record_error(&mut self, error: ParsingError)
        ensures
            final(self).errors@ == old(self).errors@.push(error),
            final(self).structures == old(self).structures,
            final(self).functions == old(self).functions,
            final(self).implementations == old(self).implementations,
            final(self).waiters == old(self).waiters,
            final(self).finished_impls == old(self).finished_impls,
            final(self).finished_all == old(self).finished_all,
    {
        self.errors.push(error);
    }

    /// Attaches a resumption callback to a name not yet available.  A caller
    /// that saw the name missing must re-check after registering: the race
    /// between check and registration is resolved by re-polling.
    pub fn register_waiter(&mut self, name: String, task: usize)
        ensures
            final(self).waiters@ == old(self).waiters@.push(Waiter { name, task }),
            final(self).structures == old(self).structures,
            final(self).functions == old(self).functions,
            final(self).implementations == old(self).implementations,
            final(self).errors == old(self).errors,
            final(self).finished_impls == old(self).finished_impls,
            final(self).finished_all == old(self).finished_all,
    {
        self.waiters.push(Waiter { name, task });
    }

    /// Removes and returns the tasks of every waiter registered under the
    /// given name, in registration order; they are to be resumed.
    pub fn take_waiters(&mut self, name: &String) -> (r: Vec<usize>)
        ensures
            final(self).waiters@ == old(self).waiters@.filter((|w: Waiter| w.name@ != name@)),
            r@ == old(self).waiters@.filter((|w: Waiter| w.name@ == name@)).map_values(
                (|w: Waiter| w.task),
            ),
            final(self).structures == old(self).structures,
            final(self).functions == old(self).functions,
            final(self).implementations == old(self).implementations,
            final(self).errors == old(self).errors,
            final(self).finished_impls == old(self).finished_impls,
            final(self).finished_all == old(self).finished_all,
    {
        let mut kept: Vec<Waiter> = Vec::new();
        let mut woken: Vec<usize> = Vec::new();
        let mut i: usize = 0;
        while i < self.waiters.len()
            invariant
                i <= self.waiters@.len(),
                kept@ == self.waiters@.take(i as int).filter((|w: Waiter| w.name@ != name@)),
                woken@ == self.waiters@.take(i as int).filter((|w: Waiter| w.name@ == name@))
                    .map_values((|w: Waiter| w.task)),
            decreases self.waiters@.len() - i,
        {
            let w = &self.waiters[i];
            proof {
                assert(self.waiters@.take(i + 1).drop_last() =~= self.waiters@.take(i as int));
                assert(self.waiters@.take(i + 1).last() == self.waiters@[i as int]);
                reveal_with_fuel(Seq::filter, 2);
            }
            if w.name.eq(name) {
                woken.push(w.task);
                proof {
                    assert(woken@ =~= self.waiters@.take(i + 1).filter(
                        (|w: Waiter| w.name@ == name@),
                    ).map_values((|w: Waiter| w.task)));
                    assert(kept@ =~= self.waiters@.take(i + 1).filter(
                        (|w: Waiter| w.name@ != name@),
                    ));
                }
            } else {
                kept.push(Waiter { name: w.name.clone(), task: w.task });
                proof {
                    assert(kept@.last() == self.waiters@[i as int]);
                    assert(kept@ =~= self.waiters@.take(i + 1).filter(
                        (|w: Waiter| w.name@ != name@),
                    ));
                    assert(woken@ =~= self.waiters@.take(i + 1).filter(
                        (|w: Waiter| w.name@ == name@),
                    ).map_values((|w: Waiter| w.task)));
                }
            }
            i += 1;
        }
        proof {
            assert(self.waiters@.take(self.waiters@.len() as int) =~= self.waiters@);
        }
        self.waiters = kept;
        woken
    }
}

/// The first index of a function entry with the given name; `-1` when absent.
pub open spec fn function_index(entries: Seq<FunctionEntry>, name: Seq<char>) -> int
    decreases entries.len(),
{
    if entries.len() == 0 {
        -1
    } else if entries[0].name@ == name {
        0
    } else {
        let rest = function_index(entries.drop_first(), name);
        if rest == -1 {
            -1
        } else {
            rest + 1
        }
    }
}

/// The first index of a struct entry with the given name; `-1` when absent.
pub open spec fn struct_index(entries: Seq<StructEntry>, name: Seq<char>) -> int
    decreases entries.len(),
{
    if entries.len() == 0 {
        -1
    } else if entries[0].shape.name@ == name {
        0
    } else {
        let rest = struct_index(entries.drop_first(), name);
        if rest == -1 {
            -1
        } else {
            rest + 1
        }
    }
}

/// When a scan finds the first match at `i`, the recursive index agrees.
pub proof fn lemma_function_index_prefix(entries: Seq<FunctionEntry>, name: Seq<char>, i: int)
    requires
        0 <= i < entries.len(),
        entries[i].name@ == name,
        forall|j: int| 0 <= j < i ==> entries[j].name@ != name,
    ensures
        function_index(entries, name) == i,
    decreases entries.len(),
{
    if i > 0 {
        lemma_function_index_prefix(entries.drop_first(), name, i - 1);
    }
}

/// When no entry matches, the index is `-1`.
pub proof fn lemma_function_index_none(entries: Seq<FunctionEntry>, name: Seq<char>)
    requires
        forall|j: int| 0 <= j < entries.len() ==> entries[j].name@ != name,
    ensures
        function_index(entries, name) == -1,
    decreases entries.len(),
{
    if entries.len() > 0 {
        lemma_function_index_none(entries.drop_first(), name);
    }
}

/// When a scan finds the first match at `i`, the recursive index agrees.
pub proof fn lemma_struct_index_prefix(entries: Seq<StructEntry>, name: Seq<char>, i: int)
    requires
        0 <= i < entries.len(),
        entries[i].shape.name@ == name,
        forall|j: int| 0 <= j < i ==> entries[j].shape.name@ != name,
    ensures
        struct_index(entries, name) == i,
    decreases entries.len(),
{
    if i > 0 {
        lemma_struct_index_prefix(entries.drop_first(), name, i - 1);
    }
}

/// When no entry matches, the index is `-1`.
pub proof fn lemma_struct_index_none(entries: Seq<StructEntry>, name: Seq<char>)
    requires
        forall|j: int| 0 <= j < entries.len() ==> entries[j].shape.name@ != name,
    ensures
        struct_index(entries, name) == -1,
    decreases entries.len(),
{
    if entries.len() > 0 {
        lemma_struct_index_none(entries.drop_first(), name);
    }
}

/// Whether a struct table holds an entry with the given name.
pub open spec fn shape_table_has(entries: Seq<StructEntry>, name: Seq<char>) -> bool {
    exists|i: int| 0 <= i < entries.len() && entries[i].shape.name@ == name
}

/// Whether a struct table holds a finalized struct under the given name.
pub open spec fn shape_table_has_finalized(entries: Seq<StructEntry>, name: Seq<char>) -> bool {
    exists|i: int|
        0 <= i < entries.len() && entries[i].shape.name@ == name && entries[i].finalized is Some
}

/// Whether a function table holds an entry with the given name.
pub open spec fn table_has(entries: Seq<FunctionEntry>, name: Seq<char>) -> bool {
    exists|k: int| 0 <= k < entries.len() && entries[k].name@ == name
}

/// Whether a function table holds a codeless signature under the given name.
pub open spec fn table_has_codeless(entries: Seq<FunctionEntry>, name: Seq<char>) -> bool {
    exists|k: int|
        0 <= k < entries.len() && entries[k].name@ == name && entries[k].codeless is Some
}

/// Whether a function table holds a finalized function under the given name.
pub open spec fn table_has_finalized(entries: Seq<FunctionEntry>, name: Seq<char>) -> bool {
    exists|k: int|
        0 <= k < entries.len() && entries[k].name@ == name && entries[k].finalized is Some
}

/// Updating one entry in place, keeping its name and only growing what is
/// available, preserves every name-membership fact about the table.
pub proof fn lemma_update_preserves(older: Seq<FunctionEntry>, newer: Seq<FunctionEntry>, i: int)
    requires
        0 <= i < older.len(),
        newer == older.update(i, newer[i]),
        newer[i].name@ == older[i].name@,
        older[i].finalized is Some ==> newer[i].finalized is Some,
        older[i].codeless is Some ==> newer[i].codeless is Some,
    ensures
        forall|n: Seq<char>| #[trigger] table_has(older, n) ==> table_has(newer, n),
        forall|n: Seq<char>| #[trigger] table_has_finalized(older, n) ==> table_has_finalized(
            newer,
            n,
        ),
        forall|n: Seq<char>| #[trigger] table_has_codeless(older, n) ==> table_has_codeless(
            newer,
            n,
        ),
{
    assert forall|n: Seq<char>| #[trigger] table_has(older, n) implies table_has(newer, n) by {
        let k = choose|k: int| 0 <= k < older.len() && older[k].name@ == n;
        assert(newer[k].name@ == n);
    }
    assert forall|n: Seq<char>| #[trigger] table_has_finalized(older, n) implies
        table_has_finalized(newer, n) by {
        let k = choose|k: int|
            0 <= k < older.len() && older[k].name@ == n && older[k].finalized is Some;
        assert(newer[k].name@ == n && newer[k].finalized is Some);
    }
    assert forall|n: Seq<char>| #[trigger] table_has_codeless(older, n) implies
        table_has_codeless(newer, n) by {
        let k = choose|k: int|
            0 <= k < older.len() && older[k].name@ == n && older[k].codeless is Some;
        assert(newer[k].name@ == n && newer[k].codeless is Some);
    }
}

} // verus!
