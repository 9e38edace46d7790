//! The ordered table of a declaration's generic parameters and their bound
//! traits.  The table keeps insertion order, which fixes the order generic
//! parameters are listed in; it is backed by `indexmap::IndexMap`, and its
//! contents are named by the uninterpreted `generics_entries`.

use vstd::prelude::*;

verus! {

/// An insertion-ordered table from generic-parameter names to the names of
/// their bound traits.
#[verifier::external_body]
pub struct Generics {
    inner: indexmap::IndexMap<String, Vec<String>>,
}

/// The entries of a generics table, in order: parameter name and bound names.
pub uninterp spec fn generics_entries(g: Generics) -> Seq<(Seq<char>, Seq<Seq<char>>)>;

/// The first index at which `entries` holds the key `name`; `-1` when absent.
pub open spec fn find_key(entries: Seq<(Seq<char>, Seq<Seq<char>>)>, name: Seq<char>) -> int
    decreases entries.len(),
{
    if entries.len() == 0 {
        -1
    } else if entries[0].0 == name {
        0
    } else {
        let rest = find_key(entries.drop_first(), name);
        if rest == -1 {
            -1
        } else {
            rest + 1
        }
    }
}

/// What inserting a binding does to the entries: an existing key keeps its
/// place and its value is updated; a new key is appended last.
pub open spec fn spec_insert(
    entries: Seq<(Seq<char>, Seq<Seq<char>>)>,
    name: Seq<char>,
    bounds: Seq<Seq<char>>,
) -> Seq<(Seq<char>, Seq<Seq<char>>)> {
    let idx = find_key(entries, name);
    if idx == -1 {
        entries.push((name, bounds))
    } else {
        entries.update(idx, (name, bounds))
    }
}

impl Generics {
    /// Relies on `indexmap::IndexMap::new`: an empty map.
    #[verifier::external_body]
    pub fn new() -> (r: Generics)
        ensures
            generics_entries(r) == Seq::<(Seq<char>, Seq<Seq<char>>)>::empty(),
    {
        Generics { inner: indexmap::IndexMap::new() }
    }

    /// Relies on `indexmap::IndexMap::insert`: an equivalent key remains in
    /// its place in the order with its value updated; a new key is inserted
    /// last in order.
    #[verifier::external_body]
    pub fn insert(&mut self, name: String, bounds: Vec<String>)
        ensures
            generics_entries(*final(self)) == spec_insert(
                generics_entries(*old(self)),
                name@,
                bounds.deep_view(),
            ),
    {
        self.inner.insert(name, bounds);
    }

    /// Relies on `indexmap::IndexMap::len`: the number of entries.
    #[verifier::external_body]
    pub fn len(&self) -> (r: usize)
        ensures
            r == generics_entries(*self).len(),
    {
        self.inner.len()
    }

    /// Relies on `indexmap::IndexMap::get_index`: the entry at a position in
    /// insertion order, or `None` past the end.
    #[verifier::external_body]
    pub fn get_index(&self, index: usize) -> (r: Option<(&String, &Vec<String>)>)
        ensures
            match r {
                Option::Some(entry) => index < generics_entries(*self).len()
                    && entry.0@ == generics_entries(*self)[index as int].0
                    && entry.1.deep_view() == generics_entries(*self)[index as int].1,
                Option::None => index >= generics_entries(*self).len(),
            },
    {
        match self.inner.get_index(index) {
            Option::Some((k, v)) => Option::Some((k, v)),
            Option::None => Option::None,
        }
    }

    /// Relies on `indexmap::IndexMap::get`: the value stored under a key.
    #[verifier::external_body]
    pub fn get(&self, name: &String) -> (r: Option<&Vec<String>>)
        ensures
            match r {
                Option::Some(bounds) => find_key(generics_entries(*self), name@) >= 0
                    && bounds.deep_view() == generics_entries(*self)[find_key(
                    generics_entries(*self),
                    name@,
                )].1,
                Option::None => find_key(generics_entries(*self), name@) == -1,
            },
    {
        self.inner.get(name)
    }

    /// Relies on `indexmap::IndexMap::clone`: a map with the same entries in
    /// the same order.
    #[verifier::external_body]
    pub fn duplicate(&self) -> (r: Generics)
        ensures
            generics_entries(r) == generics_entries(*self),
    {
        Generics { inner: self.inner.clone() }
    }
}

} // verus!
