//! Struct declarations.  A struct enters the store the instant its signature
//! is known; a poisoned struct carries its errors but remains usable as a
//! typed stand-in so dependents can continue checking.

use vstd::prelude::*;
use crate::errors::ParsingError;
use crate::generics::Generics;
use crate::modifiers::Modifier;
use crate::types::{Attribute, FinalizedMemberField, MemberField};

verus! {

/// An unresolved struct declaration: modifiers, name, generic parameters with
/// the names of their bound traits, attributes, ordered fields, the names of
/// its member functions, the names of the traits it implements, and the
/// poison list, non-empty only when the struct is invalid.
pub struct Struct {
    pub modifiers: u8,
    pub name: String,
    pub generics: Vec<(String, Vec<String>)>,
    pub attributes: Vec<Attribute>,
    pub fields: Vec<MemberField>,
    pub functions: Vec<String>,
    pub traits: Vec<String>,
    pub poisoned: Vec<ParsingError>,
}

impl Struct {
    /// A new struct declaration; it implements no traits yet and is not poisoned.
    pub fn new(
        attributes: Vec<Attribute>,
        fields: Vec<MemberField>,
        generics: Vec<(String, Vec<String>)>,
        functions: Vec<String>,
        modifiers: u8,
        name: String,
    ) -> (r: Struct)
        ensures
            r.attributes == attributes,
            r.fields == fields,
            r.generics == generics,
            r.functions == functions,
            r.modifiers == modifiers,
            r.name == name,
            r.traits@.len() == 0,
            r.poisoned@.len() == 0,
    {
        Struct {
            attributes,
            modifiers,
            generics,
            fields,
            functions,
            name,
            traits: Vec::new(),
            poisoned: Vec::new(),
        }
    }

    /// A poisoned stand-in for a declaration that failed validation: it
    /// carries exactly the given error and stays usable under its name.
    pub fn new_poisoned(name: String, error: ParsingError) -> (r: Struct)
        ensures
            r.name == name,
            r.poisoned@.len() == 1,
            r.poisoned@[0] == error,
            r.modifiers == 0,
            r.attributes@.len() == 0,
            r.generics@.len() == 0,
            r.fields@.len() == 0,
            r.functions@.len() == 0,
            r.traits@.len() == 0,
    {
        let mut poisoned: Vec<ParsingError> = Vec::new();
        poisoned.push(error);
        Struct {
            attributes: Vec::new(),
            modifiers: 0,
            name,
            generics: Vec::new(),
            fields: Vec::new(),
            functions: Vec::new(),
            traits: Vec::new(),
            poisoned,
        }
    }
}

impl Struct {
    /// A copy of this declaration whose name, modifiers, generic parameters,
    /// fields, member functions, and trait list display the same.
    pub fn duplicate(&self) -> (r: Struct)
        ensures
            r.name@ == self.name@,
            r.modifiers == self.modifiers,
            r.functions.deep_view() == self.functions.deep_view(),
            r.traits.deep_view() == self.traits.deep_view(),
            r.fields@.len() == self.fields@.len(),
            forall|i: int|
                0 <= i < self.fields@.len() ==> (#[trigger] r.fields@[i]).field.name@
                    == self.fields@[i].field.name@ && r.fields@[i].field.field_type@
                    == self.fields@[i].field.field_type@ && r.fields@[i].modifiers
                    == self.fields@[i].modifiers,
            r.generics@.len() == self.generics@.len(),
            forall|i: int|
                0 <= i < self.generics@.len() ==> (#[trigger] r.generics@[i]).0@
                    == self.generics@[i].0@ && r.generics@[i].1.deep_view()
                    == self.generics@[i].1.deep_view(),
            r.attributes@.len() == self.attributes@.len(),
            r.poisoned@.len() == self.poisoned@.len(),
    {
        let mut fields: Vec<MemberField> = Vec::new();
        let mut i: usize = 0;
        while i < self.fields.len()
            invariant
                i <= self.fields@.len(),
                fields@.len() == i,
                forall|j: int|
                    0 <= j < i ==> (#[trigger] fields@[j]).field.name@ == self.fields@[j].field
                        .name@ && fields@[j].field.field_type@ == self.fields@[j].field
                        .field_type@ && fields@[j].modifiers == self.fields@[j].modifiers,
            decreases self.fields@.len() - i,
        {
            let f = &self.fields[i];
            fields.push(
                MemberField {
                    modifiers: f.modifiers,
                    attributes: crate::types::duplicate_attributes(&f.attributes),
                    field: crate::types::Field {
                        name: f.field.name.clone(),
                        field_type: f.field.field_type.duplicate(),
                    },
                },
            );
            i += 1;
        }
        let mut generics: Vec<(String, Vec<String>)> = Vec::new();
        let mut g: usize = 0;
        while g < self.generics.len()
            invariant
                g <= self.generics@.len(),
                generics@.len() == g,
                forall|j: int|
                    0 <= j < g ==> (#[trigger] generics@[j]).0@ == self.generics@[j].0@
                        && generics@[j].1.deep_view() == self.generics@[j].1.deep_view(),
            decreases self.generics@.len() - g,
        {
            generics.push(
                (self.generics[g].0.clone(), crate::types::duplicate_names(&self.generics[g].1)),
            );
            g += 1;
        }
        let mut poisoned: Vec<ParsingError> = Vec::new();
        let mut p: usize = 0;
        while p < self.poisoned.len()
            invariant
                p <= self.poisoned@.len(),
                poisoned@.len() == p,
            decreases self.poisoned@.len() - p,
        {
            poisoned.push(self.poisoned[p].duplicate());
            p += 1;
        }
        Struct {
            modifiers: self.modifiers,
            name: self.name.clone(),
            generics,
            attributes: crate::types::duplicate_attributes(&self.attributes),
            fields,
            functions: crate::types::duplicate_names(&self.functions),
            traits: crate::types::duplicate_names(&self.traits),
            poisoned,
        }
    }
}

impl PartialEq for Struct {
    /// Declaration identity: two struct declarations are equal iff their
    /// stable names match.
    fn eq(&self, other: &Struct) -> (r: bool) {
        self.name.eq(&other.name)
    }
}

impl vstd::std_specs::cmp::PartialEqSpecImpl for Struct {
    open spec fn obeys_eq_spec() -> bool {
        true
    }

    open spec fn eq_spec(&self, other: &Struct) -> bool {
        self.name@ == other.name@
    }
}

/// A finalized struct: fields fully typed, with the poison list if any.
pub struct FinalizedStruct {
    pub modifiers: u8,
    pub name: String,
    pub generics: Generics,
    pub fields: Vec<FinalizedMemberField>,
    pub functions: Vec<String>,
    pub traits: Vec<String>,
    pub poisoned: Vec<ParsingError>,
}

/// A built-in struct provided by the language runtime: no fields, no
/// generics, the internal modifier, and the given name.
pub fn internal_struct(name: String) -> (r: Struct)
    ensures
        r.name == name,
        r.modifiers == Modifier::Internal.spec_flag(),
        r.fields@.len() == 0,
        r.functions@.len() == 0,
        r.traits@.len() == 0,
        r.poisoned@.len() == 0,
{
    Struct::new(Vec::new(), Vec::new(), Vec::new(), Vec::new(), Modifier::Internal.flag(), name)
}

/// The built-in 64-bit signed integer type.
pub fn i64_type() -> (r: Struct)
    ensures
        r.name@ == "i64"@,
        r.poisoned@.len() == 0,
{
    internal_struct("i64".to_owned())
}

/// The built-in 64-bit unsigned integer type.
pub fn u64_type() -> (r: Struct)
    ensures
        r.name@ == "u64"@,
        r.poisoned@.len() == 0,
{
    internal_struct("u64".to_owned())
}

/// The built-in 64-bit floating-point type, known here only by name.
pub fn f64_type() -> (r: Struct)
    ensures
        r.name@ == "f64"@,
        r.poisoned@.len() == 0,
{
    internal_struct("f64".to_owned())
}

/// The built-in string type.
pub fn str_type() -> (r: Struct)
    ensures
        r.name@ == "str"@,
        r.poisoned@.len() == 0,
{
    internal_struct("str".to_owned())
}

/// The void/unit type: the search type of a static trait-function call.
pub fn void_type() -> (r: Struct)
    ensures
        r.name@ == "void"@,
        r.poisoned@.len() == 0,
{
    internal_struct("void".to_owned())
}

} // verus!
