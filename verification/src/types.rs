//! Type references.  A reference is either unresolved, as written in source,
//! or finalized: a concrete struct reference, a generic parameter with its
//! trait bounds, or a reference wrapper around another finalized type.
//! Generic arguments and trait bounds are carried by name.
//! Contracts speak of the mathematical view of a type, `TypeV`, in which
//! names are character sequences; two types are the same iff their views are.

use vstd::prelude::*;

verus! {

/// An unresolved type reference, as produced by the parsing stage.
pub enum Types {
    /// A name plus the names of its generic arguments, as written in source.
    Named(String, Vec<String>),
    /// A generic parameter with the names of its bound traits.
    Generic(String, Vec<String>),
    /// A reference wrapper around another type.
    Reference(Box<Types>),
}

/// A finalized type reference.
pub enum FinalizedTypes {
    /// A concrete struct reference with the names of its type arguments.
    Struct(String, Vec<String>),
    /// A generic parameter bound to a set of resolved trait constraints.
    Generic(String, Vec<String>),
    /// A reference wrapper around another finalized type.
    Reference(Box<FinalizedTypes>),
}

/// The mathematical view of a type reference.
#[verifier::ext_equal]
pub enum TypeV {
    Struct(Seq<char>, Seq<Seq<char>>),
    Generic(Seq<char>, Seq<Seq<char>>),
    Reference(Box<TypeV>),
}

/// The view of an unresolved reference: a named reference views as a struct
/// reference of the same name, since resolution preserves the written shape.
pub open spec fn un_view(t: Types) -> TypeV
    decreases t,
{
    match t {
        Types::Named(name, args) => TypeV::Struct(name@, args.deep_view()),
        Types::Generic(name, bounds) => TypeV::Generic(name@, bounds.deep_view()),
        Types::Reference(inner) => TypeV::Reference(Box::new(un_view(*inner))),
    }
}

/// The view of a finalized reference.
pub open spec fn fin_view(t: FinalizedTypes) -> TypeV
    decreases t,
{
    match t {
        FinalizedTypes::Struct(name, args) => TypeV::Struct(name@, args.deep_view()),
        FinalizedTypes::Generic(name, bounds) => TypeV::Generic(name@, bounds.deep_view()),
        FinalizedTypes::Reference(inner) => TypeV::Reference(Box::new(fin_view(*inner))),
    }
}

impl View for Types {
    type V = TypeV;

    open spec fn view(&self) -> TypeV {
        un_view(*self)
    }
}

impl View for FinalizedTypes {
    type V = TypeV;

    open spec fn view(&self) -> TypeV {
        fin_view(*self)
    }
}

impl TypeV {
    /// The name of the struct this view stands for, looking through
    /// reference wrappers; the empty sequence for a generic parameter.
    pub open spec fn base_name(self) -> Seq<char>
        decreases self,
    {
        match self {
            TypeV::Struct(name, _) => name,
            TypeV::Generic(_, _) => Seq::empty(),
            TypeV::Reference(inner) => inner.base_name(),
        }
    }

    /// Whether this view is a generic parameter, looking through references.
    pub open spec fn is_generic(self) -> bool
        decreases self,
    {
        match self {
            TypeV::Struct(_, _) => false,
            TypeV::Generic(_, _) => true,
            TypeV::Reference(inner) => inner.is_generic(),
        }
    }
}

/// A copy of a list of names, preserving the view of each.
pub fn duplicate_names(list: &Vec<String>) -> (r: Vec<String>)
    ensures
        r.deep_view() =~= list.deep_view(),
{
    let mut r: Vec<String> = Vec::new();
    let mut i: usize = 0;
    while i < list.len()
        invariant
            i <= list@.len(),
            r@.len() == i,
            forall|j: int| 0 <= j < i ==> r@[j]@ == #[trigger] list@[j]@,
        decreases list@.len() - i,
    {
        r.push(list[i].clone());
        i += 1;
    }
    r
}

/// Whether two lists of names agree elementwise.
pub fn same_names(xs: &Vec<String>, ys: &Vec<String>) -> (r: bool)
    ensures
        r == (xs.deep_view() =~= ys.deep_view()),
{
    if xs.len() != ys.len() {
        proof {
            assert(xs.deep_view().len() != ys.deep_view().len());
        }
        return false;
    }
    let mut i: usize = 0;
    while i < xs.len()
        invariant
            xs@.len() == ys@.len(),
            i <= xs@.len(),
            forall|j: int| 0 <= j < i ==> xs@[j]@ == #[trigger] ys@[j]@,
        decreases xs@.len() - i,
    {
        if !(xs[i].eq(&ys[i])) {
            proof {
                assert(xs.deep_view()[i as int] != ys.deep_view()[i as int]);
            }
            return false;
        }
        i += 1;
    }
    proof {
        assert forall|j: int| 0 <= j < xs@.len() implies xs.deep_view()[j]
            == ys.deep_view()[j] by {
            assert(xs@[j]@ == ys@[j]@);
        }
        assert(xs.deep_view() =~= ys.deep_view());
    }
    true
}

impl Types {
    /// A copy whose view equals this reference's view.
    pub fn duplicate(&self) -> (r: Types)
        ensures
            r@ == self@,
        decreases *self,
    {
        match self {
            Types::Named(name, args) => {
                let r = Types::Named(name.clone(), duplicate_names(args));
                assert(r@ =~= self@);
                r
            },
            Types::Generic(name, bounds) => {
                let r = Types::Generic(name.clone(), duplicate_names(bounds));
                assert(r@ =~= self@);
                r
            },
            Types::Reference(inner) => Types::Reference(Box::new((**inner).duplicate())),
        }
    }
}

impl FinalizedTypes {
    /// A copy whose view equals this type's view.
    pub fn duplicate(&self) -> (r: FinalizedTypes)
        ensures
            r@ == self@,
        decreases *self,
    {
        match self {
            FinalizedTypes::Struct(name, args) => {
                let r = FinalizedTypes::Struct(name.clone(), duplicate_names(args));
                assert(r@ =~= self@);
                r
            },
            FinalizedTypes::Generic(name, bounds) => {
                let r = FinalizedTypes::Generic(name.clone(), duplicate_names(bounds));
                assert(r@ =~= self@);
                r
            },
            FinalizedTypes::Reference(inner) => FinalizedTypes::Reference(
                Box::new((**inner).duplicate()),
            ),
        }
    }

    /// The name of the struct this type stands for, looking through
    /// reference wrappers; `None` for a generic parameter.
    pub fn base_struct_name(&self) -> (r: Option<&String>)
        ensures
            match r {
                Option::Some(name) => !self@.is_generic() && name@ == self@.base_name(),
                Option::None => self@.is_generic(),
            },
        decreases *self,
    {
        match self {
            FinalizedTypes::Struct(name, _) => Option::Some(name),
            FinalizedTypes::Generic(_, _) => Option::None,
            FinalizedTypes::Reference(inner) => (**inner).base_struct_name(),
        }
    }

    /// Whether this type and `other` are the same type: equal views.
    pub fn same_type(&self, other: &FinalizedTypes) -> (r: bool)
        ensures
            r == (self@ == other@),
        decreases *self,
    {
        match self {
            FinalizedTypes::Struct(a, xs) => match other {
                FinalizedTypes::Struct(b, ys) => {
                    let r = *a == *b && same_names(xs, ys);
                    proof {
                        if r {
                            assert(self@ =~= other@);
                        }
                    }
                    r
                },
                _ => false,
            },
            FinalizedTypes::Generic(a, xs) => match other {
                FinalizedTypes::Generic(b, ys) => {
                    let r = *a == *b && same_names(xs, ys);
                    proof {
                        if r {
                            assert(self@ =~= other@);
                        }
                    }
                    r
                },
                _ => false,
            },
            FinalizedTypes::Reference(a) => match other {
                FinalizedTypes::Reference(b) => (**a).same_type(&**b),
                _ => false,
            },
        }
    }
}

/// A named attribute attached to a declaration or field.
pub struct Attribute {
    pub name: String,
}

/// A copy of an attribute list, preserving the name of each.
pub fn duplicate_attributes(list: &Vec<Attribute>) -> (r: Vec<Attribute>)
    ensures
        r@.len() == list@.len(),
        forall|i: int| 0 <= i < list@.len() ==> r@[i].name@ == #[trigger] list@[i].name@,
{
    let mut r: Vec<Attribute> = Vec::new();
    let mut i: usize = 0;
    while i < list.len()
        invariant
            i <= list@.len(),
            r@.len() == i,
            forall|j: int| 0 <= j < i ==> r@[j].name@ == #[trigger] list@[j].name@,
        decreases list@.len() - i,
    {
        r.push(Attribute { name: list[i].name.clone() });
        i += 1;
    }
    r
}

/// A copy of a list of finalized member fields, preserving names, types,
/// modifiers, and attribute names.
pub fn duplicate_fields(fields: &Vec<FinalizedMemberField>) -> (r: Vec<FinalizedMemberField>)
    ensures
        r@.len() == fields@.len(),
        forall|i: int|
            0 <= i < fields@.len() ==> (#[trigger] r@[i]).field.name@ == fields@[i].field.name@
                && r@[i].field.field_type@ == fields@[i].field.field_type@ && r@[i].modifiers
                == fields@[i].modifiers,
{
    let mut r: Vec<FinalizedMemberField> = Vec::new();
    let mut i: usize = 0;
    while i < fields.len()
        invariant
            i <= fields@.len(),
            r@.len() == i,
            forall|j: int|
                0 <= j < i ==> (#[trigger] r@[j]).field.name@ == fields@[j].field.name@
                    && r@[j].field.field_type@ == fields@[j].field.field_type@ && r@[j].modifiers
                    == fields@[j].modifiers,
        decreases fields@.len() - i,
    {
        let f = &fields[i];
        r.push(
            FinalizedMemberField {
                modifiers: f.modifiers,
                attributes: duplicate_attributes(&f.attributes),
                field: FinalizedField {
                    name: f.field.name.clone(),
                    field_type: f.field.field_type.duplicate(),
                },
            },
        );
        i += 1;
    }
    r
}

/// A field: a name and a type, before resolution.
pub struct Field {
    pub name: String,
    pub field_type: Types,
}

/// A struct member field: modifiers, attributes, and the field itself.
pub struct MemberField {
    pub modifiers: u8,
    pub attributes: Vec<Attribute>,
    pub field: Field,
}

/// A field whose type has been finalized.
pub struct FinalizedField {
    pub name: String,
    pub field_type: FinalizedTypes,
}

/// A finalized struct member field.
pub struct FinalizedMemberField {
    pub modifiers: u8,
    pub attributes: Vec<Attribute>,
    pub field: FinalizedField,
}

} // verus!
