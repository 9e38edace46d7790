//! The surface data model of parsed struct declarations: resolvable type
//! references, a type resolver over known names, and the textual form of a
//! declaration.  Contracts pin the produced text down exactly, piece by
//! piece, through the spec functions beside each builder.

use vstd::prelude::*;
use crate::modifiers::{Modifier, spec_to_modifiers, to_modifiers};
use vstd::string::StringExecFns;

verus! {

/// A type reference of the surface model: a written name, resolved or not.
pub enum ResolvableTypes {
    /// A name as written, not yet checked against the known types.
    Unresolved(String),
    /// A name checked against the known types.
    Resolved(String),
}

/// The name a resolvable reference displays as.
pub open spec fn rt_name(t: ResolvableTypes) -> Seq<char> {
    match t {
        ResolvableTypes::Unresolved(n) => n@,
        ResolvableTypes::Resolved(n) => n@,
    }
}

/// What finalizing a reference against a resolver produces: a known
/// unresolved name becomes resolved; anything else is left unchanged.
pub open spec fn spec_finalize_rt(t: ResolvableTypes, resolver: TypeResolver) -> ResolvableTypes {
    match t {
        ResolvableTypes::Unresolved(n) => {
            if resolver.spec_knows(n@) {
                ResolvableTypes::Resolved(n)
            } else {
                ResolvableTypes::Unresolved(n)
            }
        },
        ResolvableTypes::Resolved(n) => ResolvableTypes::Resolved(n),
    }
}

/// A member function signature the resolver can hand out for display.
pub struct FunctionSig {
    pub name: String,
}

/// A resolver over the names known to the surface model.
pub struct TypeResolver {
    pub known_types: Vec<String>,
    pub functions: Vec<FunctionSig>,
}

impl TypeResolver {
    /// Whether the resolver knows a type of this name.
    pub open spec fn spec_knows(&self, name: Seq<char>) -> bool {
        exists|i: int| 0 <= i < self.known_types@.len() && self.known_types@[i]@ == name
    }

    /// Whether the resolver knows a function of this name.
    pub open spec fn spec_knows_function(&self, name: Seq<char>) -> bool {
        exists|i: int| 0 <= i < self.functions@.len() && self.functions@[i].name@ == name
    }

    /// Whether the resolver knows a type of this name.
    pub fn knows(&self, name: &String) -> (r: bool)
        ensures
            r == self.spec_knows(name@),
    {
        let mut i: usize = 0;
        while i < self.known_types.len()
            invariant
                i <= self.known_types@.len(),
                forall|j: int| 0 <= j < i ==> (#[trigger] self.known_types@[j])@ != name@,
            decreases self.known_types@.len() - i,
        {
            if self.known_types[i].eq(name) {
                return true;
            }
            i += 1;
        }
        false
    }

    /// The signature registered under a function name.
    pub fn get_function(&self, name: &String) -> (r: Option<&FunctionSig>)
        ensures
            match r {
                Option::Some(f) => f.name@ == name@ && self.spec_knows_function(name@),
                Option::None => !self.spec_knows_function(name@),
            },
    {
        let mut i: usize = 0;
        while i < self.functions.len()
            invariant
                i <= self.functions@.len(),
                forall|j: int| 0 <= j < i ==> (#[trigger] self.functions@[j]).name@ != name@,
            decreases self.functions@.len() - i,
        {
            if self.functions[i].name.eq(name) {
                return Option::Some(&self.functions[i]);
            }
            i += 1;
        }
        Option::None
    }
}

impl ResolvableTypes {
    /// Finalizes this reference against the resolver.  Finalization is
    /// idempotent: a resolved reference is returned unchanged, and the
    /// displayed name is never altered.
    pub fn finalize(&mut self, type_resolver: &TypeResolver)
        ensures
            *final(self) == spec_finalize_rt(*old(self), *type_resolver),
            rt_name(*final(self)) == rt_name(*old(self)),
    {
        let resolved = match self {
            ResolvableTypes::Unresolved(n) => {
                if type_resolver.knows(n) {
                    Option::Some(ResolvableTypes::Resolved(n.clone()))
                } else {
                    Option::None
                }
            },
            ResolvableTypes::Resolved(_) => Option::None,
        };
        match resolved {
            Option::Some(r) => {
                *self = r;
            },
            Option::None => {},
        }
    }
}

/// A member field of the surface model.
pub struct MemberField {
    pub modifiers: u8,
    pub name: String,
    pub field: ResolvableTypes,
}

/// A parsed struct declaration of the surface model: modifiers, generic
/// parameters with their bound references, optional fields, the names of
/// its member functions, and its name.
pub struct Struct {
    pub modifiers: u8,
    pub generics: Vec<(String, Vec<ResolvableTypes>)>,
    pub fields: Option<Vec<MemberField>>,
    pub functions: Vec<String>,
    pub name: String,
}

/// A list of displayed names joined by a separator.
pub open spec fn spec_join(items: Seq<Seq<char>>, sep: Seq<char>) -> Seq<char>
    decreases items.len(),
{
    if items.len() == 0 {
        Seq::empty()
    } else if items.len() == 1 {
        items[0]
    } else {
        spec_join(items.drop_last(), sep) + sep + items.last()
    }
}

/// The displayed modifier words of a modifier set.
pub open spec fn spec_modifier_text(modifiers: u8) -> Seq<char> {
    spec_join(spec_to_modifiers(modifiers).map_values(|m: Modifier| m.spec_text()), " "@)
}

/// One generic parameter as displayed: its name, and its bounds joined by
/// `+` when it has any.
pub open spec fn spec_generic_entry(entry: (String, Vec<ResolvableTypes>)) -> Seq<char> {
    entry.0@ + (if entry.1@.len() == 0 {
        Seq::<char>::empty()
    } else {
        ": "@ + spec_join(entry.1@.map_values(|t: ResolvableTypes| rt_name(t)), " + "@)
    })
}

/// The generic parameters as displayed, one after the other.
pub open spec fn spec_generic_entries(generics: Seq<(String, Vec<ResolvableTypes>)>) -> Seq<char>
    decreases generics.len(),
{
    if generics.len() == 0 {
        Seq::empty()
    } else {
        spec_generic_entries(generics.drop_last()) + spec_generic_entry(generics.last())
    }
}

/// The field lines as displayed: each on its own line at the deeper indent.
pub open spec fn spec_field_lines(fields: Seq<MemberField>, deeper: Seq<char>) -> Seq<char>
    decreases fields.len(),
{
    if fields.len() == 0 {
        Seq::empty()
    } else {
        spec_field_lines(fields.drop_last(), deeper) + "\n"@ + deeper + fields.last().name@
            + ": "@ + rt_name(fields.last().field)
    }
}

/// The member-function lines as displayed.
pub open spec fn spec_function_lines(functions: Seq<String>, deeper: Seq<char>) -> Seq<char>
    decreases functions.len(),
{
    if functions.len() == 0 {
        Seq::empty()
    } else {
        spec_function_lines(functions.drop_last(), deeper) + "\n"@ + deeper + "fn "@
            + functions.last()@ + "\n"@
    }
}

/// The whole declaration as displayed.
pub open spec fn spec_format(s: Struct, indent: Seq<char>) -> Seq<char> {
    let deeper = "    "@ + indent;
    spec_modifier_text(s.modifiers) + " struct "@ + s.name@ + (if s.generics@.len() == 0 {
        Seq::<char>::empty()
    } else {
        "<"@ + spec_generic_entries(s.generics@) + ">"@
    }) + " {"@ + (match s.fields {
        Option::Some(fields) => spec_field_lines(fields@, deeper),
        Option::None => Seq::empty(),
    }) + "\n"@ + spec_function_lines(s.functions@, deeper) + indent + "}"@
}

impl Struct {
    /// A new surface declaration from its parsed parts.
    pub fn new(
        fields: Option<Vec<MemberField>>,
        generics: Vec<(String, Vec<ResolvableTypes>)>,
        functions: Vec<String>,
        modifiers: u8,
        name: String,
    ) -> (r: Struct)
        ensures
            r.modifiers == modifiers,
            r.generics == generics,
            r.fields == fields,
            r.functions == functions,
            r.name == name,
    {
        Struct { modifiers, generics, fields, functions, name }
    }

    /// Finalizes every field's type against the resolver; a declaration
    /// without fields is left untouched.
    pub fn finalize(&mut self, type_resolver: &TypeResolver)
        ensures
            final(self).modifiers == old(self).modifiers,
            final(self).generics == old(self).generics,
            final(self).functions == old(self).functions,
            final(self).name == old(self).name,
            match (old(self).fields, final(self).fields) {
                (Option::Some(before), Option::Some(after)) => after@.len() == before@.len() && (
                forall|i: int|
                    0 <= i < before@.len() ==> (#[trigger] after@[i]).name == before@[i].name
                        && after@[i].modifiers == before@[i].modifiers && after@[i].field
                        == spec_finalize_rt(before@[i].field, *type_resolver)),
                (Option::None, Option::None) => true,
                _ => false,
            },
    {
        match &mut self.fields {
            Option::Some(fields) => {
                let n = fields.len();
                let mut i: usize = 0;
                while i < n
                    invariant
                        n == fields@.len(),
                        i <= n,
                        fields@.len() == old(self).fields->Some_0@.len(),
                        forall|j: int|
                            0 <= j < i ==> (#[trigger] fields@[j]).name == old(
                                self,
                            ).fields->Some_0@[j].name && fields@[j].modifiers == old(
                                self,
                            ).fields->Some_0@[j].modifiers && fields@[j].field == spec_finalize_rt(
                                old(self).fields->Some_0@[j].field,
                                *type_resolver,
                            ),
                        forall|j: int|
                            i <= j < n ==> fields@[j] == old(self).fields->Some_0@[j],
                    decreases n - i,
                {
                    let mut member = fields.remove(i);
                    member.field.finalize(type_resolver);
                    fields.insert(i, member);
                    i += 1;
                }
            },
            Option::None => {},
        }
    }

    /// The declaration's textual form: its modifiers, name, generic
    /// parameters with their bounds, fields at a deeper indent, and its
    /// member functions as the resolver knows them, closed at the given
    /// indent.  Every member function must be known to the resolver.
    pub fn format(&self, indent: &str, type_manager: &TypeResolver) -> (r: String)
        requires
            forall|i: int|
                0 <= i < self.functions@.len() ==> type_manager.spec_knows_function(
                    (#[trigger] self.functions@[i])@,
                ),
        ensures
            r@ == spec_format(*self, indent@),
    {
        let mut out = to_modifiers_text(self.modifiers);
        out.append(" struct ");
        out.append(self.name.as_str());
        if self.generics.len() > 0 {
            out.append("<");
            let mut i: usize = 0;
            while i < self.generics.len()
                invariant
                    i <= self.generics@.len(),
                    out@ == spec_modifier_text(self.modifiers) + " struct "@ + self.name@ + "<"@
                        + spec_generic_entries(self.generics@.take(i as int)),
                decreases self.generics@.len() - i,
            {
                proof {
                    assert(self.generics@.take(i + 1).drop_last() =~= self.generics@.take(
                        i as int,
                    ));
                }
                let entry = &self.generics[i];
                out.append(entry.0.as_str());
                if entry.1.len() > 0 {
                    out.append(": ");
                    let mut k: usize = 0;
                    while k < entry.1.len()
                        invariant
                            0 < entry.1@.len(),
                            k <= entry.1@.len(),
                            out@ == spec_modifier_text(self.modifiers) + " struct "@ + self.name@
                                + "<"@ + spec_generic_entries(self.generics@.take(i as int))
                                + entry.0@ + ": "@ + spec_join(
                                entry.1@.take(k as int).map_values(
                                    |t: ResolvableTypes| rt_name(t),
                                ),
                                " + "@,
                            ),
                        decreases entry.1@.len() - k,
                    {
                        proof {
                            assert(entry.1@.take(k + 1).map_values(
                                |t: ResolvableTypes| rt_name(t),
                            ).drop_last() =~= entry.1@.take(k as int).map_values(
                                |t: ResolvableTypes| rt_name(t),
                            ));
                        }
                        if k > 0 {
                            out.append(" + ");
                        }
                        match &entry.1[k] {
                            ResolvableTypes::Unresolved(n) => out.append(n.as_str()),
                            ResolvableTypes::Resolved(n) => out.append(n.as_str()),
                        }
                        k += 1;
                    }
                    proof {
                        assert(entry.1@.take(entry.1@.len() as int) =~= entry.1@);
                    }
                }
                proof {
                    assert(spec_generic_entries(self.generics@.take(i + 1))
                        =~= spec_generic_entries(self.generics@.take(i as int))
                        + spec_generic_entry(self.generics@[i as int]));
                }
                i += 1;
            }
            proof {
                assert(self.generics@.take(self.generics@.len() as int) =~= self.generics@);
            }
            out.append(">");
        }
        out.append(" {");
        let ghost header = out@;
        match &self.fields {
            Option::Some(fields) => {
                let mut i: usize = 0;
                while i < fields.len()
                    invariant
                        i <= fields@.len(),
                        out@ == header + spec_field_lines(fields@.take(i as int), "    "@
                            + indent@),
                    decreases fields@.len() - i,
                {
                    proof {
                        assert(fields@.take(i + 1).drop_last() =~= fields@.take(i as int));
                    }
                    out.append("\n");
                    out.append("    ");
                    out.append(indent);
                    out.append(fields[i].name.as_str());
                    out.append(": ");
                    match &fields[i].field {
                        ResolvableTypes::Unresolved(n) => out.append(n.as_str()),
                        ResolvableTypes::Resolved(n) => out.append(n.as_str()),
                    }
                    i += 1;
                }
                proof {
                    assert(fields@.take(fields@.len() as int) =~= fields@);
                }
            },
            Option::None => {},
        }
        out.append("\n");
        let ghost mid = out@;
        let mut i: usize = 0;
        while i < self.functions.len()
            invariant
                i <= self.functions@.len(),
                out@ == mid + spec_function_lines(self.functions@.take(i as int), "    "@
                    + indent@),
                forall|j: int|
                    0 <= j < self.functions@.len() ==> type_manager.spec_knows_function(
                        (#[trigger] self.functions@[j])@,
                    ),
            decreases self.functions@.len() - i,
        {
            proof {
                assert(self.functions@.take(i + 1).drop_last() =~= self.functions@.take(i as int));
            }
            let member = match type_manager.get_function(&self.functions[i]) {
                Option::Some(f) => f,
                Option::None => {
                    proof {
                        assert(false);
                    }
                    return out;
                },
            };
            out.append("\n");
            out.append("    ");
            out.append(indent);
            out.append("fn ");
            out.append(member.name.as_str());
            out.append("\n");
            i += 1;
        }
        proof {
            assert(self.functions@.take(self.functions@.len() as int) =~= self.functions@);
        }
        out.append(indent);
        out.append("}");
        proof {
            assert(out@ =~= spec_format(*self, indent@));
        }
        out
    }
}

/// The joined modifier words of a modifier set.
pub fn to_modifiers_text(modifiers: u8) -> (r: String)
    ensures
        r@ == spec_modifier_text(modifiers),
{
    let mods = to_modifiers(modifiers);
    let mut out = String::new();
    let mut i: usize = 0;
    while i < mods.len()
        invariant
            i <= mods@.len(),
            mods@ == spec_to_modifiers(modifiers),
            out@ == spec_join(mods@.take(i as int).map_values(|m: Modifier| m.spec_text()), " "@),
        decreases mods@.len() - i,
    {
        proof {
            assert(mods@.take(i + 1).map_values(|m: Modifier| m.spec_text()).drop_last()
                =~= mods@.take(i as int).map_values(|m: Modifier| m.spec_text()));
        }
        if i > 0 {
            out.append(" ");
        }
        let text = mods[i].text();
        out.append(text.as_str());
        i += 1;
    }
    proof {
        assert(mods@.take(mods@.len() as int) =~= mods@);
    }
    out
}

} // verus!
