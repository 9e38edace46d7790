//! Declaration modifiers, stored as a bit set in a `u8`.

use vstd::prelude::*;

verus! {

/// A single declaration modifier.
#[derive(Clone, Copy, PartialEq, Eq, Structural, Debug)]
pub enum Modifier {
    /// Visible outside the declaring module.
    Public,
    /// Provided by the language runtime; has no checkable body.
    Internal,
    /// Provided by foreign code; has no checkable body.
    Extern,
    /// An abstract trait-method declaration; its body may be absent.
    Trait,
}

impl Modifier {
    /// The bit this modifier occupies in a modifier set.
    pub open spec fn spec_flag(self) -> u8 {
        match self {
            Modifier::Public => 1,
            Modifier::Internal => 2,
            Modifier::Extern => 4,
            Modifier::Trait => 8,
        }
    }

    /// The bit this modifier occupies in a modifier set.
    #[verifier::when_used_as_spec(spec_flag)]
    pub fn flag(self) -> (r: u8)
        ensures
            r == self.spec_flag(),
    {
        match self {
            Modifier::Public => 1,
            Modifier::Internal => 2,
            Modifier::Extern => 4,
            Modifier::Trait => 8,
        }
    }

    /// The textual form of this modifier.
    pub fn text(self) -> (r: String)
        ensures
            r@ == self.spec_text(),
    {
        match self {
            Modifier::Public => "pub".to_owned(),
            Modifier::Internal => "internal".to_owned(),
            Modifier::Extern => "extern_mod".to_owned(),
            Modifier::Trait => "trait_mod".to_owned(),
        }
    }

    /// The textual form of this modifier.
    pub open spec fn spec_text(self) -> Seq<char> {
        match self {
            Modifier::Public => "pub"@,
            Modifier::Internal => "internal"@,
            Modifier::Extern => "extern_mod"@,
            Modifier::Trait => "trait_mod"@,
        }
    }
}

/// Whether a modifier set contains the given modifier.
pub open spec fn spec_is_modifier(modifiers: u8, modifier: Modifier) -> bool {
    modifiers & modifier.spec_flag() != 0
}

/// Whether a modifier set contains the given modifier.
#[verifier::when_used_as_spec(spec_is_modifier)]
pub fn is_modifier(modifiers: u8, modifier: Modifier) -> (r: bool)
    ensures
        r == spec_is_modifier(modifiers, modifier),
{
    modifiers & modifier.flag() != 0
}

/// The list of modifiers a modifier set contains, in a fixed order.
pub open spec fn spec_to_modifiers(modifiers: u8) -> Seq<Modifier> {
    (if spec_is_modifier(modifiers, Modifier::Public) { seq![Modifier::Public] } else { Seq::empty() })
    + (if spec_is_modifier(modifiers, Modifier::Internal) { seq![Modifier::Internal] } else { Seq::empty() })
    + (if spec_is_modifier(modifiers, Modifier::Extern) { seq![Modifier::Extern] } else { Seq::empty() })
    + (if spec_is_modifier(modifiers, Modifier::Trait) { seq![Modifier::Trait] } else { Seq::empty() })
}

/// The list of modifiers a modifier set contains, in a fixed order.
pub fn to_modifiers(modifiers: u8) -> (r: Vec<Modifier>)
    ensures
        r@ == spec_to_modifiers(modifiers),
{
    let mut r: Vec<Modifier> = Vec::new();
    if is_modifier(modifiers, Modifier::Public) {
        r.push(Modifier::Public);
    }
    if is_modifier(modifiers, Modifier::Internal) {
        r.push(Modifier::Internal);
    }
    if is_modifier(modifiers, Modifier::Extern) {
        r.push(Modifier::Extern);
    }
    if is_modifier(modifiers, Modifier::Trait) {
        r.push(Modifier::Trait);
    }
    proof {
        assert(r@ =~= spec_to_modifiers(modifiers));
    }
    r
}

} // verus!
