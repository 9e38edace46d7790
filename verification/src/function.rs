//! Function declarations and code bodies.  A function exists in two forms:
//! codeless-finalized (signature resolved, body not yet checked) and
//! finalized (body checked, control-flow-complete).  Effects are modeled in
//! already-evaluated form: arguments of a call are named local variables.

use vstd::prelude::*;
use crate::generics::Generics;
use crate::tokens::{CodeErrorToken, Span};
use crate::types::{FinalizedMemberField, FinalizedTypes, MemberField, Types};

verus! {

/// The identity of a function: attributes, modifiers, and its stable name.
pub struct FunctionData {
    pub attributes: Vec<crate::types::Attribute>,
    pub modifiers: u8,
    pub name: String,
}

impl FunctionData {
    /// A new function identity.
    pub fn new(attributes: Vec<crate::types::Attribute>, modifiers: u8, name: String) -> (r:
        FunctionData)
        ensures
            r.attributes == attributes,
            r.modifiers == modifiers,
            r.name == name,
    {
        FunctionData { attributes, modifiers, name }
    }
}

/// What kind of line an expression is.
pub enum ExpressionType {
    /// An ordinary line.
    Line,
    /// A return terminating the body; carries the token it was made from.
    Return(CodeErrorToken),
}

/// An effect as written, in evaluated form.
pub struct Effects {
    pub span: Span,
    pub types: EffectType,
}

/// The kinds of effects the checker understands.
pub enum EffectType {
    /// No operation.
    NOP,
    /// Read a named local variable.
    LoadVariable(String),
    /// A direct call to a named function; arguments are named local variables.
    FunctionCall(String, Vec<String>),
    /// A pending call through a trait-typed receiver.
    ImplementationCall(Box<ImplCallSite>),
}

/// A pending call through a trait-typed receiver: the receiver expression
/// (or none, for static trait calls), the trait called through, the method
/// name (empty means "the unique method"), the already-evaluated arguments,
/// and an optional explicit return-type annotation used to disambiguate
/// generic results.
pub struct ImplCallSite {
    pub calling: Option<Effects>,
    pub trait_name: String,
    pub method: String,
    pub arguments: Vec<String>,
    pub returning: Option<Types>,
}

/// A finalized effect.
pub struct FinalizedEffects {
    pub span: Span,
    pub types: FinalizedEffectType,
}

impl FinalizedEffects {
    /// A finalized effect from its parts.
    pub fn new(span: Span, types: FinalizedEffectType) -> (r: FinalizedEffects)
        ensures
            r.span == span,
            r.types == types,
    {
        FinalizedEffects { span, types }
    }
}

/// The dispatch decision attached to each finalized effect.
pub enum FinalizedEffectType {
    /// No operation.
    NOP,
    /// Read a named local variable.
    LoadVariable(String),
    /// A static call to the named function with its evaluated arguments.
    FunctionCall(String, Vec<FinalizedEffects>),
    /// A virtual call at a fixed slot: the slot index in the trait's method
    /// list, the resolved method's name, and the evaluated arguments,
    /// receiver first.
    VirtualCall(usize, String, Vec<FinalizedEffects>),
    /// A virtual call whose concrete target depends on type information
    /// unavailable until runtime: the slot, the concrete target method found
    /// on the receiver, the trait method matched, and the arguments.
    GenericVirtualCall(usize, String, String, Vec<FinalizedEffects>),
}

/// An expression: what kind of line it is, and its effect.
pub struct Expression {
    pub expression_type: ExpressionType,
    pub effect: Effects,
}

/// A finalized expression.
pub struct FinalizedExpression {
    pub expression_type: ExpressionType,
    pub effect: FinalizedEffects,
}

impl FinalizedExpression {
    /// A finalized expression from its parts.
    pub fn new(expression_type: ExpressionType, effect: FinalizedEffects) -> (r:
        FinalizedExpression)
        ensures
            r.expression_type == expression_type,
            r.effect == effect,
    {
        FinalizedExpression { expression_type, effect }
    }
}

/// An unchecked code body: its expressions and its label.
pub struct CodeBody {
    pub expressions: Vec<Expression>,
    pub label: String,
}

impl CodeBody {
    /// A new code body.
    pub fn new(expressions: Vec<Expression>, label: String) -> (r: CodeBody)
        ensures
            r.expressions == expressions,
            r.label == label,
    {
        CodeBody { expressions, label }
    }
}

/// Whether a list of expressions ends in a return: the body is then
/// control-flow-complete.
pub open spec fn spec_body_complete(expressions: Seq<FinalizedExpression>) -> bool {
    expressions.len() > 0 && expressions.last().expression_type is Return
}

/// A checked code body: finalized expressions, the label, and whether the
/// body is control-flow-complete (ends in a return).
pub struct FinalizedCodeBody {
    pub expressions: Vec<FinalizedExpression>,
    pub label: String,
    pub complete: bool,
}

impl FinalizedCodeBody {
    /// A new checked code body.
    pub fn new(expressions: Vec<FinalizedExpression>, label: String, complete: bool) -> (r:
        FinalizedCodeBody)
        ensures
            r.expressions == expressions,
            r.label == label,
            r.complete == complete,
    {
        FinalizedCodeBody { expressions, label, complete }
    }
}

/// An unresolved function declaration: generic parameters with their bound
/// names, argument fields, the optional return type, its identity, its
/// unchecked body, and the token errors are attached to.
pub struct UnfinalizedFunction {
    pub generics: Vec<(String, Vec<String>)>,
    pub fields: Vec<MemberField>,
    pub return_type: Option<Types>,
    pub data: FunctionData,
    pub code: CodeBody,
    pub token: CodeErrorToken,
}

/// A codeless-finalized function: the signature is resolved and registered,
/// the body is not yet checked, so recursive and forward calls can resolve
/// against the signature before the body exists.
pub struct CodelessFinalizedFunction {
    pub generics: Generics,
    pub arguments: Vec<FinalizedMemberField>,
    pub return_type: Option<FinalizedTypes>,
    pub data: FunctionData,
    pub token: CodeErrorToken,
}

impl CodelessFinalizedFunction {
    /// A copy agreeing with this signature on everything contracts speak of.
    pub fn duplicate(&self) -> (r: CodelessFinalizedFunction)
        ensures
            r.data.name@ == self.data.name@,
            r.data.modifiers == self.data.modifiers,
            r.token == self.token,
            crate::generics::generics_entries(r.generics) == crate::generics::generics_entries(
                self.generics,
            ),
            r.arguments@.len() == self.arguments@.len(),
            forall|i: int|
                0 <= i < self.arguments@.len() ==> (#[trigger] r.arguments@[i]).field.name@
                    == self.arguments@[i].field.name@ && r.arguments@[i].field.field_type@
                    == self.arguments@[i].field.field_type@,
            match (r.return_type, self.return_type) {
                (Option::Some(a), Option::Some(b)) => a@ == b@,
                (Option::None, Option::None) => true,
                _ => false,
            },
    {
        let return_type = match &self.return_type {
            Option::Some(t) => Option::Some(t.duplicate()),
            Option::None => Option::None,
        };
        CodelessFinalizedFunction {
            generics: self.generics.duplicate(),
            arguments: crate::types::duplicate_fields(&self.arguments),
            return_type,
            data: FunctionData {
                attributes: crate::types::duplicate_attributes(&self.data.attributes),
                modifiers: self.data.modifiers,
                name: self.data.name.clone(),
            },
            token: self.token,
        }
    }

    /// Attaches a checked body, producing the finalized function.
    pub fn add_code(self, code: FinalizedCodeBody) -> (r: FinalizedFunction)
        ensures
            r.generics == self.generics,
            r.fields == self.arguments,
            r.return_type == self.return_type,
            r.data == self.data,
            r.token == self.token,
            r.code == code,
    {
        FinalizedFunction {
            generics: self.generics,
            fields: self.arguments,
            code,
            return_type: self.return_type,
            data: self.data,
            token: self.token,
        }
    }
}

/// A finalized function: fully typed signature and checked body.
pub struct FinalizedFunction {
    pub generics: Generics,
    pub fields: Vec<FinalizedMemberField>,
    pub code: FinalizedCodeBody,
    pub return_type: Option<FinalizedTypes>,
    pub data: FunctionData,
    pub token: CodeErrorToken,
}


} // verus!
