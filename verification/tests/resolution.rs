//! End-to-end checks of the semantic-resolution core: forward and cyclic
//! references, poison propagation, return-path completeness, and the three
//! dispatch decisions of the implementation resolver.

use checker::driver::check_program;
use checker::errors::ErrorKind;
use checker::function::{
    CodeBody, EffectType, Effects, Expression, ExpressionType, FinalizedEffectType, FunctionData,
    ImplCallSite, UnfinalizedFunction,
};
use checker::coordinator::HandleWrapper;
use checker::modifiers::Modifier;
use checker::output::TypesChecker;
use checker::store::{Syntax, TraitImpl};
use checker::structure::{Struct, i64_type};
use checker::tokens::{CodeErrorToken, Span};
use checker::types::{Field, MemberField, Types};

fn span(n: usize) -> Span {
    Span { start: n, end: n + 1 }
}

fn line(effect_types: EffectType, n: usize) -> Expression {
    Expression {
        expression_type: ExpressionType::Line,
        effect: Effects { span: span(n), types: effect_types },
    }
}

fn plain_function(name: &str, code: CodeBody) -> UnfinalizedFunction {
    UnfinalizedFunction {
        generics: Vec::new(),
        fields: Vec::new(),
        return_type: None,
        data: FunctionData { attributes: Vec::new(), modifiers: 0, name: name.to_string() },
        code,
        token: CodeErrorToken::make_empty(),
    }
}

fn method_function(name: &str, receiver_type: &str) -> UnfinalizedFunction {
    let mut f = plain_function(name, CodeBody { expressions: Vec::new(), label: String::new() });
    f.fields.push(MemberField {
        modifiers: 0,
        attributes: Vec::new(),
        field: Field {
            name: "self_arg".to_string(),
            field_type: Types::Named(receiver_type.to_string(), Vec::new()),
        },
    });
    f
}

fn checker_instance() -> TypesChecker {
    TypesChecker::new(HandleWrapper::new(), false)
}

fn simple_struct(name: &str, traits: Vec<String>, functions: Vec<String>) -> Struct {
    let mut s = Struct::new(Vec::new(), Vec::new(), Vec::new(), functions, 0, name.to_string());
    s.traits = traits;
    s
}

fn finalized_function<'a>(syntax: &'a Syntax, name: &str) -> &'a checker::function::FinalizedFunction {
    let entry = syntax.lookup_function(&name.to_string()).expect("function registered");
    entry.finalized.as_ref().expect("function finalized")
}

fn impl_call(receiver: &str, trait_name: &str, method: &str, n: usize) -> Expression {
    line(
        EffectType::ImplementationCall(Box::new(ImplCallSite {
            calling: Some(Effects {
                span: span(n),
                types: EffectType::LoadVariable(receiver.to_string()),
            }),
            trait_name: trait_name.to_string(),
            method: method.to_string(),
            arguments: Vec::new(),
            returning: None,
        })),
        n,
    )
}

#[test]
fn forward_reference_resolves() {
    // Function a calls function b, declared after a in input order.
    let a = plain_function(
        "a",
        CodeBody {
            expressions: vec![line(EffectType::FunctionCall("b".to_string(), Vec::new()), 1)],
            label: String::new(),
        },
    );
    let b = plain_function("b", CodeBody { expressions: Vec::new(), label: String::new() });
    let mut checker = checker_instance();
    let syntax = check_program(&mut checker, Vec::new(), vec![a, b], Vec::new());
    assert!(syntax.errors.is_empty());
    let fa = finalized_function(&syntax, "a");
    match &fa.code.expressions[0].effect.types {
        FinalizedEffectType::FunctionCall(name, args) => {
            assert_eq!(name, "b");
            assert!(args.is_empty());
        }
        other => panic!("expected a resolved call, got {:?}", discriminant_name(other)),
    }
    let fb = finalized_function(&syntax, "b");
    assert!(fb.code.complete);
}

fn discriminant_name(t: &FinalizedEffectType) -> &'static str {
    match t {
        FinalizedEffectType::NOP => "nop",
        FinalizedEffectType::LoadVariable(_) => "load",
        FinalizedEffectType::FunctionCall(_, _) => "call",
        FinalizedEffectType::VirtualCall(_, _, _) => "virtual",
        FinalizedEffectType::GenericVirtualCall(_, _, _, _) => "generic virtual",
    }
}

#[test]
fn cyclic_reference_finalizes() {
    // struct Node { next: &Node } finalizes without deadlock.
    let mut node = simple_struct("Node", Vec::new(), Vec::new());
    node.fields.push(MemberField {
        modifiers: 0,
        attributes: Vec::new(),
        field: Field {
            name: "next".to_string(),
            field_type: Types::Reference(Box::new(Types::Named(
                "Node".to_string(),
                Vec::new(),
            ))),
        },
    });
    let mut checker = checker_instance();
    let syntax = check_program(&mut checker, vec![node], Vec::new(), Vec::new());
    assert!(syntax.errors.is_empty());
    let entry = syntax.lookup_struct(&"Node".to_string()).expect("registered");
    let finalized = entry.finalized.as_ref().expect("finalized");
    assert!(finalized.poisoned.is_empty());
    assert_eq!(finalized.fields.len(), 1);
}

#[test]
fn poisoned_struct_still_usable() {
    // A struct with an invalid field type finalizes as poisoned but still
    // yields a named type, and checking of the rest proceeds.
    let mut bad = simple_struct("Bad", Vec::new(), Vec::new());
    bad.fields.push(MemberField {
        modifiers: 0,
        attributes: Vec::new(),
        field: Field {
            name: "x".to_string(),
            field_type: Types::Named("Missing".to_string(), Vec::new()),
        },
    });
    let good = simple_struct("Good", Vec::new(), Vec::new());
    let mut checker = checker_instance();
    let syntax = check_program(&mut checker, vec![bad, good], Vec::new(), Vec::new());
    let entry = syntax.lookup_struct(&"Bad".to_string()).expect("registered");
    let finalized = entry.finalized.as_ref().expect("finalized despite poison");
    assert_eq!(finalized.name, "Bad");
    assert!(!finalized.poisoned.is_empty());
    assert_eq!(finalized.poisoned[0].kind, ErrorKind::UnresolvedName);
    assert!(!syntax.errors.is_empty());
    let good_entry = syntax.lookup_struct(&"Good".to_string()).expect("registered");
    assert!(good_entry.finalized.as_ref().expect("finalized").poisoned.is_empty());
}

#[test]
fn implicit_return_inserted() {
    // No declared return type and a body falling through: a synthesized
    // return-none terminal is appended and the body is complete.
    let f = plain_function(
        "falls_through",
        CodeBody { expressions: vec![line(EffectType::NOP, 1)], label: String::new() },
    );
    let mut checker = checker_instance();
    let syntax = check_program(&mut checker, Vec::new(), vec![f], Vec::new());
    assert!(syntax.errors.is_empty());
    let ff = finalized_function(&syntax, "falls_through");
    assert!(ff.code.complete);
    assert_eq!(ff.code.expressions.len(), 2);
    assert!(matches!(ff.code.expressions[1].expression_type, ExpressionType::Return(_)));
}

#[test]
fn missing_return_is_one_error() {
    // A declared i64 return type with no return on the only path gives
    // exactly one incomplete-return error, and later declarations proceed.
    let mut f = plain_function(
        "needs_return",
        CodeBody { expressions: vec![line(EffectType::NOP, 1)], label: String::new() },
    );
    f.return_type = Some(Types::Named("i64".to_string(), Vec::new()));
    let after = plain_function("after", CodeBody { expressions: Vec::new(), label: String::new() });
    let mut checker = checker_instance();
    let syntax = check_program(&mut checker, vec![i64_type()], vec![f, after], Vec::new());
    let incomplete: Vec<_> = syntax
        .errors
        .iter()
        .filter(|e| e.kind == ErrorKind::IncompleteReturn)
        .collect();
    assert_eq!(incomplete.len(), 1);
    assert_eq!(syntax.errors.len(), 1);
    let fa = finalized_function(&syntax, "after");
    assert!(fa.code.complete);
}

#[test]
fn virtual_dispatch_uses_slot_index() {
    // Trait Shape declares [draw, area]; a receiver whose type declares the
    // trait resolves area at slot 1.
    let shape = simple_struct(
        "Shape",
        Vec::new(),
        vec!["draw".to_string(), "area".to_string()],
    );
    let circle = simple_struct("Circle", vec!["Shape".to_string()], Vec::new());
    let draw = method_function("draw", "Circle");
    let area = method_function("area", "Circle");
    let mut caller = method_function("use_area", "Circle");
    caller.code.expressions.push(impl_call("self_arg", "Shape", "area", 3));
    let mut checker = checker_instance();
    let syntax = check_program(
        &mut checker,
        vec![shape, circle],
        vec![draw, area, caller],
        Vec::new(),
    );
    assert!(syntax.errors.is_empty(), "errors: {:?}", syntax.errors);
    let fc = finalized_function(&syntax, "use_area");
    match &fc.code.expressions[0].effect.types {
        FinalizedEffectType::VirtualCall(slot, name, args) => {
            assert_eq!(*slot, 1);
            assert_eq!(name, "area");
            assert_eq!(args.len(), 1);
        }
        other => panic!("expected a virtual call, got {}", discriminant_name(other)),
    }
}

#[test]
fn implementation_search_matches_receiver_type() {
    // Implementations of Drawable exist for Circle and Square; a call
    // through a Circle receiver picks the Circle implementation whichever
    // order they were registered in.
    for flip in [false, true] {
        let drawable = simple_struct("Drawable", Vec::new(), Vec::new());
        let circle = simple_struct("Circle", Vec::new(), Vec::new());
        let square = simple_struct("Square", Vec::new(), Vec::new());
        let circle_draw = method_function("Circle::Drawable::draw", "Circle");
        let square_draw = method_function("Square::Drawable::draw", "Square");
        let mut caller = method_function("draw_it", "Circle");
        caller.code.expressions.push(impl_call("self_arg", "Drawable", "draw", 4));
        let circle_impl = TraitImpl {
            trait_name: "Drawable".to_string(),
            target_name: "Circle".to_string(),
            methods: vec!["Circle::Drawable::draw".to_string()],
        };
        let square_impl = TraitImpl {
            trait_name: "Drawable".to_string(),
            target_name: "Square".to_string(),
            methods: vec!["Square::Drawable::draw".to_string()],
        };
        let impls = if flip {
            vec![square_impl, circle_impl]
        } else {
            vec![circle_impl, square_impl]
        };
        let mut checker = checker_instance();
        let syntax = check_program(
            &mut checker,
            vec![drawable, circle, square],
            vec![circle_draw, square_draw, caller],
            impls,
        );
        assert!(syntax.errors.is_empty(), "errors: {:?}", syntax.errors);
        let fc = finalized_function(&syntax, "draw_it");
        match &fc.code.expressions[0].effect.types {
            FinalizedEffectType::FunctionCall(name, args) => {
                assert_eq!(name, "Circle::Drawable::draw");
                assert_eq!(args.len(), 1);
            }
            other => panic!("expected a static call, got {}", discriminant_name(other)),
        }
    }
}

#[test]
fn ambiguous_unqualified_method() {
    // Two methods on the receiver's surface match the unqualified name:
    // exactly one ambiguous-method error, no finalized call.
    let shape = simple_struct("Shape2", Vec::new(), vec!["Shape2::area".to_string()]);
    let rect = simple_struct(
        "Rect",
        vec!["Shape2".to_string()],
        vec!["Rect::area".to_string(), "Other::area".to_string()],
    );
    let mut caller = method_function("ambiguous_call", "Rect");
    caller.code.expressions.push(impl_call("self_arg", "Shape2", "area", 5));
    let mut checker = checker_instance();
    let syntax = check_program(&mut checker, vec![shape, rect], vec![caller], Vec::new());
    let ambiguous: Vec<_> = syntax
        .errors
        .iter()
        .filter(|e| e.kind == ErrorKind::AmbiguousMethod)
        .collect();
    assert_eq!(ambiguous.len(), 1);
}

#[test]
fn unknown_method_reported() {
    let shape = simple_struct("Shape", Vec::new(), vec!["area".to_string()]);
    let circle = simple_struct("Circle", vec!["Shape".to_string()], Vec::new());
    let area = method_function("area", "Circle");
    let mut caller = method_function("wrong_call", "Circle");
    caller.code.expressions.push(impl_call("self_arg", "Shape", "volume", 6));
    let mut checker = checker_instance();
    let syntax = check_program(&mut checker, vec![shape, circle], vec![area, caller], Vec::new());
    assert!(syntax.errors.iter().any(|e| e.kind == ErrorKind::UnknownMethod));
}

#[test]
fn liveness_terminates_without_implementations() {
    // No implementation of the required trait is ever registered: the
    // search terminates once the liveness signal fires, with the
    // no-implementation error attached to the call's span.
    let ghostly = simple_struct("Ghostly", Vec::new(), Vec::new());
    let thing = simple_struct("Thing", Vec::new(), Vec::new());
    let mut caller = method_function("haunt", "Thing");
    caller.code.expressions.push(impl_call("self_arg", "Ghostly", "spook", 7));
    let mut checker = checker_instance();
    let syntax = check_program(&mut checker, vec![ghostly, thing], vec![caller], Vec::new());
    let missing: Vec<_> = syntax
        .errors
        .iter()
        .filter(|e| e.kind == ErrorKind::NoImplementation)
        .collect();
    assert_eq!(missing.len(), 1);
    assert_eq!(missing[0].span, span(7));
    assert_eq!(missing[0].message, "Nothing implements the given trait!");
    // The failing function still ends finalized as a placeholder.
    let entry = syntax.lookup_function(&"haunt".to_string()).expect("registered");
    assert!(entry.finalized.is_some());
}

#[test]
fn degenericization_job_registers_specialization() {
    // A generic trait method called with a concrete receiver resolves at
    // once to the concrete target, and the spawned job later registers the
    // specialized header.
    let shape = simple_struct("Shape3", Vec::new(), vec!["Shape3::area".to_string()]);
    let rect = simple_struct(
        "Rect3",
        vec!["Shape3".to_string()],
        vec!["Rect3::area".to_string()],
    );
    let trait_method = method_function("Shape3::area", "Rect3");
    let target = method_function("Rect3::area", "Rect3");
    let mut caller = method_function("measure", "Rect3");
    caller.code.expressions.push(impl_call("self_arg", "Shape3", "area", 8));
    let mut checker = checker_instance();
    let syntax = check_program(
        &mut checker,
        vec![shape, rect],
        vec![trait_method, target, caller],
        Vec::new(),
    );
    assert!(syntax.errors.is_empty(), "errors: {:?}", syntax.errors);
    let fc = finalized_function(&syntax, "measure");
    match &fc.code.expressions[0].effect.types {
        FinalizedEffectType::VirtualCall(slot, name, _) => {
            assert_eq!(*slot, 0);
            assert_eq!(name, "Rect3::area");
        }
        other => panic!("expected a virtual call, got {}", discriminant_name(other)),
    }
    let specialized = syntax
        .lookup_function(&"Rect3::area::degenericed".to_string())
        .expect("specialization registered");
    let header = specialized.codeless.as_ref().expect("specialized header");
    // The specialized header carries the target's signature.
    assert_eq!(header.arguments.len(), 1);
    assert_eq!(header.arguments[0].field.name, "self_arg");
    assert!(header.return_type.is_none());
}

#[test]
fn empty_method_falls_through_to_search() {
    // An empty requested name means "the unique method": when the trait
    // declares one whose suffix is empty but the receiver has no concrete
    // overload, resolution falls through to implementation search instead
    // of failing.
    let any_trait = simple_struct("Any", Vec::new(), vec!["weird::".to_string()]);
    let holder = simple_struct("Holder", vec!["Any".to_string()], Vec::new());
    let provided = method_function("Holder::Any::go", "Holder");
    let mut caller = method_function("go_any", "Holder");
    caller.code.expressions.push(impl_call("self_arg", "Any", "", 11));
    let provided_impl = TraitImpl {
        trait_name: "Any".to_string(),
        target_name: "Holder".to_string(),
        methods: vec!["Holder::Any::go".to_string()],
    };
    let mut checker = checker_instance();
    let syntax = check_program(
        &mut checker,
        vec![any_trait, holder],
        vec![provided, caller],
        vec![provided_impl],
    );
    assert!(syntax.errors.is_empty(), "errors: {:?}", syntax.errors);
    let fc = finalized_function(&syntax, "go_any");
    match &fc.code.expressions[0].effect.types {
        FinalizedEffectType::FunctionCall(name, _) => {
            assert_eq!(name, "Holder::Any::go");
        }
        other => panic!("expected a static call, got {}", discriminant_name(other)),
    }
}

#[test]
fn trait_method_body_may_fall_through() {
    // An abstract trait-method declaration with a declared return type and
    // no returning body is permitted: no incomplete-return error.
    let mut f = plain_function(
        "Trait::abstract_area",
        CodeBody { expressions: Vec::new(), label: String::new() },
    );
    f.return_type = Some(Types::Named("i64".to_string(), Vec::new()));
    f.data.modifiers = Modifier::Trait.flag();
    let mut checker = checker_instance();
    let syntax = check_program(&mut checker, vec![i64_type()], vec![f], Vec::new());
    assert!(syntax.errors.is_empty(), "errors: {:?}", syntax.errors);
    let ff = finalized_function(&syntax, "Trait::abstract_area");
    assert!(!ff.code.complete);
}

#[test]
fn call_with_wrong_arity_is_invalid_bounds() {
    // A direct call whose argument list does not bind to the callee's
    // parameters is rejected with an invalid-bounds diagnostic.
    let callee = method_function("takes_one", "Thing2");
    let thing = simple_struct("Thing2", Vec::new(), Vec::new());
    let caller = plain_function(
        "calls_wrong",
        CodeBody {
            expressions: vec![line(
                EffectType::FunctionCall("takes_one".to_string(), Vec::new()),
                9,
            )],
            label: String::new(),
        },
    );
    let mut checker = checker_instance();
    let syntax = check_program(&mut checker, vec![thing], vec![callee, caller], Vec::new());
    assert!(syntax.errors.iter().any(|e| e.kind == ErrorKind::InvalidBounds));
}

#[test]
fn checker_configuration_accessors() {
    let mut checker = checker_instance();
    assert!(checker.handle().jobs.is_empty());
    assert!(checker.generics().is_empty());
    checker.mut_generics(
        "T".to_string(),
        checker::types::FinalizedTypes::Struct("i64".to_string(), Vec::new()),
    );
    assert_eq!(checker.generics().len(), 1);
    assert_eq!(checker.generics()[0].0, "T");
    let copy = checker.cloned();
    assert!(copy.generics().is_empty());
    assert!(copy.handle().jobs.is_empty());
}
