//! Unit checks of the model pieces: names, modifiers, the generics table,
//! declarations, the resolution protocol, and the surface formatter.

use checker::ast;
use checker::coordinator::specialized_name;
use checker::errors::{ErrorKind, ParsingError};
use checker::generics::Generics;
use checker::modifiers::{Modifier, is_modifier, to_modifiers};
use checker::names::unqualified_suffix;
use checker::resolve::{request_struct, request_function};
use checker::store::Syntax;
use checker::structure::{Struct, i64_type, u64_type, f64_type, str_type, void_type};
use checker::tokens::{CodeErrorToken, Span};

#[test]
fn suffix_after_separator() {
    assert_eq!(unqualified_suffix("Trait::method"), "method");
    assert_eq!(unqualified_suffix("a::b::c"), "c");
    assert_eq!(unqualified_suffix("plain"), "plain");
    assert_eq!(unqualified_suffix(""), "");
    assert_eq!(unqualified_suffix("ends::"), "");
    assert_eq!(unqualified_suffix(":a"), ":a");
}

#[test]
fn modifier_flags() {
    let m = Modifier::Internal.flag() | Modifier::Trait.flag();
    assert!(is_modifier(m, Modifier::Internal));
    assert!(is_modifier(m, Modifier::Trait));
    assert!(!is_modifier(m, Modifier::Extern));
    assert_eq!(to_modifiers(m), vec![Modifier::Internal, Modifier::Trait]);
}

#[test]
fn generics_table_keeps_insertion_order() {
    let mut g = Generics::new();
    assert_eq!(g.len(), 0);
    g.insert("T".to_string(), vec!["Display".to_string()]);
    g.insert("U".to_string(), Vec::new());
    assert_eq!(g.len(), 2);
    let (name, bounds) = g.get_index(0).expect("first entry");
    assert_eq!(name, "T");
    assert_eq!(bounds, &vec!["Display".to_string()]);
    let (name, _) = g.get_index(1).expect("second entry");
    assert_eq!(name, "U");
    // Inserting an existing key keeps its place and updates the value.
    g.insert("T".to_string(), vec!["Clone".to_string()]);
    assert_eq!(g.len(), 2);
    let (name, bounds) = g.get_index(0).expect("first entry kept in place");
    assert_eq!(name, "T");
    assert_eq!(bounds, &vec!["Clone".to_string()]);
    assert_eq!(g.get(&"U".to_string()).expect("bound entry").len(), 0);
    assert_eq!(g.get(&"V".to_string()), None);
}

#[test]
fn builtin_types_are_internal() {
    for (s, n) in [
        (i64_type(), "i64"),
        (u64_type(), "u64"),
        (f64_type(), "f64"),
        (str_type(), "str"),
        (void_type(), "void"),
    ] {
        assert_eq!(s.name, n);
        assert!(is_modifier(s.modifiers, Modifier::Internal));
        assert!(s.poisoned.is_empty());
    }
}

#[test]
fn poisoned_struct_carries_error() {
    let error = ParsingError::new(
        Span { start: 3, end: 9 },
        ErrorKind::InvalidBounds,
        "bad bounds".to_string(),
    );
    let s = Struct::new_poisoned("Broken".to_string(), error);
    assert_eq!(s.name, "Broken");
    assert_eq!(s.poisoned.len(), 1);
    assert_eq!(s.poisoned[0].kind, ErrorKind::InvalidBounds);
    assert_eq!(s.poisoned[0].span, Span { start: 3, end: 9 });
    assert_eq!(s.poisoned[0].message, "bad bounds");
}

#[test]
fn resolution_protocol_repolls() {
    let mut syntax = Syntax::new();
    // Not there yet: the request suspends and registers a waiter.
    assert!(!request_struct(&mut syntax, &"Late".to_string(), 7));
    assert_eq!(syntax.waiters.len(), 1);
    assert_eq!(syntax.waiters[0].name, "Late");
    assert_eq!(syntax.waiters[0].task, 7);
    // Registering an unrelated declaration resumes nobody.
    let resumed = syntax.register_struct(i64_type());
    assert!(resumed.is_empty());
    assert_eq!(syntax.waiters.len(), 1);
    // The declaration arrives: registration itself resumes its waiters,
    // and a re-poll of the request completes.
    let mut late = i64_type();
    late.name = "Late".to_string();
    let resumed = syntax.register_struct(late);
    assert_eq!(resumed, vec![7]);
    assert!(syntax.waiters.is_empty());
    assert!(request_struct(&mut syntax, &"Late".to_string(), 7));
    // Function requests follow the same protocol.
    assert!(!request_function(&mut syntax, &"f".to_string(), 9));
    assert_eq!(syntax.waiters.len(), 1);
}

#[test]
fn error_token_spans() {
    let token = CodeErrorToken::make_empty();
    let e = token.make_error(ErrorKind::UnknownMethod, "nope".to_string());
    assert_eq!(e.span, Span { start: 0, end: 0 });
    assert_eq!(e.kind, ErrorKind::UnknownMethod);
    let e2 = e.duplicate();
    assert_eq!(e2.kind, ErrorKind::UnknownMethod);
    assert_eq!(e2.message, "nope");
}

#[test]
fn specialization_names_are_mangled() {
    assert_eq!(specialized_name(&"Rect::area".to_string()), "Rect::area::degenericed");
}

#[test]
fn surface_struct_formats_exactly() {
    let fields = vec![
        ast::MemberField {
            modifiers: 0,
            name: "x".to_string(),
            field: ast::ResolvableTypes::Unresolved("i64".to_string()),
        },
        ast::MemberField {
            modifiers: 0,
            name: "next".to_string(),
            field: ast::ResolvableTypes::Unresolved("Node".to_string()),
        },
    ];
    let generics = vec![(
        "T".to_string(),
        vec![
            ast::ResolvableTypes::Unresolved("Display".to_string()),
            ast::ResolvableTypes::Unresolved("Clone".to_string()),
        ],
    )];
    let s = ast::Struct::new(
        Some(fields),
        generics,
        vec!["area".to_string()],
        Modifier::Public.flag(),
        "Node".to_string(),
    );
    let resolver = ast::TypeResolver {
        known_types: vec!["i64".to_string(), "Node".to_string()],
        functions: vec![ast::FunctionSig { name: "area".to_string() }],
    };
    let text = s.format("", &resolver);
    assert_eq!(
        text,
        "pub struct Node<T: Display + Clone> {\n    x: i64\n    next: Node\n\n    fn area\n}"
    );
}

#[test]
fn surface_finalize_resolves_known_names() {
    let fields = vec![ast::MemberField {
        modifiers: 0,
        name: "x".to_string(),
        field: ast::ResolvableTypes::Unresolved("i64".to_string()),
    }, ast::MemberField {
        modifiers: 0,
        name: "y".to_string(),
        field: ast::ResolvableTypes::Unresolved("Mystery".to_string()),
    }];
    let mut s = ast::Struct::new(Some(fields), Vec::new(), Vec::new(), 0, "P".to_string());
    let resolver = ast::TypeResolver {
        known_types: vec!["i64".to_string()],
        functions: Vec::new(),
    };
    s.finalize(&resolver);
    let fields = s.fields.as_ref().unwrap();
    assert!(matches!(&fields[0].field, ast::ResolvableTypes::Resolved(n) if n == "i64"));
    assert!(matches!(&fields[1].field, ast::ResolvableTypes::Unresolved(n) if n == "Mystery"));
    // Finalization is idempotent.
    s.finalize(&resolver);
    let fields = s.fields.as_ref().unwrap();
    assert!(matches!(&fields[0].field, ast::ResolvableTypes::Resolved(n) if n == "i64"));
}
