use inherent::diagnostics::ErrorKind;
use inherent::expand;
use inherent::fresh::fresh_parameter_name;
use inherent::model::{Attribute, GenericKind, GenericParam, ImplementationBlock,
    ImplementationItem, Modifiers, OperationSignature, Parameter, Receiver, Statement};
use inherent::visibility::VisibilityChoice;

fn s(x: &str) -> String {
    x.to_string()
}

fn plain_modifiers() -> Modifiers {
    Modifiers { is_const: false, is_async: false, is_unsafe: false, abi: None }
}

fn op(name: &str, receiver: Receiver, body: Option<Vec<Statement>>) -> OperationSignature {
    OperationSignature {
        name: s(name),
        attributes: Vec::new(),
        visibility: s("pub"),
        generics: Vec::new(),
        where_clause: None,
        receiver,
        parameters: Vec::new(),
        return_type: None,
        modifiers: plain_modifiers(),
        body,
    }
}

fn block(items: Vec<ImplementationItem>) -> ImplementationBlock {
    ImplementationBlock {
        generics: Vec::new(),
        where_clause: None,
        interface_path: vec![s("Trait")],
        self_type: s("Struct"),
        items,
    }
}

/// The original interface scenario: `f<T: ?Sized>(self)` overridden,
/// `g(&self)` deferred to the interface default by a bare-`;` stub, and
/// an async `a(&self)` overridden.
#[test]
fn test() {
    let mut f = op("f", Receiver::ByValue(s("self")), Some(Vec::new()));
    f.generics = vec![GenericParam {
        kind: GenericKind::TypeParam,
        ident: s("T"),
        decl: s("T: ?Sized"),
    }];
    let g = op("g", Receiver::ByReference(s("&self")), Some(vec![Statement::Empty]));
    let mut a = op("a", Receiver::ByReference(s("&self")), Some(Vec::new()));
    a.modifiers.is_async = true;
    a.attributes = vec![Attribute { path: s("rustversion::since"), tokens: s("(1.75)") }];
    let input = block(vec![
        ImplementationItem::Operation(f),
        ImplementationItem::Operation(g),
        ImplementationItem::Operation(a),
    ]);
    let args: Vec<String> = Vec::new();
    let out = inherent::inherent(&args, input).expect("valid block");

    // One forwarding operation per interface operation, the stub first.
    assert_eq!(out.forwarding.len(), 3);
    assert_eq!(out.forwarding[0].name, "g");
    assert_eq!(out.forwarding[1].name, "f");
    assert_eq!(out.forwarding[2].name, "a");
    assert_eq!(out.forwarding[1].call_type_arguments, vec![s("T")]);
    assert_eq!(out.forwarding[1].call_arguments, vec![s("self")]);
    assert!(matches!(out.forwarding[1].receiver, Receiver::ByValue(ref t) if t == "self"));
    assert!(matches!(out.forwarding[0].receiver, Receiver::ByReference(ref t) if t == "&self"));
    for fwd in &out.forwarding {
        assert_eq!(fwd.visibility, VisibilityChoice::EcosystemPrivate);
    }

    // The stub is gone from the retained block; the overrides stay.
    assert_eq!(out.retained.items.len(), 2);
    match &out.retained.items[0] {
        ImplementationItem::Operation(m) => {
            assert_eq!(m.name, "f");
            assert_eq!(m.visibility, "");
            assert_eq!(m.body, Some(Vec::new()));
        },
        other => panic!("expected an operation, got {:?}", other),
    }
    match &out.retained.items[1] {
        ImplementationItem::Operation(m) => assert_eq!(m.name, "a"),
        other => panic!("expected an operation, got {:?}", other),
    }
}

/// The async operation keeps its modifier and its attributes on the
/// forwarding operation, and gets a synthesized doc cross-reference.
#[test]
fn test_async() {
    let mut a = op("a", Receiver::ByReference(s("&self")), Some(Vec::new()));
    a.modifiers.is_async = true;
    a.attributes = vec![Attribute { path: s("rustversion::since"), tokens: s("(1.75)") }];
    let input = block(vec![ImplementationItem::Operation(a)]);
    let args: Vec<String> = Vec::new();
    let out = inherent::inherent(&args, input).expect("valid block");
    assert_eq!(out.forwarding.len(), 1);
    let fwd = &out.forwarding[0];
    assert!(fwd.modifiers.is_async);
    assert!(!fwd.modifiers.is_const);
    assert_eq!(fwd.attributes.len(), 1);
    assert_eq!(fwd.attributes[0].path, "rustversion::since");
    assert_eq!(fwd.attributes[0].tokens, "(1.75)");
    assert_eq!(fwd.synthesized_doc, Some(s("See [`Trait::a`]")));
}

/// An interface with a by-value `f<T>(self)` override and a default
/// `g(&self)` declared as a stub: the wrapper block holds both
/// operations, `f` with its explicit type argument, and the retained
/// block holds only the override of `f`.
#[test]
fn by_value_and_default_stub() {
    let mut f = op("f", Receiver::ByValue(s("self")), Some(Vec::new()));
    f.generics = vec![GenericParam { kind: GenericKind::TypeParam, ident: s("T"), decl: s("T") }];
    let g = op("g", Receiver::ByReference(s("&self")), None);
    let input = block(vec![
        ImplementationItem::Operation(f),
        ImplementationItem::Operation(g),
    ]);
    let out = expand::inherent(VisibilityChoice::EcosystemPrivate, input);
    assert_eq!(out.forwarding.len(), 2);
    assert_eq!(out.forwarding[0].name, "g");
    assert_eq!(out.forwarding[1].name, "f");
    assert_eq!(out.forwarding[1].call_type_arguments, vec![s("T")]);
    assert_eq!(out.retained.items.len(), 1);
    match &out.retained.items[0] {
        ImplementationItem::Operation(m) => assert_eq!(m.name, "f"),
        other => panic!("expected the override of f, got {:?}", other),
    }
}

/// A path-scoped visibility argument is carried by every generated
/// operation, whatever visibility the source operations declared.
#[test]
fn path_scoped_visibility() {
    let mut f = op("f", Receiver::ByReference(s("&self")), Some(Vec::new()));
    f.visibility = s("pub(super)");
    let g = op("g", Receiver::ByReference(s("&self")), None);
    let input = block(vec![
        ImplementationItem::Operation(f),
        ImplementationItem::Operation(g),
    ]);
    let args = vec![s("in"), s("a"), s("::"), s("b")];
    let out = inherent::inherent(&args, input).expect("valid block");
    assert_eq!(out.forwarding.len(), 2);
    for fwd in &out.forwarding {
        assert_eq!(fwd.visibility, VisibilityChoice::ScopedToPath(vec![s("a"), s("b")]));
    }
}

/// A malformed visibility argument yields a single `MalformedVisibility`
/// diagnostic at the argument's position, and no output.
#[test]
fn malformed_visibility_argument() {
    let f = op("f", Receiver::ByReference(s("&self")), Some(Vec::new()));
    let input = block(vec![ImplementationItem::Operation(f)]);
    let args = vec![s("frob")];
    let err = inherent::inherent(&args, input).expect_err("malformed visibility");
    assert_eq!(err.diagnostics.len(), 1);
    assert_eq!(err.diagnostics[0].kind, ErrorKind::MalformedVisibility);
    assert_eq!(err.diagnostics[0].position, 0);
}

/// N overriding operations plus M stub markers give exactly N + M
/// forwarding operations, stubs first, each group in declaration order.
#[test]
fn forward_count_and_order() {
    let f1 = op("one", Receiver::ByReference(s("&self")), Some(Vec::new()));
    let s1 = op("two", Receiver::ByReference(s("&self")), None);
    let f2 = op("three", Receiver::Absent, Some(Vec::new()));
    let s2 = op("four", Receiver::ByValue(s("self")), None);
    let input = block(vec![
        ImplementationItem::Operation(f1),
        ImplementationItem::Operation(s1),
        ImplementationItem::Other(s("type Assoc = u8;")),
        ImplementationItem::Operation(f2),
        ImplementationItem::Operation(s2),
    ]);
    let out = expand::inherent(VisibilityChoice::EcosystemPrivate, input);
    assert_eq!(out.forwarding.len(), 4);
    assert_eq!(out.forwarding[0].name, "two");
    assert_eq!(out.forwarding[1].name, "four");
    assert_eq!(out.forwarding[2].name, "one");
    assert_eq!(out.forwarding[3].name, "three");
}

/// Pass-through: an `Other` item and a retained operation's attributes,
/// generics and body are unchanged in the retained output; only the
/// operation's declared visibility is discarded.
#[test]
fn passthrough_unchanged() {
    let mut f = op("f", Receiver::ByReference(s("&self")), Some(vec![Statement::Other(
        s("self.len()"),
    )]));
    f.attributes = vec![Attribute { path: s("doc"), tokens: s("= \"kept\"") }];
    f.generics = vec![GenericParam { kind: GenericKind::Lifetime, ident: s("'a"), decl: s("'a") }];
    f.parameters = vec![Parameter { name: s("x"), ty: s("u32") }];
    f.return_type = Some(s("-> usize"));
    let other = ImplementationItem::Other(s("const LIMIT: usize = 3;"));
    let input = block(vec![ImplementationItem::Operation(f), other]);
    let out = expand::inherent(VisibilityChoice::Public, input);
    assert_eq!(out.retained.items.len(), 2);
    match &out.retained.items[0] {
        ImplementationItem::Operation(m) => {
            assert_eq!(m.visibility, "");
            assert_eq!(m.attributes[0].path, "doc");
            assert_eq!(m.attributes[0].tokens, "= \"kept\"");
            assert_eq!(m.generics[0].decl, "'a");
            assert_eq!(m.parameters[0].name, "x");
            assert_eq!(m.body, Some(vec![Statement::Other(s("self.len()"))]));
            assert_eq!(m.return_type, Some(s("-> usize")));
        },
        other => panic!("expected the retained operation, got {:?}", other),
    }
    assert_eq!(
        out.retained.items[1],
        ImplementationItem::Other(s("const LIMIT: usize = 3;"))
    );
}

/// Stub removal: the marker is absent from the retained output but has a
/// forwarding operation.
#[test]
fn stub_removed_but_forwarded() {
    let g = op("g", Receiver::ByReference(s("&self")), None);
    let input = block(vec![ImplementationItem::Operation(g)]);
    let out = expand::inherent(VisibilityChoice::EcosystemPrivate, input);
    assert_eq!(out.retained.items.len(), 0);
    assert_eq!(out.forwarding.len(), 1);
    assert_eq!(out.forwarding[0].name, "g");
}

/// Fresh names are position-indexed (the receiver counts as position
/// zero), never reuse a source name, and the call passes them through
/// positionally — even when a source parameter is named like a fresh
/// name or like the receiver binding.
#[test]
fn fresh_names_positional() {
    let mut f = op("f", Receiver::ByReference(s("&self")), Some(Vec::new()));
    f.parameters = vec![
        Parameter { name: s("__arg2"), ty: s("u8") },
        Parameter { name: s("self_like"), ty: s("String") },
    ];
    let input = block(vec![ImplementationItem::Operation(f)]);
    let out = expand::inherent(VisibilityChoice::EcosystemPrivate, input);
    let fwd = &out.forwarding[0];
    assert_eq!(fwd.parameters.len(), 2);
    assert_eq!(fwd.parameters[0].name, "__arg1");
    assert_eq!(fwd.parameters[0].ty, "u8");
    assert_eq!(fwd.parameters[1].name, "__arg2");
    assert_eq!(fwd.parameters[1].ty, "String");
    assert_eq!(fwd.call_arguments, vec![s("self"), s("__arg1"), s("__arg2")]);

    // A static operation starts numbering at position zero.
    let mut h = op("h", Receiver::Absent, Some(Vec::new()));
    h.parameters = vec![Parameter { name: s("x"), ty: s("i64") }];
    let input2 = block(vec![ImplementationItem::Operation(h)]);
    let out2 = expand::inherent(VisibilityChoice::EcosystemPrivate, input2);
    assert_eq!(out2.forwarding[0].parameters[0].name, "__arg0");
    assert_eq!(out2.forwarding[0].call_arguments, vec![s("__arg0")]);

    assert_eq!(fresh_parameter_name(12), "__arg12");
    assert_eq!(fresh_parameter_name(0), "__arg0");
}

/// Visibility uniformity: every forwarding operation carries the single
/// engine-wide choice, whatever the source operations declared.
#[test]
fn visibility_uniform() {
    let mut f = op("f", Receiver::ByReference(s("&self")), Some(Vec::new()));
    f.visibility = s("pub(crate)");
    let mut g = op("g", Receiver::ByReference(s("&self")), None);
    g.visibility = s("");
    let input = block(vec![
        ImplementationItem::Operation(f),
        ImplementationItem::Operation(g),
    ]);
    let out = expand::inherent(VisibilityChoice::Public, input);
    assert_eq!(out.forwarding.len(), 2);
    for fwd in &out.forwarding {
        assert_eq!(fwd.visibility, VisibilityChoice::Public);
    }
}

/// Modifiers are copied verbatim; omission stays omission.
#[test]
fn modifier_propagation() {
    let mut f = op("f", Receiver::Absent, Some(Vec::new()));
    f.modifiers = Modifiers { is_const: true, is_async: false, is_unsafe: true, abi: Some(s(
        "extern \"C\"",
    )) };
    let input = block(vec![ImplementationItem::Operation(f)]);
    let out = expand::inherent(VisibilityChoice::EcosystemPrivate, input);
    let fwd = &out.forwarding[0];
    assert!(fwd.modifiers.is_const);
    assert!(!fwd.modifiers.is_async);
    assert!(fwd.modifiers.is_unsafe);
    assert_eq!(fwd.modifiers.abi, Some(s("extern \"C\"")));
}

/// Only type parameters become explicit call type arguments; lifetimes
/// and const parameters do not.
#[test]
fn type_arguments_from_generics() {
    let mut f = op("f", Receiver::ByReference(s("&self")), Some(Vec::new()));
    f.generics = vec![
        GenericParam { kind: GenericKind::Lifetime, ident: s("'a"), decl: s("'a") },
        GenericParam { kind: GenericKind::TypeParam, ident: s("T"), decl: s("T: Clone") },
        GenericParam { kind: GenericKind::ConstParam, ident: s("N"), decl: s("const N: usize") },
        GenericParam { kind: GenericKind::TypeParam, ident: s("U"), decl: s("U") },
    ];
    let input = block(vec![ImplementationItem::Operation(f)]);
    let out = expand::inherent(VisibilityChoice::EcosystemPrivate, input);
    assert_eq!(out.forwarding[0].call_type_arguments, vec![s("T"), s("U")]);
    assert_eq!(out.forwarding[0].generics.len(), 4);
}

/// Doc synthesis: a multi-segment interface path is rendered segment by
/// segment; an operation that already has a doc attribute gets nothing.
#[test]
fn doc_synthesis() {
    let f = op("f", Receiver::ByReference(s("&self")), Some(Vec::new()));
    let mut g = op("g", Receiver::ByReference(s("&self")), Some(Vec::new()));
    g.attributes = vec![Attribute { path: s("doc"), tokens: s("= \"mine\"") }];
    let input = ImplementationBlock {
        generics: Vec::new(),
        where_clause: None,
        interface_path: vec![s("a"), s("Trait")],
        self_type: s("Struct"),
        items: vec![ImplementationItem::Operation(f), ImplementationItem::Operation(g)],
    };
    let out = expand::inherent(VisibilityChoice::EcosystemPrivate, input);
    assert_eq!(out.forwarding[0].synthesized_doc, Some(s("See [`a::Trait::f`]")));
    assert_eq!(out.forwarding[1].synthesized_doc, None);
}
