use inherent::diagnostics::ErrorKind;
use inherent::model::{ImplementationBlock, ImplementationItem, Modifiers, OperationSignature,
    Receiver, Statement};
use inherent::parse::parse_block;

fn s(x: &str) -> String {
    x.to_string()
}

fn op(name: &str, body: Option<Vec<Statement>>) -> OperationSignature {
    OperationSignature {
        name: s(name),
        attributes: Vec::new(),
        visibility: s(""),
        generics: Vec::new(),
        where_clause: None,
        receiver: Receiver::ByReference(s("&self")),
        parameters: Vec::new(),
        return_type: None,
        modifiers: Modifiers { is_const: false, is_async: false, is_unsafe: false, abi: None },
        body,
    }
}

fn block(items: Vec<ImplementationItem>) -> ImplementationBlock {
    ImplementationBlock {
        generics: Vec::new(),
        where_clause: None,
        interface_path: vec![s("Trait")],
        self_type: s("Struct"),
        items,
    }
}

#[test]
fn bare_semicolon_body_becomes_stub() {
    let input = block(vec![ImplementationItem::Operation(op("g", Some(vec![
        Statement::Empty,
    ])))]);
    let b = parse_block(input).expect("a lone bare `;` is the marker");
    match &b.items[0] {
        ImplementationItem::Operation(m) => assert_eq!(m.body, None),
        other => panic!("expected an operation, got {:?}", other),
    }
}

#[test]
fn ordinary_bodies_are_overrides() {
    let input = block(vec![
        ImplementationItem::Operation(op("e", Some(Vec::new()))),
        ImplementationItem::Operation(op("f", Some(vec![Statement::Other(s("self.g()"))]))),
        ImplementationItem::Other(s("type Assoc = ();")),
    ]);
    let b = parse_block(input).expect("ordinary bodies are valid");
    match &b.items[0] {
        ImplementationItem::Operation(m) => assert_eq!(m.body, Some(Vec::new())),
        other => panic!("expected an operation, got {:?}", other),
    }
    match &b.items[1] {
        ImplementationItem::Operation(m) => {
            assert_eq!(m.body, Some(vec![Statement::Other(s("self.g()"))]));
        },
        other => panic!("expected an operation, got {:?}", other),
    }
    assert_eq!(b.items[2], ImplementationItem::Other(s("type Assoc = ();")));
}

#[test]
fn marker_misuse_is_rejected() {
    let input = block(vec![ImplementationItem::Operation(op("g", Some(vec![
        Statement::Empty,
        Statement::Other(s("self.h()")),
    ])))]);
    let e = parse_block(input).expect_err("a `;` beside other statements is a misuse");
    assert_eq!(e.diagnostics.len(), 1);
    assert_eq!(e.diagnostics[0].kind, ErrorKind::MalformedImplementationBlock);
    assert_eq!(e.diagnostics[0].position, 0);
    assert_eq!(
        e.diagnostics[0].message,
        "a default-method stub must be a single bare `;` with nothing else in its body"
    );
}

#[test]
fn several_misuses_are_combined() {
    let input = block(vec![
        ImplementationItem::Operation(op("ok", Some(Vec::new()))),
        ImplementationItem::Operation(op("bad_one", Some(vec![
            Statement::Empty,
            Statement::Empty,
        ]))),
        ImplementationItem::Operation(op("fine", Some(vec![Statement::Empty]))),
        ImplementationItem::Operation(op("bad_two", Some(vec![
            Statement::Other(s("self.h()")),
            Statement::Empty,
        ]))),
    ]);
    let e = parse_block(input).expect_err("both misuses must be reported");
    assert_eq!(e.diagnostics.len(), 2);
    assert_eq!(e.diagnostics[0].position, 1);
    assert_eq!(e.diagnostics[1].position, 3);
    for d in &e.diagnostics {
        assert_eq!(d.kind, ErrorKind::MalformedImplementationBlock);
    }
}

#[test]
fn already_marked_stub_is_kept() {
    let input = block(vec![ImplementationItem::Operation(op("g", None))]);
    let b = parse_block(input).expect("an explicit marker is valid");
    match &b.items[0] {
        ImplementationItem::Operation(m) => assert_eq!(m.body, None),
        other => panic!("expected an operation, got {:?}", other),
    }
}

#[test]
fn empty_braced_body_is_no_stub() {
    let input = block(vec![ImplementationItem::Operation(op("f", Some(Vec::new())))]);
    let b = parse_block(input).expect("an empty body is an override");
    match &b.items[0] {
        ImplementationItem::Operation(m) => assert_eq!(m.body, Some(Vec::new())),
        other => panic!("expected an operation, got {:?}", other),
    }
}
