//! The intermediate model of an implementation block.
//!
//! An implementation block associates a concrete self type with one
//! interface (trait) and carries an ordered list of items.  Every piece of
//! host syntax that the expansion engine does not inspect is kept as its
//! verbatim token text in a `String`, so that retained items can be
//! re-emitted unchanged.  Each executable type has a spec-level counterpart
//! built from `Seq<char>`, reached through `View`/`DeepView`.

use vstd::prelude::*;

verus! {

/// The kind of a generic parameter of an operation or of a block.
#[derive(Clone, Copy, Debug, PartialEq, Eq)]
pub enum GenericKind {
    Lifetime,
    TypeParam,
    ConstParam,
}

/// One attribute on an operation: its path (for example `doc` or
/// `cfg`) and the remaining verbatim tokens of the attribute.
#[derive(Debug, PartialEq, Eq)]
pub struct Attribute {
    pub path: String,
    pub tokens: String,
}

#[verifier::ext_equal]
pub struct SpecAttribute {
    pub path: Seq<char>,
    pub tokens: Seq<char>,
}

impl View for Attribute {
    type V = SpecAttribute;

    open spec fn view(&self) -> SpecAttribute {
        SpecAttribute { path: self.path@, tokens: self.tokens@ }
    }
}

impl DeepView for Attribute {
    type V = SpecAttribute;

    open spec fn deep_view(&self) -> SpecAttribute {
        self.view()
    }
}

impl Clone for Attribute {
    fn clone(&self) -> (c: Self)
        ensures
            c@ == self@,
    {
        Attribute { path: self.path.clone(), tokens: self.tokens.clone() }
    }
}

/// One generic parameter: its kind, its bare identifier, and the verbatim
/// declaration text (identifier together with bounds or default).
#[derive(Debug, PartialEq, Eq)]
pub struct GenericParam {
    pub kind: GenericKind,
    pub ident: String,
    pub decl: String,
}

#[verifier::ext_equal]
pub struct SpecGenericParam {
    pub kind: GenericKind,
    pub ident: Seq<char>,
    pub decl: Seq<char>,
}

impl View for GenericParam {
    type V = SpecGenericParam;

    open spec fn view(&self) -> SpecGenericParam {
        SpecGenericParam { kind: self.kind, ident: self.ident@, decl: self.decl@ }
    }
}

impl DeepView for GenericParam {
    type V = SpecGenericParam;

    open spec fn deep_view(&self) -> SpecGenericParam {
        self.view()
    }
}

impl Clone for GenericParam {
    fn clone(&self) -> (c: Self)
        ensures
            c@ == self@,
    {
        GenericParam { kind: self.kind, ident: self.ident.clone(), decl: self.decl.clone() }
    }
}

/// One non-receiver parameter of an operation: the verbatim binding
/// pattern and the verbatim type text.
#[derive(Debug, PartialEq, Eq)]
pub struct Parameter {
    pub name: String,
    pub ty: String,
}

#[verifier::ext_equal]
pub struct SpecParameter {
    pub name: Seq<char>,
    pub ty: Seq<char>,
}

impl View for Parameter {
    type V = SpecParameter;

    open spec fn view(&self) -> SpecParameter {
        SpecParameter { name: self.name@, ty: self.ty@ }
    }
}

impl DeepView for Parameter {
    type V = SpecParameter;

    open spec fn deep_view(&self) -> SpecParameter {
        self.view()
    }
}

impl Clone for Parameter {
    fn clone(&self) -> (c: Self)
        ensures
            c@ == self@,
    {
        Parameter { name: self.name.clone(), ty: self.ty.clone() }
    }
}

/// The receiver shape of an operation.  A by-reference receiver keeps its
/// verbatim text (for example `&mut self`); a by-value receiver keeps the
/// text it was declared with (for example `mut self`).
#[derive(Debug, PartialEq, Eq)]
pub enum Receiver {
    ByValue(String),
    ByReference(String),
    Absent,
}

#[verifier::ext_equal]
pub enum SpecReceiver {
    ByValue(Seq<char>),
    ByReference(Seq<char>),
    Absent,
}

impl View for Receiver {
    type V = SpecReceiver;

    open spec fn view(&self) -> SpecReceiver {
        match self {
            Receiver::ByValue(t) => SpecReceiver::ByValue(t@),
            Receiver::ByReference(t) => SpecReceiver::ByReference(t@),
            Receiver::Absent => SpecReceiver::Absent,
        }
    }
}

impl DeepView for Receiver {
    type V = SpecReceiver;

    open spec fn deep_view(&self) -> SpecReceiver {
        self.view()
    }
}

impl Clone for Receiver {
    fn clone(&self) -> (c: Self)
        ensures
            c@ == self@,
    {
        match self {
            Receiver::ByValue(t) => Receiver::ByValue(t.clone()),
            Receiver::ByReference(t) => Receiver::ByReference(t.clone()),
            Receiver::Absent => Receiver::Absent,
        }
    }
}

/// The independently optional modifiers of an operation.
#[derive(Debug, PartialEq, Eq)]
pub struct Modifiers {
    pub is_const: bool,
    pub is_async: bool,
    pub is_unsafe: bool,
    pub abi: Option<String>,
}

#[verifier::ext_equal]
pub struct SpecModifiers {
    pub is_const: bool,
    pub is_async: bool,
    pub is_unsafe: bool,
    pub abi: Option<Seq<char>>,
}

impl View for Modifiers {
    type V = SpecModifiers;

    open spec fn view(&self) -> SpecModifiers {
        SpecModifiers {
            is_const: self.is_const,
            is_async: self.is_async,
            is_unsafe: self.is_unsafe,
            abi: match &self.abi {
                Some(a) => Some(a@),
                None => None,
            },
        }
    }
}

impl DeepView for Modifiers {
    type V = SpecModifiers;

    open spec fn deep_view(&self) -> SpecModifiers {
        self.view()
    }
}

impl Clone for Modifiers {
    fn clone(&self) -> (c: Self)
        ensures
            c@ == self@,
    {
        Modifiers {
            is_const: self.is_const,
            is_async: self.is_async,
            is_unsafe: self.is_unsafe,
            abi: match &self.abi {
                Some(a) => Some(a.clone()),
                None => None,
            },
        }
    }
}

/// One statement of an operation body: either the empty statement (a bare
/// statement terminator) or any other statement kept as verbatim text.
#[derive(Debug, PartialEq, Eq)]
pub enum Statement {
    Empty,
    Other(String),
}

#[verifier::ext_equal]
pub enum SpecStatement {
    Empty,
    Other(Seq<char>),
}

impl View for Statement {
    type V = SpecStatement;

    open spec fn view(&self) -> SpecStatement {
        match self {
            Statement::Empty => SpecStatement::Empty,
            Statement::Other(t) => SpecStatement::Other(t@),
        }
    }
}

impl DeepView for Statement {
    type V = SpecStatement;

    open spec fn deep_view(&self) -> SpecStatement {
        self.view()
    }
}

impl Clone for Statement {
    fn clone(&self) -> (c: Self)
        ensures
            c@ == self@,
    {
        match self {
            Statement::Empty => Statement::Empty,
            Statement::Other(t) => Statement::Other(t.clone()),
        }
    }
}

/// The signature and body of one method-like item.
///
/// `body` is `None` exactly when the item is a default-stub marker: the
/// operation defers to the interface's own default implementation and only
/// a forwarding operation is generated for it.
#[derive(Debug, PartialEq, Eq)]
pub struct OperationSignature {
    pub name: String,
    pub attributes: Vec<Attribute>,
    pub visibility: String,
    pub generics: Vec<GenericParam>,
    pub where_clause: Option<String>,
    pub receiver: Receiver,
    pub parameters: Vec<Parameter>,
    pub return_type: Option<String>,
    pub modifiers: Modifiers,
    pub body: Option<Vec<Statement>>,
}

#[verifier::ext_equal]
pub struct SpecOperation {
    pub name: Seq<char>,
    pub attributes: Seq<SpecAttribute>,
    pub visibility: Seq<char>,
    pub generics: Seq<SpecGenericParam>,
    pub where_clause: Option<Seq<char>>,
    pub receiver: SpecReceiver,
    pub parameters: Seq<SpecParameter>,
    pub return_type: Option<Seq<char>>,
    pub modifiers: SpecModifiers,
    pub body: Option<Seq<SpecStatement>>,
}

impl View for OperationSignature {
    type V = SpecOperation;

    open spec fn view(&self) -> SpecOperation {
        SpecOperation {
            name: self.name@,
            attributes: self.attributes.deep_view(),
            visibility: self.visibility@,
            generics: self.generics.deep_view(),
            where_clause: match &self.where_clause {
                Some(w) => Some(w@),
                None => None,
            },
            receiver: self.receiver@,
            parameters: self.parameters.deep_view(),
            return_type: match &self.return_type {
                Some(r) => Some(r@),
                None => None,
            },
            modifiers: self.modifiers@,
            body: match &self.body {
                Some(b) => Some(b.deep_view()),
                None => None,
            },
        }
    }
}

impl DeepView for OperationSignature {
    type V = SpecOperation;

    open spec fn deep_view(&self) -> SpecOperation {
        self.view()
    }
}

impl Clone for OperationSignature {
    fn clone(&self) -> (c: Self)
        ensures
            c@ == self@,
    {
        let c = OperationSignature {
            name: self.name.clone(),
            attributes: self.attributes.clone(),
            visibility: self.visibility.clone(),
            generics: self.generics.clone(),
            where_clause: match &self.where_clause {
                Some(w) => Some(w.clone()),
                None => None,
            },
            receiver: self.receiver.clone(),
            parameters: self.parameters.clone(),
            return_type: match &self.return_type {
                Some(r) => Some(r.clone()),
                None => None,
            },
            modifiers: self.modifiers.clone(),
            body: match &self.body {
                Some(b) => Some(b.clone()),
                None => None,
            },
        };
        proof {
            assert(c.attributes.deep_view() =~= self.attributes.deep_view());
            assert(c.generics.deep_view() =~= self.generics.deep_view());
            assert(c.parameters.deep_view() =~= self.parameters.deep_view());
            match (&c.body, &self.body) {
                (Some(cb), Some(sb)) => {
                    assert(cb.deep_view() =~= sb.deep_view());
                },
                _ => {},
            }
            assert(c@ =~= self@);
        }
        c
    }
}

/// One item of an implementation block: an operation, or any other
/// declaration passed through unchanged as verbatim text.
#[derive(Debug, PartialEq, Eq)]
pub enum ImplementationItem {
    Operation(OperationSignature),
    Other(String),
}

#[verifier::ext_equal]
pub enum SpecItem {
    Operation(SpecOperation),
    Other(Seq<char>),
}

impl View for ImplementationItem {
    type V = SpecItem;

    open spec fn view(&self) -> SpecItem {
        match self {
            ImplementationItem::Operation(op) => SpecItem::Operation(op@),
            ImplementationItem::Other(t) => SpecItem::Other(t@),
        }
    }
}

impl DeepView for ImplementationItem {
    type V = SpecItem;

    open spec fn deep_view(&self) -> SpecItem {
        self.view()
    }
}

impl Clone for ImplementationItem {
    fn clone(&self) -> (c: Self)
        ensures
            c@ == self@,
    {
        match self {
            ImplementationItem::Operation(op) => ImplementationItem::Operation(op.clone()),
            ImplementationItem::Other(t) => ImplementationItem::Other(t.clone()),
        }
    }
}

/// A whole implementation block: block-level generics, optional where
/// clause, the dotted path of the interface being implemented, the
/// verbatim self type, and the ordered item list.
#[derive(Debug, PartialEq, Eq)]
pub struct ImplementationBlock {
    pub generics: Vec<GenericParam>,
    pub where_clause: Option<String>,
    pub interface_path: Vec<String>,
    pub self_type: String,
    pub items: Vec<ImplementationItem>,
}

#[verifier::ext_equal]
pub struct SpecBlock {
    pub generics: Seq<SpecGenericParam>,
    pub where_clause: Option<Seq<char>>,
    pub interface_path: Seq<Seq<char>>,
    pub self_type: Seq<char>,
    pub items: Seq<SpecItem>,
}

impl View for ImplementationBlock {
    type V = SpecBlock;

    open spec fn view(&self) -> SpecBlock {
        SpecBlock {
            generics: self.generics.deep_view(),
            where_clause: match &self.where_clause {
                Some(w) => Some(w@),
                None => None,
            },
            interface_path: self.interface_path.deep_view(),
            self_type: self.self_type@,
            items: self.items.deep_view(),
        }
    }
}

impl DeepView for ImplementationBlock {
    type V = SpecBlock;

    open spec fn deep_view(&self) -> SpecBlock {
        self.view()
    }
}

} // verus!
