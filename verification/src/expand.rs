//! The expansion engine: one forwarding operation per interface
//! operation.
//!
//! Given the engine-wide visibility choice and a classified
//! implementation block, the engine partitions the items into retained
//! items and default-stub markers, synthesizes one forwarding operation
//! for every operation (stub markers first, then retained operations, so
//! the output order never depends on whether an operation was overridden
//! or deferred), and re-emits the original block with the stub markers
//! removed.  Expansion is total: it never fails on a classified block.

use crate::fresh::{spec_fresh_name, fresh_parameter_name};
use crate::model::{Attribute, GenericKind, GenericParam, ImplementationBlock, ImplementationItem,
    Modifiers, OperationSignature, Parameter, Receiver, SpecAttribute, SpecBlock,
    SpecGenericParam, SpecItem, SpecModifiers, SpecOperation, SpecParameter, SpecReceiver};
use crate::visibility::{SpecVisibility, VisibilityChoice};
use vstd::prelude::*;

verus! {

/// One generated forwarding operation.  Its sole statement is a
/// fully-qualified call of the interface operation on the self type, with
/// explicit type arguments and all translated parameters passed
/// positionally.
#[derive(Debug, PartialEq, Eq)]
pub struct ForwardingOperation {
    /// The source operation's attributes, copied unchanged.
    pub attributes: Vec<Attribute>,
    /// A cross-reference doc line, synthesized only when no documentation
    /// attribute is present on the source operation.
    pub synthesized_doc: Option<String>,
    /// Always the engine-wide visibility choice.
    pub visibility: VisibilityChoice,
    pub modifiers: Modifiers,
    pub name: String,
    pub generics: Vec<GenericParam>,
    pub where_clause: Option<String>,
    pub receiver: Receiver,
    /// The non-receiver parameters, renamed to fresh position-indexed
    /// names; the types are the source types, unchanged.
    pub parameters: Vec<Parameter>,
    pub return_type: Option<String>,
    /// The explicit type arguments of the call: the operation-level type
    /// parameters, in declared order.
    pub call_type_arguments: Vec<String>,
    /// The call's value arguments: the receiver, if any, then the fresh
    /// parameter names in positional order.
    pub call_arguments: Vec<String>,
}

#[verifier::ext_equal]
pub struct SpecForwarding {
    pub attributes: Seq<SpecAttribute>,
    pub synthesized_doc: Option<Seq<char>>,
    pub visibility: SpecVisibility,
    pub modifiers: SpecModifiers,
    pub name: Seq<char>,
    pub generics: Seq<SpecGenericParam>,
    pub where_clause: Option<Seq<char>>,
    pub receiver: SpecReceiver,
    pub parameters: Seq<SpecParameter>,
    pub return_type: Option<Seq<char>>,
    pub call_type_arguments: Seq<Seq<char>>,
    pub call_arguments: Seq<Seq<char>>,
}

impl View for ForwardingOperation {
    type V = SpecForwarding;

    open spec fn view(&self) -> SpecForwarding {
        SpecForwarding {
            attributes: self.attributes.deep_view(),
            synthesized_doc: match &self.synthesized_doc {
                Some(d) => Some(d@),
                None => None,
            },
            visibility: self.visibility@,
            modifiers: self.modifiers@,
            name: self.name@,
            generics: self.generics.deep_view(),
            where_clause: match &self.where_clause {
                Some(w) => Some(w@),
                None => None,
            },
            receiver: self.receiver@,
            parameters: self.parameters.deep_view(),
            return_type: match &self.return_type {
                Some(t) => Some(t@),
                None => None,
            },
            call_type_arguments: self.call_type_arguments.deep_view(),
            call_arguments: self.call_arguments.deep_view(),
        }
    }
}

impl DeepView for ForwardingOperation {
    type V = SpecForwarding;

    open spec fn deep_view(&self) -> SpecForwarding {
        self.view()
    }
}

/// The engine's whole output: a block of forwarding operations on the
/// self type (emitted under the retained block's generics, self type and
/// where clause), followed by the original block restricted to the
/// retained items.
#[derive(Debug, PartialEq, Eq)]
pub struct GeneratedOutput {
    pub forwarding: Vec<ForwardingOperation>,
    pub retained: ImplementationBlock,
}

#[verifier::ext_equal]
pub struct SpecOutput {
    pub forwarding: Seq<SpecForwarding>,
    pub retained: SpecBlock,
}

impl View for GeneratedOutput {
    type V = SpecOutput;

    open spec fn view(&self) -> SpecOutput {
        SpecOutput { forwarding: self.forwarding.deep_view(), retained: self.retained@ }
    }
}

impl DeepView for GeneratedOutput {
    type V = SpecOutput;

    open spec fn deep_view(&self) -> SpecOutput {
        self.view()
    }
}

/// How many positions the receiver occupies in front of the parameters.
pub open spec fn spec_receiver_offset(r: SpecReceiver) -> nat {
    match r {
        SpecReceiver::Absent => 0,
        _ => 1,
    }
}

/// Whether an attribute list already carries a documentation attribute.
pub open spec fn spec_has_doc(attrs: Seq<SpecAttribute>) -> bool {
    exists|i: int| 0 <= i < attrs.len() && (#[trigger] attrs[i]).path == "doc"@
}

/// The interface path rendered for the synthesized doc line: every
/// segment followed by `::`.
pub open spec fn spec_path_link(path: Seq<Seq<char>>) -> Seq<char>
    decreases path.len(),
{
    if path.len() == 0 {
        Seq::empty()
    } else {
        spec_path_link(path.drop_last()) + path.last() + "::"@
    }
}

/// The synthesized cross-reference doc line for a forwarded operation.
pub open spec fn spec_doc_message(path: Seq<Seq<char>>, name: Seq<char>) -> Seq<char> {
    "See [`"@ + spec_path_link(path) + name + "`]"@
}

/// The receiver of the forwarding operation: a by-reference receiver is
/// forwarded verbatim, a by-value receiver becomes a plain `self`.
pub open spec fn spec_forward_receiver(r: SpecReceiver) -> SpecReceiver {
    match r {
        SpecReceiver::ByValue(_) => SpecReceiver::ByValue("self"@),
        _ => r,
    }
}

/// The forwarding signature's parameters: position-indexed fresh names
/// (the position counts the receiver), with the source types unchanged.
pub open spec fn spec_fresh_parameters(params: Seq<SpecParameter>, offset: nat) -> Seq<
    SpecParameter,
> {
    Seq::new(params.len(), |j: int| SpecParameter {
        name: spec_fresh_name((offset + j) as nat),
        ty: params[j].ty,
    })
}

/// The explicit type arguments of the forwarding call: the idents of the
/// operation-level type parameters, in declared order.
pub open spec fn spec_type_arguments(gens: Seq<SpecGenericParam>) -> Seq<Seq<char>>
    decreases gens.len(),
{
    if gens.len() == 0 {
        Seq::empty()
    } else {
        spec_type_arguments(gens.drop_last()) + (if gens.last().kind is TypeParam {
            seq![gens.last().ident]
        } else {
            Seq::<Seq<char>>::empty()
        })
    }
}

/// The value arguments of the forwarding call: `self` when a receiver is
/// present, then the fresh names in positional order.
pub open spec fn spec_call_arguments(recv: SpecReceiver, nparams: nat) -> Seq<Seq<char>> {
    (if recv is Absent {
        Seq::<Seq<char>>::empty()
    } else {
        seq!["self"@]
    }) + Seq::new(nparams, |j: int| spec_fresh_name((spec_receiver_offset(recv) + j) as nat))
}

/// The forwarding operation synthesized for one interface operation.
pub open spec fn spec_forward_of(
    path: Seq<Seq<char>>,
    vis: SpecVisibility,
    m: SpecOperation,
) -> SpecForwarding {
    SpecForwarding {
        attributes: m.attributes,
        synthesized_doc: if spec_has_doc(m.attributes) {
            None
        } else {
            Some(spec_doc_message(path, m.name))
        },
        visibility: vis,
        modifiers: m.modifiers,
        name: m.name,
        generics: m.generics,
        where_clause: m.where_clause,
        receiver: spec_forward_receiver(m.receiver),
        parameters: spec_fresh_parameters(m.parameters, spec_receiver_offset(m.receiver)),
        return_type: m.return_type,
        call_type_arguments: spec_type_arguments(m.generics),
        call_arguments: spec_call_arguments(m.receiver, m.parameters.len()),
    }
}

/// The stub contribution of one item: the operation itself when the item
/// is a default-stub marker.
pub open spec fn spec_stub_contribution(it: SpecItem) -> Seq<SpecOperation> {
    match it {
        SpecItem::Operation(m) => if m.body is None {
            seq![m]
        } else {
            Seq::empty()
        },
        SpecItem::Other(_) => Seq::empty(),
    }
}

/// The override contribution of one item: the operation itself when the
/// item is an operation with a body of its own.
pub open spec fn spec_override_contribution(it: SpecItem) -> Seq<SpecOperation> {
    match it {
        SpecItem::Operation(m) => if m.body is Some {
            seq![m]
        } else {
            Seq::empty()
        },
        SpecItem::Other(_) => Seq::empty(),
    }
}

/// The default-stub operations of a block, in declaration order.
pub open spec fn spec_stub_operations(items: Seq<SpecItem>) -> Seq<SpecOperation>
    decreases items.len(),
{
    if items.len() == 0 {
        Seq::empty()
    } else {
        spec_stub_operations(items.drop_last()) + spec_stub_contribution(items.last())
    }
}

/// The overriding operations of a block, in declaration order.
pub open spec fn spec_override_operations(items: Seq<SpecItem>) -> Seq<SpecOperation>
    decreases items.len(),
{
    if items.len() == 0 {
        Seq::empty()
    } else {
        spec_override_operations(items.drop_last()) + spec_override_contribution(items.last())
    }
}

/// Every operation a forwarding operation is generated for: the stub
/// markers first, then the overriding operations.
pub open spec fn spec_forward_sources(items: Seq<SpecItem>) -> Seq<SpecOperation> {
    spec_stub_operations(items) + spec_override_operations(items)
}

/// The forwarding operations for a list of source operations, in order.
pub open spec fn spec_forwards_of(
    path: Seq<Seq<char>>,
    vis: SpecVisibility,
    ops: Seq<SpecOperation>,
) -> Seq<SpecForwarding>
    decreases ops.len(),
{
    if ops.len() == 0 {
        Seq::empty()
    } else {
        spec_forwards_of(path, vis, ops.drop_last()).push(spec_forward_of(path, vis, ops.last()))
    }
}

/// All forwarding operations generated for a block.
pub open spec fn spec_forwards(
    path: Seq<Seq<char>>,
    vis: SpecVisibility,
    items: Seq<SpecItem>,
) -> Seq<SpecForwarding> {
    spec_forwards_of(path, vis, spec_forward_sources(items))
}

/// A retained operation with its declared visibility discarded.
pub open spec fn spec_clear_visibility(m: SpecOperation) -> SpecOperation {
    SpecOperation { visibility: Seq::empty(), ..m }
}

/// The retained contribution of one item: stub markers are removed,
/// operations keep everything but their declared visibility, and every
/// other item passes through unchanged.
pub open spec fn spec_retained_contribution(it: SpecItem) -> Seq<SpecItem> {
    match it {
        SpecItem::Operation(m) => if m.body is None {
            Seq::empty()
        } else {
            seq![SpecItem::Operation(spec_clear_visibility(m))]
        },
        SpecItem::Other(t) => seq![SpecItem::Other(t)],
    }
}

/// The retained items of a block, in declaration order.
pub open spec fn spec_retained_items(items: Seq<SpecItem>) -> Seq<SpecItem>
    decreases items.len(),
{
    if items.len() == 0 {
        Seq::empty()
    } else {
        spec_retained_items(items.drop_last()) + spec_retained_contribution(items.last())
    }
}

/// The original block restricted to its retained items.
pub open spec fn spec_retained_block(b: SpecBlock) -> SpecBlock {
    SpecBlock { items: spec_retained_items(b.items), ..b }
}

/// The engine's whole output for a classified block.
pub open spec fn spec_expand(vis: SpecVisibility, b: SpecBlock) -> SpecOutput {
    SpecOutput {
        forwarding: spec_forwards(b.interface_path, vis, b.items),
        retained: spec_retained_block(b),
    }
}

proof fn lemma_stub_operations_step(items: Seq<SpecItem>, i: int)
    requires
        0 <= i < items.len(),
    ensures
        spec_stub_operations(items.take(i + 1)) == spec_stub_operations(items.take(i))
            + spec_stub_contribution(items[i]),
{
    assert(items.take(i + 1).drop_last() =~= items.take(i));
    assert(items.take(i + 1).last() == items[i]);
}

proof fn lemma_override_operations_step(items: Seq<SpecItem>, i: int)
    requires
        0 <= i < items.len(),
    ensures
        spec_override_operations(items.take(i + 1)) == spec_override_operations(items.take(i))
            + spec_override_contribution(items[i]),
{
    assert(items.take(i + 1).drop_last() =~= items.take(i));
    assert(items.take(i + 1).last() == items[i]);
}

proof fn lemma_retained_items_step(items: Seq<SpecItem>, i: int)
    requires
        0 <= i < items.len(),
    ensures
        spec_retained_items(items.take(i + 1)) == spec_retained_items(items.take(i))
            + spec_retained_contribution(items[i]),
{
    assert(items.take(i + 1).drop_last() =~= items.take(i));
    assert(items.take(i + 1).last() == items[i]);
}

proof fn lemma_forwards_of_push(
    path: Seq<Seq<char>>,
    vis: SpecVisibility,
    ops: Seq<SpecOperation>,
    m: SpecOperation,
)
    ensures
        spec_forwards_of(path, vis, ops.push(m)) == spec_forwards_of(path, vis, ops).push(
            spec_forward_of(path, vis, m),
        ),
{
    assert(ops.push(m).drop_last() =~= ops);
    assert(ops.push(m).last() == m);
}

fn has_doc_attribute(attrs: &Vec<Attribute>) -> (r: bool)
    ensures
        r == spec_has_doc(attrs.deep_view()),
{
    let needle: String = "doc".to_owned();
    let mut i: usize = 0;
    while i < attrs.len()
        invariant
            i <= attrs@.len(),
            needle@ == "doc"@,
            forall|j: int| 0 <= j < i ==> (#[trigger] attrs.deep_view()[j]).path != "doc"@,
        decreases attrs@.len() - i,
    {
        proof {
            assert(attrs.deep_view()[i as int] == attrs@[i as int]@);
        }
        if attrs[i].path == needle {
            proof {
                assert((attrs.deep_view()[i as int]).path == "doc"@);
            }
            return true;
        }
        i += 1;
    }
    false
}

fn doc_message(path: &Vec<String>, name: &String) -> (r: String)
    ensures
        r@ == spec_doc_message(path.deep_view(), name@),
{
    let mut s: String = "See [`".to_owned();
    let n = path.len();
    let mut i: usize = 0;
    while i < n
        invariant
            n == path@.len(),
            i <= n,
            s@ == "See [`"@ + spec_path_link(path.deep_view().take(i as int)),
        decreases n - i,
    {
        proof {
            assert(path.deep_view()[i as int] == path@[i as int]@);
        }
        s.append(path[i].as_str());
        s.append("::");
        proof {
            let p = path.deep_view();
            assert(p.take(i + 1).drop_last() =~= p.take(i as int));
            assert(p.take(i + 1).last() == p[i as int]);
            assert(s@ =~= "See [`"@ + spec_path_link(p.take(i + 1)));
        }
        i += 1;
    }
    proof {
        assert(path.deep_view().take(n as int) =~= path.deep_view());
    }
    s.append(name.as_str());
    s.append("`]");
    proof {
        assert(s@ =~= spec_doc_message(path.deep_view(), name@));
    }
    s
}

fn type_arguments(gens: &Vec<GenericParam>) -> (r: Vec<String>)
    ensures
        r.deep_view() == spec_type_arguments(gens.deep_view()),
{
    let mut r: Vec<String> = Vec::new();
    let n = gens.len();
    let mut i: usize = 0;
    proof {
        assert(r.deep_view() =~= spec_type_arguments(gens.deep_view().take(0)));
    }
    while i < n
        invariant
            n == gens@.len(),
            i <= n,
            r.deep_view() == spec_type_arguments(gens.deep_view().take(i as int)),
        decreases n - i,
    {
        proof {
            assert(gens.deep_view()[i as int] == gens@[i as int]@);
        }
        let ghost pre = r;
        match gens[i].kind {
            GenericKind::TypeParam => {
                r.push(gens[i].ident.clone());
                proof {
                    assert(r.deep_view() =~= pre.deep_view() + seq![gens.deep_view()[i as int].ident]);
                }
            },
            GenericKind::Lifetime => {
                proof {
                    assert(r.deep_view() =~= pre.deep_view() + Seq::<Seq<char>>::empty());
                }
            },
            GenericKind::ConstParam => {
                proof {
                    assert(r.deep_view() =~= pre.deep_view() + Seq::<Seq<char>>::empty());
                }
            },
        }
        proof {
            let g = gens.deep_view();
            assert(g.take(i + 1).drop_last() =~= g.take(i as int));
            assert(g.take(i + 1).last() == g[i as int]);
        }
        i += 1;
    }
    proof {
        assert(gens.deep_view().take(n as int) =~= gens.deep_view());
    }
    r
}

/// Synthesize the forwarding operation for one interface operation.
pub fn fwd_method(
    interface_path: &Vec<String>,
    visibility: &VisibilityChoice,
    method: &OperationSignature,
) -> (r: ForwardingOperation)
    ensures
        r@ == spec_forward_of(interface_path.deep_view(), visibility@, method@),
{
    let attributes = method.attributes.clone();
    let has_doc = has_doc_attribute(&method.attributes);
    let synthesized_doc: Option<String> = if has_doc {
        None
    } else {
        Some(doc_message(interface_path, &method.name))
    };
    let vis = visibility.clone();
    let modifiers = method.modifiers.clone();
    let name = method.name.clone();
    let generics = method.generics.clone();
    let where_clause: Option<String> = match &method.where_clause {
        Some(w) => Some(w.clone()),
        None => None,
    };
    let receiver: Receiver = match &method.receiver {
        Receiver::ByValue(_) => Receiver::ByValue("self".to_owned()),
        Receiver::ByReference(t) => Receiver::ByReference(t.clone()),
        Receiver::Absent => Receiver::Absent,
    };
    let offset: usize = match &method.receiver {
        Receiver::Absent => 0,
        _ => 1,
    };
    let mut parameters: Vec<Parameter> = Vec::new();
    let mut call_arguments: Vec<String> = Vec::new();
    if offset == 1 {
        call_arguments.push("self".to_owned());
    }
    let n = method.parameters.len();
    let mut j: usize = 0;
    while j < n
        invariant
            n == method.parameters@.len(),
            j <= n,
            offset as nat == spec_receiver_offset(method@.receiver),
            parameters@.len() == j,
            forall|k: int| 0 <= k < j ==> #[trigger] parameters.deep_view()[k] == (SpecParameter {
                name: spec_fresh_name((offset + k) as nat),
                ty: method@.parameters[k].ty,
            }),
            call_arguments@.len() == offset + j,
            offset == 1 ==> call_arguments.deep_view()[0] == "self"@,
            forall|k: int| 0 <= k < j ==> #[trigger] call_arguments.deep_view()[offset + k]
                == spec_fresh_name((offset + k) as nat),
        decreases n - j,
    {
        proof {
            assert(method@.parameters[j as int] == method.parameters@[j as int]@);
        }
        let fresh = fresh_parameter_name(offset + j);
        let p = Parameter { name: fresh.clone(), ty: method.parameters[j].ty.clone() };
        let ghost pre_p = parameters;
        let ghost pre_c = call_arguments;
        parameters.push(p);
        call_arguments.push(fresh);
        proof {
            assert(parameters@ == pre_p@.push(p));
            assert forall|k: int| 0 <= k < j + 1 implies #[trigger] parameters.deep_view()[k]
                == (SpecParameter {
                name: spec_fresh_name((offset + k) as nat),
                ty: method@.parameters[k].ty,
            }) by {
                assert(parameters.deep_view()[k] == parameters@[k]@);
                if k < j {
                    assert(parameters@[k] == pre_p@[k]);
                    assert(pre_p.deep_view()[k] == pre_p@[k]@);
                } else {
                    assert(parameters@[k] == p);
                }
            }
            assert forall|k: int| 0 <= k < j + 1 implies #[trigger] call_arguments.deep_view()[offset
                + k] == spec_fresh_name((offset + k) as nat) by {
                assert(call_arguments.deep_view()[offset + k] == call_arguments@[offset + k]@);
                if k < j {
                    assert(call_arguments@[offset + k] == pre_c@[offset + k]);
                    assert(pre_c.deep_view()[offset + k] == pre_c@[offset + k]@);
                }
            }
            if offset == 1 {
                assert(call_arguments.deep_view()[0] == call_arguments@[0]@);
                assert(call_arguments@[0] == pre_c@[0]);
                assert(pre_c.deep_view()[0] == pre_c@[0]@);
            }
        }
        j += 1;
    }
    let return_type: Option<String> = match &method.return_type {
        Some(t) => Some(t.clone()),
        None => None,
    };
    let call_type_arguments = type_arguments(&method.generics);
    let r = ForwardingOperation {
        attributes,
        synthesized_doc,
        visibility: vis,
        modifiers,
        name,
        generics,
        where_clause,
        receiver,
        parameters,
        return_type,
        call_type_arguments,
        call_arguments,
    };
    proof {
        assert(r.attributes.deep_view() =~= method@.attributes);
        assert(r.generics.deep_view() =~= method@.generics);
        assert(r.parameters.deep_view() =~= spec_fresh_parameters(
            method@.parameters,
            spec_receiver_offset(method@.receiver),
        ));
        assert(r.call_arguments.deep_view() =~= spec_call_arguments(
            method@.receiver,
            method@.parameters.len(),
        ));
        assert(r@ =~= spec_forward_of(interface_path.deep_view(), visibility@, method@));
    }
    r
}

/// Expand a classified implementation block: generate the forwarding
/// operations (stub markers first, then retained operations) and re-emit
/// the block with the stub markers removed and each retained operation's
/// declared visibility discarded.
pub fn inherent(visibility: VisibilityChoice, block: ImplementationBlock) -> (out:
    GeneratedOutput)
    ensures
        out@ == spec_expand(visibility@, block@),
{
    let n = block.items.len();
    let mut forwarding: Vec<ForwardingOperation> = Vec::new();
    let ghost path = block@.interface_path;

    // First pass: forwarding operations for the default-stub markers.
    let mut i: usize = 0;
    while i < n
        invariant
            n == block.items@.len(),
            i <= n,
            path == block@.interface_path,
            forwarding.deep_view() == spec_forwards_of(
                path,
                visibility@,
                spec_stub_operations(block@.items.take(i as int)),
            ),
        decreases n - i,
    {
        proof {
            assert(block@.items[i as int] == block.items@[i as int]@);
        }
        let ghost pre = forwarding;
        match &block.items[i] {
            ImplementationItem::Operation(m) => {
                if m.body.is_none() {
                    let f = fwd_method(&block.interface_path, &visibility, m);
                    forwarding.push(f);
                    proof {
                        let stubs = spec_stub_operations(block@.items.take(i as int));
                        assert(stubs + seq![m@] =~= stubs.push(m@));
                        lemma_forwards_of_push(path, visibility@, stubs, m@);
                        assert(forwarding.deep_view() =~= pre.deep_view().push(f@));
                    }
                }
            },
            ImplementationItem::Other(_) => {},
        }
        proof {
            lemma_stub_operations_step(block@.items, i as int);
            assert(spec_stub_operations(block@.items.take(i as int))
                + Seq::<SpecOperation>::empty() =~= spec_stub_operations(
                block@.items.take(i as int),
            ));
        }
        i += 1;
    }
    proof {
        assert(block@.items.take(n as int) =~= block@.items);
    }

    // Second pass: forwarding operations for the retained operations.
    let ghost stub_ops = spec_stub_operations(block@.items);
    proof {
        assert(forwarding.deep_view() == spec_forwards_of(path, visibility@, stub_ops));
        assert(block@.items.take(0) =~= Seq::<SpecItem>::empty());
        assert(spec_override_operations(block@.items.take(0)) =~= Seq::<SpecOperation>::empty());
        assert(stub_ops + spec_override_operations(block@.items.take(0)) =~= stub_ops);
    }
    let mut i2: usize = 0;
    while i2 < n
        invariant
            n == block.items@.len(),
            i2 <= n,
            path == block@.interface_path,
            stub_ops == spec_stub_operations(block@.items),
            forwarding.deep_view() == spec_forwards_of(
                path,
                visibility@,
                stub_ops + spec_override_operations(block@.items.take(i2 as int)),
            ),
        decreases n - i2,
    {
        proof {
            assert(block@.items[i2 as int] == block.items@[i2 as int]@);
        }
        let ghost pre = forwarding;
        match &block.items[i2] {
            ImplementationItem::Operation(m) => {
                if m.body.is_some() {
                    let f = fwd_method(&block.interface_path, &visibility, m);
                    forwarding.push(f);
                    proof {
                        let ops = stub_ops + spec_override_operations(
                            block@.items.take(i2 as int),
                        );
                        assert(ops.push(m@) =~= stub_ops + (spec_override_operations(
                            block@.items.take(i2 as int),
                        ) + seq![m@]));
                        lemma_forwards_of_push(path, visibility@, ops, m@);
                        assert(forwarding.deep_view() =~= pre.deep_view().push(f@));
                    }
                }
            },
            ImplementationItem::Other(_) => {},
        }
        proof {
            lemma_override_operations_step(block@.items, i2 as int);
            assert(stub_ops + (spec_override_operations(block@.items.take(i2 as int))
                + Seq::<SpecOperation>::empty()) =~= stub_ops + spec_override_operations(
                block@.items.take(i2 as int),
            ));
        }
        i2 += 1;
    }
    proof {
        assert(block@.items.take(n as int) =~= block@.items);
        assert(stub_ops + spec_override_operations(block@.items) == spec_forward_sources(
            block@.items,
        ));
        assert(forwarding.deep_view() == spec_forwards(path, visibility@, block@.items));
    }

    // Third pass: the retained items, stub markers removed.
    let mut retained_items: Vec<ImplementationItem> = Vec::new();
    let mut i3: usize = 0;
    while i3 < n
        invariant
            n == block.items@.len(),
            i3 <= n,
            retained_items.deep_view() == spec_retained_items(block@.items.take(i3 as int)),
        decreases n - i3,
    {
        proof {
            assert(block@.items[i3 as int] == block.items@[i3 as int]@);
        }
        let ghost pre = retained_items;
        match &block.items[i3] {
            ImplementationItem::Operation(m) => {
                if m.body.is_some() {
                    let mut c = m.clone();
                    c.visibility = String::new();
                    proof {
                        assert(c@ =~= spec_clear_visibility(m@));
                    }
                    retained_items.push(ImplementationItem::Operation(c));
                    proof {
                        assert(retained_items.deep_view() =~= pre.deep_view() + seq![
                            SpecItem::Operation(spec_clear_visibility(m@)),
                        ]);
                    }
                }
            },
            ImplementationItem::Other(_) => {
                let c = block.items[i3].clone();
                retained_items.push(c);
                proof {
                    assert(retained_items.deep_view() =~= pre.deep_view() + seq![
                        block@.items[i3 as int],
                    ]);
                }
            },
        }
        proof {
            lemma_retained_items_step(block@.items, i3 as int);
            assert(spec_retained_items(block@.items.take(i3 as int))
                + Seq::<SpecItem>::empty() =~= spec_retained_items(block@.items.take(i3 as int)));
        }
        i3 += 1;
    }
    proof {
        assert(block@.items.take(n as int) =~= block@.items);
    }

    let retained = ImplementationBlock {
        generics: block.generics,
        where_clause: block.where_clause,
        interface_path: block.interface_path,
        self_type: block.self_type,
        items: retained_items,
    };
    let out = GeneratedOutput { forwarding, retained };
    proof {
        assert(out.retained@ =~= spec_retained_block(block@));
        assert(out@ =~= spec_expand(visibility@, block@));
    }
    out
}

} // verus!
