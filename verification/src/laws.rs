//! The engine's laws, each stated and proved over the same spec
//! functions that the executable functions' contracts use.

use crate::expand::{spec_call_arguments, spec_clear_visibility, spec_forward_of,
    spec_forward_sources, spec_forwards, spec_forwards_of, spec_fresh_parameters,
    spec_override_operations, spec_receiver_offset, spec_retained_contribution,
    spec_retained_items, spec_stub_operations};
use crate::fresh::{has_reserved_prefix, lemma_fresh_name_injective, lemma_fresh_name_not_self,
    lemma_fresh_name_reserved, spec_fresh_name};
use crate::model::{SpecItem, SpecOperation};
use crate::visibility::SpecVisibility;
use vstd::prelude::*;

verus! {

proof fn lemma_add_contains<A>(s1: Seq<A>, s2: Seq<A>, x: A)
    requires
        s1.contains(x),
    ensures
        (s1 + s2).contains(x),
{
    let i = choose|i: int| 0 <= i < s1.len() && s1[i] == x;
    assert((s1 + s2)[i] == x);
}

/// The forwarding list is the source operations mapped one to one, in
/// order: as many forwards as sources, the forward at each position
/// synthesized from the source operation at the same position.
pub proof fn lemma_forwards_of_index(path: Seq<Seq<char>>, vis: SpecVisibility, ops: Seq<
    SpecOperation,
>)
    ensures
        spec_forwards_of(path, vis, ops).len() == ops.len(),
        forall|k: int| 0 <= k < ops.len() ==> #[trigger] spec_forwards_of(path, vis, ops)[k]
            == spec_forward_of(path, vis, ops[k]),
    decreases ops.len(),
{
    if ops.len() > 0 {
        lemma_forwards_of_index(path, vis, ops.drop_last());
        let rec = spec_forwards_of(path, vis, ops.drop_last());
        assert forall|k: int| 0 <= k < ops.len() implies #[trigger] spec_forwards_of(
            path,
            vis,
            ops,
        )[k] == spec_forward_of(path, vis, ops[k]) by {
            if k < ops.len() - 1 {
                assert(rec.push(spec_forward_of(path, vis, ops.last()))[k] == rec[k]);
                assert(ops.drop_last()[k] == ops[k]);
            }
        }
    }
}

/// Law: a block with N overriding operations and M stub markers yields
/// exactly N + M forwarding operations, one per operation, the stub
/// markers' forwards first and then the overriding operations', each
/// group in declaration order.
pub proof fn lemma_forward_count(path: Seq<Seq<char>>, vis: SpecVisibility, items: Seq<SpecItem>)
    ensures
        spec_forwards(path, vis, items).len() == spec_stub_operations(items).len()
            + spec_override_operations(items).len(),
        forall|k: int| 0 <= k < spec_stub_operations(items).len() ==> #[trigger] spec_forwards(
            path,
            vis,
            items,
        )[k] == spec_forward_of(path, vis, spec_stub_operations(items)[k]),
        forall|k: int|
            spec_stub_operations(items).len() <= k < spec_stub_operations(items).len()
                + spec_override_operations(items).len() ==> #[trigger] spec_forwards(
                path,
                vis,
                items,
            )[k] == spec_forward_of(
                path,
                vis,
                spec_override_operations(items)[k - spec_stub_operations(items).len()],
            ),
{
    let sources = spec_forward_sources(items);
    lemma_forwards_of_index(path, vis, sources);
    let stubs = spec_stub_operations(items);
    let overrides = spec_override_operations(items);
    assert forall|k: int| 0 <= k < stubs.len() implies #[trigger] spec_forwards(path, vis, items)[k]
        == spec_forward_of(path, vis, stubs[k]) by {
        assert(sources[k] == stubs[k]);
    }
    assert forall|k: int| stubs.len() <= k < stubs.len() + overrides.len() implies #[trigger]
    spec_forwards(path, vis, items)[k] == spec_forward_of(
        path,
        vis,
        overrides[k - stubs.len()],
    ) by {
        assert(sources[k] == overrides[k - stubs.len()]);
    }
}

/// Whether a retained item arises from an input item by the pass-through
/// rule: an `Other` item unchanged, or an overriding operation with only
/// its declared visibility discarded.
pub open spec fn spec_arises_from(items: Seq<SpecItem>, it: SpecItem) -> bool {
    exists|i: int|
        0 <= i < items.len() && #[trigger] spec_retained_contribution(items[i]).contains(it)
}

/// Law (pass-through): every `Other` item of the input stands unchanged
/// in the retained output; every overriding operation stands in the
/// retained output with its attributes, generics, parameters, body and
/// everything else unchanged, only its declared visibility discarded;
/// and nothing else is in the retained output.
pub proof fn lemma_passthrough(items: Seq<SpecItem>)
    ensures
        forall|i: int| 0 <= i < items.len() && (#[trigger] items[i]) is Other
            ==> spec_retained_items(items).contains(items[i]),
        forall|i: int|
            0 <= i < items.len() && (#[trigger] items[i]) is Operation
                && items[i]->Operation_0.body is Some ==> spec_retained_items(items).contains(
                SpecItem::Operation(spec_clear_visibility(items[i]->Operation_0)),
            ),
        forall|j: int| 0 <= j < spec_retained_items(items).len() ==> spec_arises_from(
            items,
            #[trigger] spec_retained_items(items)[j],
        ),
    decreases items.len(),
{
    if items.len() > 0 {
        let prefix = items.drop_last();
        let last = items.last();
        lemma_passthrough(prefix);
        let rec = spec_retained_items(prefix);
        let last_part = spec_retained_contribution(last);
        assert forall|i: int| 0 <= i < items.len() && (#[trigger] items[i]) is Other implies
        spec_retained_items(items).contains(items[i]) by {
            if i < items.len() - 1 {
                assert(prefix[i] == items[i]);
                lemma_add_contains(rec, last_part, items[i]);
            } else {
                assert(last_part[0] == items[i]);
                assert((rec + last_part)[rec.len() as int] == items[i]);
            }
        }
        assert forall|i: int|
            0 <= i < items.len() && (#[trigger] items[i]) is Operation
                && items[i]->Operation_0.body is Some implies spec_retained_items(items).contains(
            SpecItem::Operation(spec_clear_visibility(items[i]->Operation_0)),
        ) by {
            let x = SpecItem::Operation(spec_clear_visibility(items[i]->Operation_0));
            if i < items.len() - 1 {
                assert(prefix[i] == items[i]);
                lemma_add_contains(rec, last_part, x);
            } else {
                assert(last_part[0] == x);
                assert((rec + last_part)[rec.len() as int] == x);
            }
        }
        assert forall|j: int| 0 <= j < spec_retained_items(items).len() implies spec_arises_from(
            items,
            #[trigger] spec_retained_items(items)[j],
        ) by {
            let x = spec_retained_items(items)[j];
            if j < rec.len() {
                assert(rec[j] == x);
                assert(spec_arises_from(prefix, x));
                let i = choose|i: int|
                    0 <= i < prefix.len() && #[trigger] spec_retained_contribution(
                        prefix[i],
                    ).contains(x);
                assert(items[i] == prefix[i]);
                assert(spec_retained_contribution(items[i]).contains(x));
            } else {
                assert(x == last_part[j - rec.len()]);
                assert(spec_retained_contribution(items[items.len() - 1]).contains(x));
            }
        }
    }
}

proof fn lemma_stub_contained(items: Seq<SpecItem>, i: int)
    requires
        0 <= i < items.len(),
        items[i] is Operation,
        items[i]->Operation_0.body is None,
    ensures
        spec_stub_operations(items).contains(items[i]->Operation_0),
    decreases items.len(),
{
    let m = items[i]->Operation_0;
    if i < items.len() - 1 {
        lemma_stub_contained(items.drop_last(), i);
        lemma_add_contains(
            spec_stub_operations(items.drop_last()),
            crate::expand::spec_stub_contribution(items.last()),
            m,
        );
    } else {
        let rec = spec_stub_operations(items.drop_last());
        let last_part = crate::expand::spec_stub_contribution(items.last());
        assert(last_part[0] == m);
        assert((rec + last_part)[rec.len() as int] == m);
    }
}

/// Law (stub removal): no default-stub marker stands in the retained
/// output, and every stub marker of the input has a forwarding operation
/// generated for it.
pub proof fn lemma_stub_removal(path: Seq<Seq<char>>, vis: SpecVisibility, items: Seq<SpecItem>)
    ensures
        forall|j: int|
            0 <= j < spec_retained_items(items).len() ==> !((#[trigger] spec_retained_items(
                items,
            )[j]) is Operation && spec_retained_items(items)[j]->Operation_0.body is None),
        forall|i: int|
            0 <= i < items.len() && (#[trigger] items[i]) is Operation
                && items[i]->Operation_0.body is None ==> exists|k: int|
                0 <= k < spec_forwards(path, vis, items).len() && spec_forwards(path, vis, items)[k]
                    == spec_forward_of(path, vis, items[i]->Operation_0),
    decreases items.len(),
{
    if items.len() > 0 {
        lemma_stub_removal(path, vis, items.drop_last());
        let rec = spec_retained_items(items.drop_last());
        let last_part = spec_retained_contribution(items.last());
        assert forall|j: int| 0 <= j < spec_retained_items(items).len() implies !((
        #[trigger] spec_retained_items(items)[j]) is Operation && spec_retained_items(
            items,
        )[j]->Operation_0.body is None) by {
            if j < rec.len() {
                assert(spec_retained_items(items)[j] == rec[j]);
            } else {
                assert(spec_retained_items(items)[j] == last_part[j - rec.len()]);
            }
        }
    }
    lemma_forwards_of_index(path, vis, spec_forward_sources(items));
    assert forall|i: int|
        0 <= i < items.len() && (#[trigger] items[i]) is Operation
            && items[i]->Operation_0.body is None implies exists|k: int|
        0 <= k < spec_forwards(path, vis, items).len() && spec_forwards(path, vis, items)[k]
            == spec_forward_of(path, vis, items[i]->Operation_0) by {
        let m = items[i]->Operation_0;
        lemma_stub_contained(items, i);
        let s = choose|s: int|
            0 <= s < spec_stub_operations(items).len() && spec_stub_operations(items)[s] == m;
        assert(spec_forward_sources(items)[s] == m);
        assert(spec_forwards(path, vis, items)[s] == spec_forward_of(path, vis, m));
    }
}

/// Law (fresh-name collision freedom): in every forwarding signature the
/// parameter names are pairwise distinct, all carry the reserved prefix
/// (so they can never collide with the receiver binding `self`, nor with
/// any identifier without the prefix — the host grammar guarantees user
/// identifiers never carry it), and the call passes each fresh name
/// through at its own position, so the positional mapping recovers the
/// original call semantics.
pub proof fn lemma_fresh_name_collision_freedom(
    path: Seq<Seq<char>>,
    vis: SpecVisibility,
    m: SpecOperation,
)
    ensures
        forall|a: int, b: int|
            0 <= a < b < spec_forward_of(path, vis, m).parameters.len()
                ==> (#[trigger] spec_forward_of(path, vis, m).parameters[a]).name != (
            #[trigger] spec_forward_of(path, vis, m).parameters[b]).name,
        forall|a: int| 0 <= a < spec_forward_of(path, vis, m).parameters.len()
            ==> has_reserved_prefix((#[trigger] spec_forward_of(path, vis, m).parameters[a]).name),
        forall|a: int| 0 <= a < spec_forward_of(path, vis, m).parameters.len() ==> (
        #[trigger] spec_forward_of(path, vis, m).parameters[a]).name != "self"@,
        spec_forward_of(path, vis, m).call_arguments.len() == spec_receiver_offset(m.receiver)
            + m.parameters.len(),
        forall|a: int| 0 <= a < spec_forward_of(path, vis, m).parameters.len()
            ==> #[trigger] spec_forward_of(path, vis, m).call_arguments[spec_receiver_offset(
            m.receiver,
        ) + a] == spec_forward_of(path, vis, m).parameters[a].name,
{
    let off = spec_receiver_offset(m.receiver);
    let params = spec_fresh_parameters(m.parameters, off);
    assert forall|a: int, b: int| 0 <= a < b < params.len() implies (
    #[trigger] params[a]).name != (#[trigger] params[b]).name by {
        if params[a].name == params[b].name {
            lemma_fresh_name_injective((off + a) as nat, (off + b) as nat);
        }
    }
    assert forall|a: int| 0 <= a < params.len() implies has_reserved_prefix(
        (#[trigger] params[a]).name,
    ) by {
        lemma_fresh_name_reserved((off + a) as nat);
    }
    assert forall|a: int| 0 <= a < params.len() implies (#[trigger] params[a]).name
        != "self"@ by {
        lemma_fresh_name_not_self((off + a) as nat);
    }
    let call = spec_call_arguments(m.receiver, m.parameters.len());
    assert forall|a: int| 0 <= a < params.len() implies #[trigger] spec_forward_of(
        path,
        vis,
        m,
    ).call_arguments[off + a] == spec_forward_of(path, vis, m).parameters[a].name by {
        assert(call[off + a] == spec_fresh_name((off + a) as nat));
        assert(params[a].name == spec_fresh_name((off + a) as nat));
    }
}

/// Law (visibility uniformity): every generated forwarding operation
/// carries the single engine-wide visibility choice, whatever visibility
/// the source operation declared.
pub proof fn lemma_visibility_uniform(path: Seq<Seq<char>>, vis: SpecVisibility, items: Seq<
    SpecItem,
>)
    ensures
        forall|k: int| 0 <= k < spec_forwards(path, vis, items).len() ==> (#[trigger] spec_forwards(
            path,
            vis,
            items,
        )[k]).visibility == vis,
{
    lemma_forwards_of_index(path, vis, spec_forward_sources(items));
}

} // verus!
