//! Classification of implementation-block items.
//!
//! The host grammar parses the raw token stream into the structural model;
//! this module re-interprets that model.  An operation whose body is
//! exactly one empty statement (a bare `;`) is promoted to an explicit
//! default-stub marker (`body == None`): the interface's own default
//! implementation stays in force and only a forwarding operation is
//! generated.  A body that contains a bare `;` among other statements is
//! an illegal use of the marker; every such item is reported, and all the
//! reports are combined into one error set instead of stopping at the
//! first.

use crate::diagnostics::{Diagnostic, ErrorKind, ErrorSet, SpecDiagnostic};
use crate::model::{ImplementationBlock, ImplementationItem, SpecBlock, SpecItem, SpecOperation,
    SpecStatement, Statement};
use vstd::prelude::*;

verus! {

/// Whether a body is exactly the default-stub marker: one empty
/// statement and nothing else.
pub open spec fn spec_is_stub_body(b: Seq<SpecStatement>) -> bool {
    b.len() == 1 && b[0] is Empty
}

/// Whether a body misuses the marker: it contains an empty statement but
/// is not exactly the marker alone.
pub open spec fn spec_body_misuses_marker(b: Seq<SpecStatement>) -> bool {
    &&& !spec_is_stub_body(b)
    &&& exists|k: int| 0 <= k < b.len() && (#[trigger] b[k]) is Empty
}

/// Whether an item is an operation whose body misuses the marker.
pub open spec fn spec_item_misuses(it: SpecItem) -> bool {
    match it {
        SpecItem::Operation(m) => match m.body {
            Some(b) => spec_body_misuses_marker(b),
            None => false,
        },
        SpecItem::Other(_) => false,
    }
}

/// Classify one item: a stub-marker body becomes the explicit marker
/// (`body == None`); every other item is kept as it stands.
pub open spec fn spec_classify_item(it: SpecItem) -> SpecItem {
    match it {
        SpecItem::Operation(m) => match m.body {
            Some(b) => if spec_is_stub_body(b) {
                SpecItem::Operation(SpecOperation { body: None, ..m })
            } else {
                it
            },
            None => it,
        },
        SpecItem::Other(_) => it,
    }
}

/// All items classified, order and everything else preserved.
pub open spec fn spec_classified_items(items: Seq<SpecItem>) -> Seq<SpecItem> {
    Seq::new(items.len(), |i: int| spec_classify_item(items[i]))
}

/// The whole block classified.
pub open spec fn spec_classified_block(b: SpecBlock) -> SpecBlock {
    SpecBlock { items: spec_classified_items(b.items), ..b }
}

/// The message carried by every marker-misuse diagnostic.
pub open spec fn spec_stub_misuse_message() -> Seq<char> {
    "a default-method stub must be a single bare `;` with nothing else in its body"@
}

/// The diagnostic reported for a marker misuse at item `position`.
pub open spec fn spec_stub_misuse_diagnostic(position: int) -> SpecDiagnostic {
    SpecDiagnostic {
        kind: ErrorKind::MalformedImplementationBlock,
        message: spec_stub_misuse_message(),
        position,
    }
}

/// The combined diagnostics of a block's items, in item order: one
/// marker-misuse report per offending item.
pub open spec fn spec_block_diagnostics(items: Seq<SpecItem>) -> Seq<SpecDiagnostic>
    decreases items.len(),
{
    if items.len() == 0 {
        Seq::empty()
    } else {
        spec_block_diagnostics(items.drop_last()) + if spec_item_misuses(items.last()) {
            seq![spec_stub_misuse_diagnostic(items.len() - 1)]
        } else {
            Seq::empty()
        }
    }
}

proof fn lemma_block_diagnostics_step(items: Seq<SpecItem>, i: int)
    requires
        0 <= i < items.len(),
    ensures
        spec_block_diagnostics(items.take(i + 1)) == spec_block_diagnostics(items.take(i)) + (
        if spec_item_misuses(items[i]) {
            seq![spec_stub_misuse_diagnostic(i)]
        } else {
            Seq::<SpecDiagnostic>::empty()
        }),
{
    assert(items.take(i + 1).drop_last() =~= items.take(i));
    assert(items.take(i + 1).last() == items[i]);
}

fn is_stub_body(b: &Vec<Statement>) -> (r: bool)
    ensures
        r == spec_is_stub_body(b.deep_view()),
{
    if b.len() != 1 {
        false
    } else {
        proof {
            assert(b.deep_view()[0] == b@[0]@);
        }
        match &b[0] {
            Statement::Empty => true,
            Statement::Other(_) => false,
        }
    }
}

fn body_misuses_marker(b: &Vec<Statement>) -> (r: bool)
    ensures
        r == spec_body_misuses_marker(b.deep_view()),
{
    if is_stub_body(b) {
        return false;
    }
    let mut k: usize = 0;
    while k < b.len()
        invariant
            k <= b@.len(),
            !spec_is_stub_body(b.deep_view()),
            forall|j: int| 0 <= j < k ==> !(b.deep_view()[j] is Empty),
        decreases b@.len() - k,
    {
        proof {
            assert(b.deep_view()[k as int] == b@[k as int]@);
        }
        match &b[k] {
            Statement::Empty => {
                proof {
                    assert(b.deep_view()[k as int] is Empty);
                    assert(spec_body_misuses_marker(b.deep_view()));
                }
                return true;
            },
            Statement::Other(_) => {},
        }
        k += 1;
    }
    false
}

fn stub_misuse_diagnostic(position: usize) -> (d: Diagnostic)
    ensures
        d@ == spec_stub_misuse_diagnostic(position as int),
{
    Diagnostic {
        kind: ErrorKind::MalformedImplementationBlock,
        message: "a default-method stub must be a single bare `;` with nothing else in its body"
            .to_owned(),
        position,
    }
}

/// Re-interpret a host-parsed block: mark every default-stub body as an
/// explicit marker, and reject every body that misuses the marker.  All
/// misuses are accumulated and reported together.
pub fn parse_block(block: ImplementationBlock) -> (r: Result<ImplementationBlock, ErrorSet>)
    ensures
        match r {
            Ok(b) => {
                &&& spec_block_diagnostics(block@.items).len() == 0
                &&& b@ == spec_classified_block(block@)
            },
            Err(e) => {
                &&& e@.len() > 0
                &&& e@ == spec_block_diagnostics(block@.items)
            },
        },
{
    let mut errors = ErrorSet::new();
    let mut items: Vec<ImplementationItem> = Vec::new();
    let n = block.items.len();
    let mut idx: usize = 0;
    while idx < n
        invariant
            n == block.items@.len(),
            idx <= n,
            items@.len() == idx,
            forall|j: int| 0 <= j < idx ==> items.deep_view()[j] == spec_classify_item(
                block@.items[j],
            ),
            errors@ == spec_block_diagnostics(block@.items.take(idx as int)),
        decreases n - idx,
    {
        proof {
            assert(block@.items[idx as int] == block.items@[idx as int]@);
        }
        let classified: ImplementationItem = match &block.items[idx] {
            ImplementationItem::Operation(m) => {
                match &m.body {
                    Some(b) => {
                        if is_stub_body(b) {
                            let mut c = m.clone();
                            c.body = None;
                            let ci = ImplementationItem::Operation(c);
                            proof {
                                assert(c@ =~= SpecOperation { body: None, ..m@ });
                                assert(ci@ == spec_classify_item(block@.items[idx as int]));
                            }
                            ci
                        } else {
                            if body_misuses_marker(b) {
                                errors.combine(stub_misuse_diagnostic(idx));
                            }
                            let ci = block.items[idx].clone();
                            proof {
                                assert(ci@ == spec_classify_item(block@.items[idx as int]));
                            }
                            ci
                        }
                    },
                    None => {
                        let ci = block.items[idx].clone();
                        proof {
                            assert(ci@ == spec_classify_item(block@.items[idx as int]));
                        }
                        ci
                    },
                }
            },
            ImplementationItem::Other(_) => {
                let ci = block.items[idx].clone();
                proof {
                    assert(ci@ == spec_classify_item(block@.items[idx as int]));
                }
                ci
            },
        };
        let ghost pre = items;
        items.push(classified);
        proof {
            assert forall|j: int| 0 <= j < idx + 1 implies items.deep_view()[j]
                == spec_classify_item(block@.items[j]) by {
                assert(items@ == pre@.push(classified));
                if j < idx as int {
                    assert(items@[j] == pre@[j]);
                    assert(pre.deep_view()[j] == spec_classify_item(block@.items[j]));
                } else {
                    assert(items@[j] == classified);
                }
                assert(items.deep_view()[j] == items@[j].deep_view());
            }
            lemma_block_diagnostics_step(block@.items, idx as int);
            assert(errors@ =~= spec_block_diagnostics(block@.items.take(idx as int + 1)));
        }
        idx += 1;
    }
    proof {
        assert(block@.items.take(n as int) =~= block@.items);
    }
    if errors.is_empty() {
        let b = ImplementationBlock {
            generics: block.generics,
            where_clause: block.where_clause,
            interface_path: block.interface_path,
            self_type: block.self_type,
            items,
        };
        proof {
            assert(b@.items =~= spec_classified_items(block@.items));
            assert(b@ =~= spec_classified_block(block@));
        }
        Ok(b)
    } else {
        Err(errors)
    }
}

} // verus!
