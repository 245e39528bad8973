//! Expansion engine for interface implementation blocks.
//!
//! Given a model of an `impl Interface for Type { ... }` block, the engine
//! emits one directly-callable forwarding operation on the concrete type
//! for every interface operation, so callers can invoke the operation
//! without the interface in scope.  The host grammar parses the raw token
//! stream into the model and renders the result back into tokens; this
//! crate owns everything in between: the visibility mini-grammar, the
//! classification of default-stub markers, and the forwarding generation.

use vstd::prelude::*;

pub mod diagnostics;
pub mod expand;
pub mod fresh;
pub mod laws;
pub mod model;
pub mod parse;
pub mod visibility;

use crate::diagnostics::{ErrorSet, SpecDiagnostic};
use crate::expand::{spec_expand, GeneratedOutput};
use crate::model::ImplementationBlock;
use crate::parse::{parse_block, spec_block_diagnostics, spec_classified_block};
use crate::visibility::{parse_visibility, spec_malformed_visibility_message,
    spec_parse_visibility};

verus! {

/// Run the whole transform: parse the visibility argument, classify the
/// host-parsed block, then expand.
///
/// All parsing errors are detected and reported before any expansion is
/// attempted, so no partial output is ever produced from an invalid
/// input: a malformed visibility argument is reported once, and all
/// stub-marker misuses in the block are combined into one error set.
/// Expansion itself is total over a classified block.
pub fn inherent(args: &Vec<String>, block: ImplementationBlock) -> (r: Result<
    GeneratedOutput,
    ErrorSet,
>)
    ensures
        match r {
            Ok(out) => {
                &&& spec_parse_visibility(args.deep_view()) is Ok
                &&& spec_block_diagnostics(block@.items).len() == 0
                &&& out@ == spec_expand(
                    spec_parse_visibility(args.deep_view())->Ok_0,
                    spec_classified_block(block@),
                )
            },
            Err(e) => match spec_parse_visibility(args.deep_view()) {
                Err(pos) => e@ =~= seq![
                    SpecDiagnostic {
                        kind: crate::diagnostics::ErrorKind::MalformedVisibility,
                        message: spec_malformed_visibility_message(),
                        position: pos,
                    },
                ],
                Ok(_) => e@ == spec_block_diagnostics(block@.items) && e@.len() > 0,
            },
        },
{
    let vis = match parse_visibility(args) {
        Ok(v) => v,
        Err(d) => {
            return Err(ErrorSet::single(d));
        },
    };
    let classified = match parse_block(block) {
        Ok(b) => b,
        Err(e) => {
            return Err(e);
        },
    };
    Ok(crate::expand::inherent(vis, classified))
}

} // verus!
