//! The visibility applied to generated forwarding operations.
//!
//! The engine-wide choice is parsed once from the invocation's argument
//! tokens and applied uniformly to every forwarding operation; the
//! visibility written on a source operation is never consulted.  The
//! grammar has four forms: an empty argument list (ecosystem-private, the
//! default), the single token `pub`, the single token `crate`, or `in`
//! followed by a `::`-separated path.  Anything else is rejected with a
//! single `MalformedVisibility` diagnostic at the first offending token.

use crate::diagnostics::{Diagnostic, ErrorKind};
use vstd::prelude::*;

verus! {

/// The four-way visibility choice for generated forwarding operations.
#[derive(Debug, PartialEq, Eq)]
pub enum VisibilityChoice {
    EcosystemPrivate,
    Public,
    PackagePrivate,
    ScopedToPath(Vec<String>),
}

#[verifier::ext_equal]
pub enum SpecVisibility {
    EcosystemPrivate,
    Public,
    PackagePrivate,
    ScopedToPath(Seq<Seq<char>>),
}

impl View for VisibilityChoice {
    type V = SpecVisibility;

    open spec fn view(&self) -> SpecVisibility {
        match self {
            VisibilityChoice::EcosystemPrivate => SpecVisibility::EcosystemPrivate,
            VisibilityChoice::Public => SpecVisibility::Public,
            VisibilityChoice::PackagePrivate => SpecVisibility::PackagePrivate,
            VisibilityChoice::ScopedToPath(p) => SpecVisibility::ScopedToPath(p.deep_view()),
        }
    }
}

impl DeepView for VisibilityChoice {
    type V = SpecVisibility;

    open spec fn deep_view(&self) -> SpecVisibility {
        self.view()
    }
}

impl Clone for VisibilityChoice {
    fn clone(&self) -> (c: Self)
        ensures
            c@ == self@,
    {
        match self {
            VisibilityChoice::EcosystemPrivate => VisibilityChoice::EcosystemPrivate,
            VisibilityChoice::Public => VisibilityChoice::Public,
            VisibilityChoice::PackagePrivate => VisibilityChoice::PackagePrivate,
            VisibilityChoice::ScopedToPath(p) => {
                let q = p.clone();
                proof {
                    assert(q.deep_view() =~= p.deep_view());
                }
                VisibilityChoice::ScopedToPath(q)
            },
        }
    }
}

/// Whether a token can stand as one path segment: non-empty and not the
/// separator itself.
pub open spec fn spec_is_segment(t: Seq<char>) -> bool {
    t.len() > 0 && t != "::"@
}

/// Parse a `::`-separated path beginning at token `i`.  `Ok` carries the
/// segments in order; `Err` carries the index of the first offending
/// token (one past the end when a segment is missing).
pub open spec fn spec_parse_path(toks: Seq<Seq<char>>, i: int) -> Result<Seq<Seq<char>>, int>
    decreases toks.len() - i,
{
    if i >= toks.len() {
        Err(i)
    } else if !spec_is_segment(toks[i]) {
        Err(i)
    } else if i + 1 >= toks.len() {
        Ok(seq![toks[i]])
    } else if toks[i + 1] != "::"@ {
        Err(i + 1)
    } else {
        match spec_parse_path(toks, i + 2) {
            Ok(rest) => Ok(seq![toks[i]] + rest),
            Err(j) => Err(j),
        }
    }
}

/// The four-way grammar of the visibility argument.  `Ok` carries the
/// parsed choice; `Err` carries the index of the first offending token.
pub open spec fn spec_parse_visibility(toks: Seq<Seq<char>>) -> Result<SpecVisibility, int> {
    if toks.len() == 0 {
        Ok(SpecVisibility::EcosystemPrivate)
    } else if toks[0] == "pub"@ {
        if toks.len() == 1 {
            Ok(SpecVisibility::Public)
        } else {
            Err(1)
        }
    } else if toks[0] == "crate"@ {
        if toks.len() == 1 {
            Ok(SpecVisibility::PackagePrivate)
        } else {
            Err(1)
        }
    } else if toks[0] == "in"@ {
        match spec_parse_path(toks, 1) {
            Ok(p) => Ok(SpecVisibility::ScopedToPath(p)),
            Err(j) => Err(j),
        }
    } else {
        Err(0)
    }
}

/// The message carried by every `MalformedVisibility` diagnostic.
pub open spec fn spec_malformed_visibility_message() -> Seq<char> {
    "expected nothing, `pub`, `crate`, or `in <path>` as the visibility argument"@
}

/// Whether a token's text equals a given literal.
fn token_is(t: &String, lit: &str) -> (r: bool)
    ensures
        r == (t@ == lit@),
{
    let needle: String = lit.to_owned();
    let r = *t == needle;
    r
}

fn is_segment(t: &String) -> (r: bool)
    ensures
        r == spec_is_segment(t@),
{
    let sep = token_is(t, "::");
    !t.as_str().is_empty() && !sep
}

fn malformed(position: usize) -> (d: Diagnostic)
    ensures
        d@.kind == ErrorKind::MalformedVisibility,
        d@.position == position as int,
        d@.message == spec_malformed_visibility_message(),
{
    Diagnostic {
        kind: ErrorKind::MalformedVisibility,
        message: "expected nothing, `pub`, `crate`, or `in <path>` as the visibility argument"
            .to_owned(),
        position,
    }
}

fn parse_path(toks: &Vec<String>, i: usize) -> (r: Result<Vec<String>, usize>)
    requires
        i <= toks@.len(),
    ensures
        match r {
            Ok(p) => spec_parse_path(toks.deep_view(), i as int) == Ok::<Seq<Seq<char>>, int>(
                p.deep_view(),
            ),
            Err(j) => spec_parse_path(toks.deep_view(), i as int) == Err::<Seq<Seq<char>>, int>(
                j as int,
            ),
        },
    decreases toks@.len() - i,
{
    if i >= toks.len() {
        Err(i)
    } else if !is_segment(&toks[i]) {
        Err(i)
    } else if i + 1 >= toks.len() {
        let mut p: Vec<String> = Vec::new();
        p.push(toks[i].clone());
        proof {
            assert(p.deep_view() =~= seq![toks.deep_view()[i as int]]);
        }
        Ok(p)
    } else if !token_is(&toks[i + 1], "::") {
        Err(i + 1)
    } else {
        match parse_path(toks, i + 2) {
            Ok(mut rest) => {
                rest.insert(0, toks[i].clone());
                proof {
                    let sp = spec_parse_path(toks.deep_view(), i + 2);
                    assert(rest.deep_view() =~= seq![toks.deep_view()[i as int]] + sp->Ok_0);
                }
                Ok(rest)
            },
            Err(j) => Err(j),
        }
    }
}

/// Parse the invocation's visibility argument tokens into the engine-wide
/// choice, or report a single `MalformedVisibility` diagnostic at the
/// first offending token.
pub fn parse_visibility(tokens: &Vec<String>) -> (r: Result<VisibilityChoice, Diagnostic>)
    ensures
        match r {
            Ok(v) => spec_parse_visibility(tokens.deep_view()) == Ok::<SpecVisibility, int>(v@),
            Err(d) => {
                &&& spec_parse_visibility(tokens.deep_view()) == Err::<SpecVisibility, int>(
                    d@.position,
                )
                &&& d@.kind == ErrorKind::MalformedVisibility
                &&& d@.message == spec_malformed_visibility_message()
            },
        },
{
    if tokens.len() == 0 {
        Ok(VisibilityChoice::EcosystemPrivate)
    } else if token_is(&tokens[0], "pub") {
        if tokens.len() == 1 {
            Ok(VisibilityChoice::Public)
        } else {
            Err(malformed(1))
        }
    } else if token_is(&tokens[0], "crate") {
        if tokens.len() == 1 {
            Ok(VisibilityChoice::PackagePrivate)
        } else {
            Err(malformed(1))
        }
    } else if token_is(&tokens[0], "in") {
        match parse_path(tokens, 1) {
            Ok(p) => Ok(VisibilityChoice::ScopedToPath(p)),
            Err(j) => Err(malformed(j)),
        }
    } else {
        Err(malformed(0))
    }
}

} // verus!
