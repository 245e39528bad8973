//! Structured diagnostics: (kind, message, position) triples, and an
//! error set that combines several diagnostics into one report.
//!
//! A position is an index into whatever list the diagnostic speaks of:
//! for a malformed visibility argument the index of the offending token,
//! for a malformed implementation block the index of the offending item.
//! The host renders each diagnostic at the source span it maps the
//! position back to.

use vstd::prelude::*;

verus! {

/// The closed set of user-facing error kinds.
#[derive(Clone, Copy, Debug, PartialEq, Eq)]
pub enum ErrorKind {
    MalformedVisibility,
    MalformedImplementationBlock,
}

/// One error: its kind, a human-readable message, and the position of the
/// construct that triggered it.
#[derive(Debug, PartialEq, Eq)]
pub struct Diagnostic {
    pub kind: ErrorKind,
    pub message: String,
    pub position: usize,
}

#[verifier::ext_equal]
pub struct SpecDiagnostic {
    pub kind: ErrorKind,
    pub message: Seq<char>,
    pub position: int,
}

impl View for Diagnostic {
    type V = SpecDiagnostic;

    open spec fn view(&self) -> SpecDiagnostic {
        SpecDiagnostic { kind: self.kind, message: self.message@, position: self.position as int }
    }
}

impl DeepView for Diagnostic {
    type V = SpecDiagnostic;

    open spec fn deep_view(&self) -> SpecDiagnostic {
        self.view()
    }
}

impl Clone for Diagnostic {
    fn clone(&self) -> (c: Self)
        ensures
            c@ == self@,
    {
        Diagnostic { kind: self.kind, message: self.message.clone(), position: self.position }
    }
}

/// Several independent diagnostics accumulated into one combined report,
/// rather than only the first being kept.
#[derive(Debug, PartialEq, Eq)]
pub struct ErrorSet {
    pub diagnostics: Vec<Diagnostic>,
}

impl View for ErrorSet {
    type V = Seq<SpecDiagnostic>;

    open spec fn view(&self) -> Seq<SpecDiagnostic> {
        self.diagnostics.deep_view()
    }
}

impl ErrorSet {
    /// An empty set: no error has been found yet.
    pub fn new() -> (r: Self)
        ensures
            r@ =~= Seq::<SpecDiagnostic>::empty(),
    {
        let r = ErrorSet { diagnostics: Vec::new() };
        proof {
            assert(r@ =~= Seq::<SpecDiagnostic>::empty());
        }
        r
    }

    /// A set holding exactly one diagnostic.
    pub fn single(d: Diagnostic) -> (r: Self)
        ensures
            r@ =~= seq![d@],
    {
        let mut v: Vec<Diagnostic> = Vec::new();
        v.push(d);
        let r = ErrorSet { diagnostics: v };
        proof {
            assert(r@ =~= seq![r.diagnostics@[0]@]);
        }
        r
    }

    /// Combine a further diagnostic into the set, keeping the order in
    /// which the errors were found.
    pub fn combine(&mut self, d: Diagnostic)
        ensures
            final(self)@ =~= old(self)@.push(d@),
    {
        self.diagnostics.push(d);
        proof {
            assert(self@ =~= old(self)@.push(d@));
        }
    }

    /// Whether no error has been found.
    pub fn is_empty(&self) -> (r: bool)
        ensures
            r == (self@.len() == 0),
    {
        self.diagnostics.len() == 0
    }
}

} // verus!
