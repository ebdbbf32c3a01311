//! Diagnostics: a reported issue with a source span, a severity, and a
//! message.
use vstd::prelude::*;

use crate::lexer::{Token, TokenModel};
use crate::position::{RangeModel, TextRange};

verus! {

/// How severe a diagnostic is. Hints cross-reference an original declaration
/// beside the error reported at a conflicting duplicate.
#[derive(Clone, Copy, Debug, PartialEq, Eq, Structural)]
pub enum DiagnosticSeverity {
    Error,
    Warning,
    Information,
    Hint,
}

/// A diagnostic, immutable once produced.
#[derive(Clone, Debug, PartialEq)]
pub struct Diagnostic {
    pub range: TextRange,
    pub severity: Option<DiagnosticSeverity>,
    pub message: std::string::String,
}

/// Mathematical image of a `Diagnostic`.
pub ghost struct DiagModel {
    pub range: RangeModel,
    pub severity: Option<DiagnosticSeverity>,
    pub message: Seq<char>,
}

impl View for Diagnostic {
    type V = DiagModel;

    open spec fn view(&self) -> DiagModel {
        DiagModel { range: self.range@, severity: self.severity, message: self.message@ }
    }
}

/// The views of a sequence of diagnostics.
pub open spec fn diag_views(ds: Seq<Diagnostic>) -> Seq<DiagModel> {
    ds.map(|j: int, d: Diagnostic| d@)
}

/// A diagnostic anchored at one token.
pub open spec fn tok_diag(t: TokenModel, msg: Seq<char>, severity: Option<
    DiagnosticSeverity,
>) -> DiagModel {
    DiagModel { range: t.range, severity, message: msg }
}

/// A diagnostic spanning a whole run of tokens, from the start of the first
/// to the end of the last.
pub open spec fn span_diag(line: Seq<TokenModel>, msg: Seq<char>, severity: Option<
    DiagnosticSeverity,
>) -> DiagModel
    recommends
        line.len() > 0,
{
    DiagModel {
        range: RangeModel { start: line[0].range.start, end: line[line.len() - 1].range.end },
        severity,
        message: msg,
    }
}

impl Token {
    /// A diagnostic anchored at this token's span.
    pub fn to_diagnostic(&self, message: &str, severity: Option<DiagnosticSeverity>) -> (r:
        Diagnostic)
        ensures
            r@ == tok_diag(self@, message@, severity),
    {
        Diagnostic { range: self.range, severity, message: message.to_owned() }
    }
}

/// A diagnostic spanning the given tokens, from the start of the first to the
/// end of the last.
pub fn tokens_to_diagnostic(tokens: &[Token], message: &str, severity: Option<
    DiagnosticSeverity,
>) -> (r: Diagnostic)
    requires
        tokens@.len() > 0,
    ensures
        r@ == span_diag(crate::lexer::token_views(tokens@), message@, severity),
{
    let first = &tokens[0];
    let last = &tokens[tokens.len() - 1];
    Diagnostic {
        range: TextRange { start: first.range.start, end: last.range.end },
        severity,
        message: message.to_owned(),
    }
}

} // verus!
