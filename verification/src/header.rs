//! File-level structural rules: the `.class`, `.super`, `.source` and
//! `.implements` declarations. The first three are singletons: a second
//! occurrence is reported as an error paired with a hint at the original.
use vstd::prelude::*;

use crate::diagnostics::{
    diag_views, span_diag, tok_diag, DiagModel, Diagnostic, DiagnosticSeverity,
};
use crate::helper::{clone_tokens, opt_line_view, opt_tok_view, token_content_is};
use crate::lexer::{token_views, Token, TokenModel, TokenType};

verus! {

/// Tracks which singleton header declarations have been seen, the first
/// non-empty line (the anchor for missing-directive reports), and enough of
/// the token stream to detect blank lines.
pub struct HeaderValidator {
    pub top_line: Option<Vec<Token>>,
    pub super_declaration: Option<Vec<Token>>,
    pub class_declaration: Option<Vec<Token>>,
    pub source_declaration: Option<Vec<Token>>,
    pub blank_line: bool,
    pub last_token: Option<Token>,
}

/// Mathematical image of a `HeaderValidator`.
pub ghost struct HeaderModel {
    pub top_line: Option<Seq<TokenModel>>,
    pub super_declaration: Option<Seq<TokenModel>>,
    pub class_declaration: Option<Seq<TokenModel>>,
    pub source_declaration: Option<Seq<TokenModel>>,
    pub blank_line: bool,
    pub last_token: Option<TokenModel>,
}

impl View for HeaderValidator {
    type V = HeaderModel;

    open spec fn view(&self) -> HeaderModel {
        HeaderModel {
            top_line: opt_line_view(self.top_line),
            super_declaration: opt_line_view(self.super_declaration),
            class_declaration: opt_line_view(self.class_declaration),
            source_declaration: opt_line_view(self.source_declaration),
            blank_line: self.blank_line,
            last_token: opt_tok_view(self.last_token),
        }
    }
}

/// Every line a header validator stores is non-empty: lines reach it only
/// through `validate_line`, which requires that.
pub open spec fn header_wf(st: HeaderModel) -> bool {
    &&& (st.top_line is Some ==> st.top_line->0.len() > 0)
    &&& (st.class_declaration is Some ==> st.class_declaration->0.len() > 0)
    &&& (st.super_declaration is Some ==> st.super_declaration->0.len() > 0)
    &&& (st.source_declaration is Some ==> st.source_declaration->0.len() > 0)
}

/// The state a fresh header validator starts in.
pub open spec fn header_init() -> HeaderModel {
    HeaderModel {
        top_line: None,
        super_declaration: None,
        class_declaration: None,
        source_declaration: None,
        blank_line: false,
        last_token: None,
    }
}

/// Per-token bookkeeping: two adjacent newlines mark a blank line, and the
/// last non-space token is remembered. No diagnostics are produced.
pub open spec fn header_token_step(st: HeaderModel, t: TokenModel) -> HeaderModel {
    let blank = if t.token_type == TokenType::NewLine && st.last_token is Some
        && st.last_token->0.token_type == TokenType::NewLine {
        true
    } else {
        st.blank_line
    };
    let last = if t.token_type != TokenType::Space {
        Some(t)
    } else {
        st.last_token
    };
    HeaderModel { blank_line: blank, last_token: last, ..st }
}

/// The fold state of the `.class` line scan after its first `n` tokens.
pub ghost struct ClsAcc {
    pub diags: Seq<DiagModel>,
    pub vsblty: Option<TokenModel>,
    pub finl: Option<TokenModel>,
    pub synth: Option<TokenModel>,
    pub past_name: bool,
}

pub open spec fn cls_step(acc: ClsAcc, t: TokenModel, idx: int) -> ClsAcc {
    if idx == 0 {
        acc
    } else if idx == 1 {
        if t.token_type != TokenType::Space {
            ClsAcc {
                diags: acc.diags + seq![
                    tok_diag(t, "Space expected."@, Some(DiagnosticSeverity::Error)),
                ],
                ..acc
            }
        } else {
            acc
        }
    } else if !acc.past_name {
        if t.token_type == TokenType::Visibility {
            match acc.vsblty {
                Some(v) => ClsAcc {
                    diags: acc.diags + seq![
                        tok_diag(
                            v,
                            "Visibility modifier defined here."@,
                            Some(DiagnosticSeverity::Hint),
                        ),
                        tok_diag(
                            t,
                            "Visibility modifier already defined."@,
                            Some(DiagnosticSeverity::Error),
                        ),
                    ],
                    ..acc
                },
                None => ClsAcc { vsblty: Some(t), ..acc },
            }
        } else if t.token_type == TokenType::Modifier {
            if t.content == "static"@ {
                ClsAcc {
                    diags: acc.diags + seq![
                        tok_diag(
                            t,
                            "Class cannot be defined as static."@,
                            Some(DiagnosticSeverity::Error),
                        ),
                    ],
                    ..acc
                }
            } else if t.content == "final"@ {
                match acc.finl {
                    Some(f) => ClsAcc {
                        diags: acc.diags + seq![
                            tok_diag(
                                f,
                                "Final modifier defined here."@,
                                Some(DiagnosticSeverity::Hint),
                            ),
                            tok_diag(
                                t,
                                "Final modifier already defined."@,
                                Some(DiagnosticSeverity::Error),
                            ),
                        ],
                        ..acc
                    },
                    None => ClsAcc { finl: Some(t), ..acc },
                }
            } else if t.content == "synthetic"@ {
                match acc.synth {
                    Some(sy) => ClsAcc {
                        diags: acc.diags + seq![
                            tok_diag(
                                sy,
                                "Synthetic modifier defined here."@,
                                Some(DiagnosticSeverity::Hint),
                            ),
                            tok_diag(
                                t,
                                "Synthetic modifier already defined."@,
                                Some(DiagnosticSeverity::Error),
                            ),
                        ],
                        ..acc
                    },
                    None => ClsAcc { synth: Some(t), ..acc },
                }
            } else {
                acc
            }
        } else if t.token_type == TokenType::Class {
            ClsAcc { past_name: true, ..acc }
        } else {
            acc
        }
    } else if t.token_type != TokenType::Space {
        ClsAcc {
            diags: acc.diags + seq![
                tok_diag(t, "New line expected."@, Some(DiagnosticSeverity::Error)),
            ],
            ..acc
        }
    } else {
        acc
    }
}

pub open spec fn cls_scan(line: Seq<TokenModel>, n: int) -> ClsAcc
    decreases n,
{
    if n <= 0 {
        ClsAcc { diags: Seq::empty(), vsblty: None, finl: None, synth: None, past_name: false }
    } else {
        cls_step(cls_scan(line, n - 1), line[n - 1], n - 1)
    }
}

/// The diagnostics of a `.class` line: a single space after the directive,
/// at most one visibility modifier, `final` and `synthetic` each at most
/// once, `static` rejected, and nothing but spaces after the class name.
pub open spec fn class_line_diags(line: Seq<TokenModel>) -> Seq<DiagModel> {
    cls_scan(line, line.len() as int).diags
}

/// The expected-usage message of a malformed simple directive line.
pub open spec fn simple_usage_msg(content: Seq<char>) -> Seq<char> {
    "'"@ + content + " "@ + (if content == ".source"@ {
        "\"FileName\""@
    } else {
        "Lclass/Name;"@
    }) + "'"@
}

pub open spec fn simple_step(diags: Seq<DiagModel>, line: Seq<TokenModel>, idx: int) -> Seq<
    DiagModel,
> {
    let t = line[idx];
    if idx == 0 {
        diags
    } else if idx == 1 {
        if t.token_type != TokenType::Space {
            diags + seq![tok_diag(t, "Space expected."@, Some(DiagnosticSeverity::Error))]
        } else {
            diags
        }
    } else if idx == 2 {
        if t.token_type != TokenType::Class && line[0].content != ".source"@ {
            diags + seq![tok_diag(t, "Class expected."@, Some(DiagnosticSeverity::Error))]
        } else if t.token_type != TokenType::String && line[0].content == ".source"@ {
            diags + seq![tok_diag(t, "String expected."@, Some(DiagnosticSeverity::Error))]
        } else {
            diags
        }
    } else {
        diags + seq![tok_diag(t, "New line expected."@, Some(DiagnosticSeverity::Error))]
    }
}

pub open spec fn simple_scan(line: Seq<TokenModel>, n: int) -> Seq<DiagModel>
    decreases n,
{
    if n <= 0 {
        Seq::empty()
    } else {
        simple_step(simple_scan(line, n - 1), line, n - 1)
    }
}

/// The diagnostics of a `.super`, `.source` or `.implements` line: directive,
/// one space, then exactly one class name (a string for `.source`); a shorter
/// line gets a single usage error, extra tokens each get an error.
pub open spec fn simple_line_diags(line: Seq<TokenModel>) -> Seq<DiagModel>
    recommends
        line.len() > 0,
{
    if line.len() < 3 {
        seq![
            span_diag(
                line,
                simple_usage_msg(line[0].content),
                Some(DiagnosticSeverity::Error),
            ),
        ]
    } else {
        simple_scan(line, line.len() as int)
    }
}

/// One line reaches the header validator: singleton directives fill their
/// slot on first sight and report a hint/error pair on a second; the first
/// line seen becomes the anchor for end-of-stream reports.
pub open spec fn header_line_step(st: HeaderModel, line: Seq<TokenModel>) -> (
    HeaderModel,
    Seq<DiagModel>,
)
    recommends
        line.len() > 0,
{
    let sd = if line[0].token_type == TokenType::Directive {
        if line[0].content == ".class"@ {
            match st.class_declaration {
                Some(tokens) => (
                    st,
                    seq![
                        span_diag(tokens, "Class declared here."@, Some(DiagnosticSeverity::Hint)),
                        span_diag(
                            line,
                            "Class already declared."@,
                            Some(DiagnosticSeverity::Error),
                        ),
                    ],
                ),
                None => (
                    HeaderModel { class_declaration: Some(line), ..st },
                    class_line_diags(line),
                ),
            }
        } else if line[0].content == ".super"@ {
            match st.super_declaration {
                Some(tokens) => (
                    st,
                    seq![
                        span_diag(tokens, "Super declared here."@, Some(DiagnosticSeverity::Hint)),
                        span_diag(
                            line,
                            "Super already declared."@,
                            Some(DiagnosticSeverity::Error),
                        ),
                    ],
                ),
                None => (
                    HeaderModel { super_declaration: Some(line), ..st },
                    simple_line_diags(line),
                ),
            }
        } else if line[0].content == ".implements"@ {
            (st, simple_line_diags(line))
        } else if line[0].content == ".source"@ {
            match st.source_declaration {
                Some(tokens) => (
                    st,
                    seq![
                        span_diag(
                            tokens,
                            "Source declared here."@,
                            Some(DiagnosticSeverity::Hint),
                        ),
                        span_diag(
                            line,
                            "Source already declared."@,
                            Some(DiagnosticSeverity::Error),
                        ),
                    ],
                ),
                None => (
                    HeaderModel { source_declaration: Some(line), ..st },
                    simple_line_diags(line),
                ),
            }
        } else {
            (st, Seq::empty())
        }
    } else {
        (st, Seq::empty())
    };
    let st2 = if sd.0.top_line is None {
        HeaderModel { top_line: Some(line), ..sd.0 }
    } else {
        sd.0
    };
    (st2, sd.1)
}

/// End-of-stream reports: if any line was seen but no `.class` or no
/// `.super` was captured, an error for each missing one, anchored at the
/// first line.
pub open spec fn header_end_diags(st: HeaderModel) -> Seq<DiagModel> {
    match st.top_line {
        None => Seq::empty(),
        Some(top) => (if st.class_declaration is None {
            seq![span_diag(top, "Missing class directive."@, Some(DiagnosticSeverity::Error))]
        } else {
            Seq::empty()
        }) + (if st.super_declaration is None {
            seq![
                span_diag(
                    top,
                    "Missing super directive.\nExtend 'Ljava/lang/Object;' by default"@,
                    Some(DiagnosticSeverity::Error),
                ),
            ]
        } else {
            Seq::empty()
        }),
    }
}

impl Default for HeaderValidator {
    fn default() -> (r: Self)
        ensures
            r@ == header_init(),
    {
        Self {
            top_line: None,
            super_declaration: None,
            class_declaration: None,
            source_declaration: None,
            blank_line: false,
            last_token: None,
        }
    }
}

impl HeaderValidator {
    /// Per-token bookkeeping; never reports anything.
    pub fn validate_token(&mut self, token: &Token) -> (d: Vec<Diagnostic>)
        ensures
            final(self)@ == header_token_step(old(self)@, token@),
            d@.len() == 0,
    {
        if token.token_type == TokenType::NewLine {
            if let Some(tkn) = &self.last_token {
                if tkn.token_type == TokenType::NewLine {
                    self.blank_line = true;
                }
            }
        }
        if token.token_type != TokenType::Space {
            self.last_token = Some(token.clone());
        }
        Vec::new()
    }

    /// One assembled line reaches the validator.
    pub fn validate_line(&mut self, line: &[Token]) -> (d: Vec<Diagnostic>)
        requires
            line@.len() > 0,
            header_wf(old(self)@),
        ensures
            header_wf(final(self)@),
            final(self)@ == header_line_step(old(self)@, token_views(line@)).0,
            diag_views(d@) == header_line_step(old(self)@, token_views(line@)).1,
    {
        let ghost gline = token_views(line@);
        let mut diags: Vec<Diagnostic> = Vec::new();
        if line[0].token_type == TokenType::Directive {
            if token_content_is(&line[0], ".class") {
                if let Some(tokens) = &self.class_declaration {
                    diags.push(
                        crate::diagnostics::tokens_to_diagnostic(
                            tokens.as_slice(),
                            "Class declared here.",
                            Some(DiagnosticSeverity::Hint),
                        ),
                    );
                    diags.push(
                        crate::diagnostics::tokens_to_diagnostic(
                            line,
                            "Class already declared.",
                            Some(DiagnosticSeverity::Error),
                        ),
                    );
                } else {
                    let mut ds = validate_class(line);
                    diags.append(&mut ds);
                    self.class_declaration = Some(clone_tokens(line));
                }
            } else if token_content_is(&line[0], ".super") {
                if let Some(tokens) = &self.super_declaration {
                    diags.push(
                        crate::diagnostics::tokens_to_diagnostic(
                            tokens.as_slice(),
                            "Super declared here.",
                            Some(DiagnosticSeverity::Hint),
                        ),
                    );
                    diags.push(
                        crate::diagnostics::tokens_to_diagnostic(
                            line,
                            "Super already declared.",
                            Some(DiagnosticSeverity::Error),
                        ),
                    );
                } else {
                    let mut ds = validate_simple(line);
                    diags.append(&mut ds);
                    self.super_declaration = Some(clone_tokens(line));
                }
            } else if token_content_is(&line[0], ".implements") {
                let mut ds = validate_simple(line);
                diags.append(&mut ds);
            } else if token_content_is(&line[0], ".source") {
                if let Some(tokens) = &self.source_declaration {
                    diags.push(
                        crate::diagnostics::tokens_to_diagnostic(
                            tokens.as_slice(),
                            "Source declared here.",
                            Some(DiagnosticSeverity::Hint),
                        ),
                    );
                    diags.push(
                        crate::diagnostics::tokens_to_diagnostic(
                            line,
                            "Source already declared.",
                            Some(DiagnosticSeverity::Error),
                        ),
                    );
                } else {
                    let mut ds = validate_simple(line);
                    diags.append(&mut ds);
                    self.source_declaration = Some(clone_tokens(line));
                }
            }
        }
        if self.top_line.is_none() {
            self.top_line = Some(clone_tokens(line));
        }
        proof {
            assert(diag_views(diags@) =~= header_line_step(old(self)@, gline).1);
        }
        diags
    }

    /// End-of-stream reports for missing mandatory declarations.
    pub fn validate_end(&self) -> (d: Vec<Diagnostic>)
        requires
            header_wf(self@),
        ensures
            diag_views(d@) == header_end_diags(self@),
    {
        let mut diags: Vec<Diagnostic> = Vec::new();
        if let Some(top_line) = &self.top_line {
            if self.class_declaration.is_none() {
                diags.push(
                    crate::diagnostics::tokens_to_diagnostic(
                        top_line.as_slice(),
                        "Missing class directive.",
                        Some(DiagnosticSeverity::Error),
                    ),
                );
            }
            if self.super_declaration.is_none() {
                diags.push(
                    crate::diagnostics::tokens_to_diagnostic(
                        top_line.as_slice(),
                        "Missing super directive.\nExtend 'Ljava/lang/Object;' by default",
                        Some(DiagnosticSeverity::Error),
                    ),
                );
            }
        }
        proof {
            assert(diag_views(diags@) =~= header_end_diags(self@));
        }
        diags
    }
}

/// Scan a `.class` line for its structural diagnostics.
fn validate_class(line: &[Token]) -> (d: Vec<Diagnostic>)
    ensures
        diag_views(d@) == class_line_diags(token_views(line@)),
{
    let ghost gline = token_views(line@);
    let mut diags: Vec<Diagnostic> = Vec::new();
    let mut vsblty_decl: Option<Token> = None;
    let mut final_decl: Option<Token> = None;
    let mut synthc_decl: Option<Token> = None;
    let mut past_name = false;
    let mut idx: usize = 0;
    while idx < line.len()
        invariant
            idx <= line@.len(),
            gline == token_views(line@),
            diag_views(diags@) =~= cls_scan(gline, idx as int).diags,
            opt_tok_view(vsblty_decl) == cls_scan(gline, idx as int).vsblty,
            opt_tok_view(final_decl) == cls_scan(gline, idx as int).finl,
            opt_tok_view(synthc_decl) == cls_scan(gline, idx as int).synth,
            past_name == cls_scan(gline, idx as int).past_name,
        decreases line@.len() - idx,
    {
        let token = &line[idx];
        let ghost old_d = diags@;
        if idx == 0 {
            // The directive itself.
        } else if idx == 1 {
            if token.token_type != TokenType::Space {
                diags.push(token.to_diagnostic("Space expected.", Some(DiagnosticSeverity::Error)));
            }
        } else if !past_name {
            if token.token_type == TokenType::Visibility {
                if let Some(vsblty_token) = &vsblty_decl {
                    diags.push(
                        vsblty_token.to_diagnostic(
                            "Visibility modifier defined here.",
                            Some(DiagnosticSeverity::Hint),
                        ),
                    );
                    diags.push(
                        token.to_diagnostic(
                            "Visibility modifier already defined.",
                            Some(DiagnosticSeverity::Error),
                        ),
                    );
                } else {
                    vsblty_decl = Some(token.clone());
                }
            } else if token.token_type == TokenType::Modifier {
                if token_content_is(token, "static") {
                    diags.push(
                        token.to_diagnostic(
                            "Class cannot be defined as static.",
                            Some(DiagnosticSeverity::Error),
                        ),
                    );
                } else if token_content_is(token, "final") {
                    if let Some(final_token) = &final_decl {
                        diags.push(
                            final_token.to_diagnostic(
                                "Final modifier defined here.",
                                Some(DiagnosticSeverity::Hint),
                            ),
                        );
                        diags.push(
                            token.to_diagnostic(
                                "Final modifier already defined.",
                                Some(DiagnosticSeverity::Error),
                            ),
                        );
                    } else {
                        final_decl = Some(token.clone());
                    }
                } else if token_content_is(token, "synthetic") {
                    if let Some(synthc_token) = &synthc_decl {
                        diags.push(
                            synthc_token.to_diagnostic(
                                "Synthetic modifier defined here.",
                                Some(DiagnosticSeverity::Hint),
                            ),
                        );
                        diags.push(
                            token.to_diagnostic(
                                "Synthetic modifier already defined.",
                                Some(DiagnosticSeverity::Error),
                            ),
                        );
                    } else {
                        synthc_decl = Some(token.clone());
                    }
                }
            } else if token.token_type == TokenType::Class {
                past_name = true;
            }
        } else if token.token_type != TokenType::Space {
            diags.push(token.to_diagnostic("New line expected.", Some(DiagnosticSeverity::Error)));
        }
        idx = idx + 1;
        proof {
            assert(diag_views(diags@) =~= cls_scan(gline, idx as int).diags);
        }
    }
    diags
}

/// Build the expected-usage message of a malformed simple directive line.
fn simple_usage_message(directive: &Token) -> (r: std::string::String)
    ensures
        r@ == simple_usage_msg(directive@.content),
{
    let mut m = "'".to_owned();
    m.push_str(directive.content.as_str());
    m.push_str(" ");
    if token_content_is(directive, ".source") {
        m.push_str("\"FileName\"");
    } else {
        m.push_str("Lclass/Name;");
    }
    m.push_str("'");
    m
}

/// Scan a `.super`, `.source` or `.implements` line for its structural
/// diagnostics.
fn validate_simple(line: &[Token]) -> (d: Vec<Diagnostic>)
    requires
        line@.len() > 0,
    ensures
        diag_views(d@) == simple_line_diags(token_views(line@)),
{
    let ghost gline = token_views(line@);
    let mut diags: Vec<Diagnostic> = Vec::new();
    if line.len() < 3 {
        let msg = simple_usage_message(&line[0]);
        let first = &line[0];
        let last = &line[line.len() - 1];
        diags.push(
            Diagnostic {
                range: crate::position::TextRange { start: first.range.start, end: last.range.end },
                severity: Some(DiagnosticSeverity::Error),
                message: msg,
            },
        );
        proof {
            assert(diag_views(diags@) =~= simple_line_diags(gline));
        }
        return diags;
    }
    let mut idx: usize = 0;
    while idx < line.len()
        invariant
            idx <= line@.len(),
            3 <= line@.len(),
            gline == token_views(line@),
            diag_views(diags@) =~= simple_scan(gline, idx as int),
        decreases line@.len() - idx,
    {
        let token = &line[idx];
        if idx == 0 {
            // The directive itself.
        } else if idx == 1 {
            if token.token_type != TokenType::Space {
                diags.push(token.to_diagnostic("Space expected.", Some(DiagnosticSeverity::Error)));
            }
        } else if idx == 2 {
            if token.token_type != TokenType::Class && !token_content_is(&line[0], ".source") {
                diags.push(token.to_diagnostic("Class expected.", Some(DiagnosticSeverity::Error)));
            } else if token.token_type != TokenType::String && token_content_is(
                &line[0],
                ".source",
            ) {
                diags.push(
                    token.to_diagnostic("String expected.", Some(DiagnosticSeverity::Error)),
                );
            }
        } else {
            diags.push(token.to_diagnostic("New line expected.", Some(DiagnosticSeverity::Error)));
        }
        idx = idx + 1;
        proof {
            assert(diag_views(diags@) =~= simple_scan(gline, idx as int));
        }
    }
    diags
}

} // verus!
