//! Method-block structural rules: declaration shape, illegal nesting,
//! constructor naming conventions, file-scoped constructor uniqueness, and
//! return-instruction consistency.
use vstd::prelude::*;

use crate::diagnostics::{
    diag_views, span_diag, tok_diag, tokens_to_diagnostic, DiagModel, Diagnostic,
    DiagnosticSeverity,
};
use crate::helper::{clone_tokens, token_content_is};
use crate::lexer::{token_views, Token, TokenModel, TokenType};

verus! {

/// The return kind captured from a method declaration: unknown when the
/// declaration was malformed, `V` mapping to `Void`, any other builtin kept
/// by name, and class return types kept by descriptor.
pub enum ReturnType {
    Unknown,
    Void,
    Builtin(std::string::String),
    Object(std::string::String),
}

/// Mathematical image of a `ReturnType`.
pub ghost enum RetModel {
    Unknown,
    Void,
    Builtin(Seq<char>),
    Object(Seq<char>),
}

impl View for ReturnType {
    type V = RetModel;

    open spec fn view(&self) -> RetModel {
        match self {
            ReturnType::Unknown => RetModel::Unknown,
            ReturnType::Void => RetModel::Void,
            ReturnType::Builtin(s) => RetModel::Builtin(s@),
            ReturnType::Object(s) => RetModel::Object(s@),
        }
    }
}

/// A tracked method declaration: whether its block is still open, whether a
/// return instruction was seen inside it, its declaration line, and the
/// declared return kind.
pub struct MethodDeclaration {
    pub is_start: bool,
    pub found_return: bool,
    pub tokens: Vec<Token>,
    pub return_type: ReturnType,
}

/// Mathematical image of a `MethodDeclaration`.
pub ghost struct MethodDeclModel {
    pub is_start: bool,
    pub found_return: bool,
    pub tokens: Seq<TokenModel>,
    pub return_type: RetModel,
}

impl View for MethodDeclaration {
    type V = MethodDeclModel;

    open spec fn view(&self) -> MethodDeclModel {
        MethodDeclModel {
            is_start: self.is_start,
            found_return: self.found_return,
            tokens: token_views(self.tokens@),
            return_type: self.return_type@,
        }
    }
}

pub open spec fn opt_decl_view(o: Option<MethodDeclaration>) -> Option<MethodDeclModel> {
    match o {
        Some(d) => Some(d@),
        None => None,
    }
}

/// At most one method block is tracked at a time; the two constructor slots
/// remember whether a static and an instance constructor were already
/// declared anywhere in the file.
pub struct MethodValidator {
    pub method_decl: Option<MethodDeclaration>,
    pub constructor_static: Option<MethodDeclaration>,
    pub constructor_virtual: Option<MethodDeclaration>,
}

/// Mathematical image of a `MethodValidator`.
pub ghost struct MethodVModel {
    pub method_decl: Option<MethodDeclModel>,
    pub constructor_static: Option<MethodDeclModel>,
    pub constructor_virtual: Option<MethodDeclModel>,
}

impl View for MethodValidator {
    type V = MethodVModel;

    open spec fn view(&self) -> MethodVModel {
        MethodVModel {
            method_decl: opt_decl_view(self.method_decl),
            constructor_static: opt_decl_view(self.constructor_static),
            constructor_virtual: opt_decl_view(self.constructor_virtual),
        }
    }
}

/// Every declaration a method validator stores covers a non-empty line.
pub open spec fn method_wf(st: MethodVModel) -> bool {
    &&& (st.method_decl is Some ==> st.method_decl->0.tokens.len() > 0)
    &&& (st.constructor_static is Some ==> st.constructor_static->0.tokens.len() > 0)
    &&& (st.constructor_virtual is Some ==> st.constructor_virtual->0.tokens.len() > 0)
}

/// The state a fresh method validator starts in.
pub open spec fn method_init() -> MethodVModel {
    MethodVModel { method_decl: None, constructor_static: None, constructor_virtual: None }
}

/// A return instruction reaches the validator: it marks the tracked block as
/// returning and cross-checks the instruction against the declared return
/// kind. `Void` demands exactly `return-void`, a class return type exactly
/// `return-object`; other builtin kinds are not cross-checked.
pub open spec fn method_token_step(st: MethodVModel, t: TokenModel) -> (
    MethodVModel,
    Seq<DiagModel>,
)
    recommends
        st.method_decl is Some ==> st.method_decl->0.tokens.len() > 0,
{
    if t.token_type == TokenType::Return {
        match st.method_decl {
            Some(m) => {
                let st2 = MethodVModel {
                    method_decl: Some(MethodDeclModel { found_return: true, ..m }),
                    ..st
                };
                let diags = match m.return_type {
                    RetModel::Unknown => seq![
                        tok_diag(
                            t,
                            "Unable to get return type from method declaration."@,
                            Some(DiagnosticSeverity::Information),
                        ),
                    ],
                    RetModel::Void => if t.content != "return-void"@ {
                        seq![
                            tok_diag(
                                m.tokens.last(),
                                "Return type declared here."@,
                                Some(DiagnosticSeverity::Hint),
                            ),
                            tok_diag(
                                t,
                                "'return-void' expected."@,
                                Some(DiagnosticSeverity::Error),
                            ),
                        ]
                    } else {
                        Seq::empty()
                    },
                    RetModel::Object(_) => if t.content != "return-object"@ {
                        seq![
                            tok_diag(
                                m.tokens.last(),
                                "Return type declared here."@,
                                Some(DiagnosticSeverity::Hint),
                            ),
                            tok_diag(
                                t,
                                "'return-object' expected."@,
                                Some(DiagnosticSeverity::Error),
                            ),
                        ]
                    } else {
                        Seq::empty()
                    },
                    RetModel::Builtin(_) => Seq::empty(),
                };
                (st2, diags)
            },
            None => (st, Seq::empty()),
        }
    } else {
        (st, Seq::empty())
    }
}

/// The scanning stage of a `.method` declaration line.
#[derive(Clone, Copy, Debug, PartialEq, Eq, Structural)]
pub enum MethodDeclarationStage {
    Modifiers,
    Params,
    ReturnType,
}

/// The fold state of the `.method` declaration line scan.
pub ghost struct DeclAcc {
    pub diags: Seq<DiagModel>,
    pub ret: RetModel,
    pub vsblty: Option<TokenModel>,
    pub statc: Option<TokenModel>,
    pub finl: Option<TokenModel>,
    pub constr: Option<TokenModel>,
    pub stage: MethodDeclarationStage,
    pub has_ret: bool,
    pub was_space: bool,
}

pub open spec fn decl_init() -> DeclAcc {
    DeclAcc {
        diags: Seq::empty(),
        ret: RetModel::Unknown,
        vsblty: None,
        statc: None,
        finl: None,
        constr: None,
        stage: MethodDeclarationStage::Modifiers,
        has_ret: false,
        was_space: false,
    }
}

/// One token of a `.method` declaration line advances the scan.
pub open spec fn decl_step(acc: DeclAcc, t: TokenModel, idx: int) -> DeclAcc {
    if idx == 0 {
        acc
    } else {
        let mid = if acc.stage == MethodDeclarationStage::Modifiers {
            if !acc.was_space && t.token_type != TokenType::Space {
                DeclAcc {
                    diags: acc.diags + seq![
                        tok_diag(t, "Space expected."@, Some(DiagnosticSeverity::Error)),
                    ],
                    ..acc
                }
            } else if t.token_type == TokenType::Visibility {
                match acc.vsblty {
                    Some(v) => DeclAcc {
                        diags: acc.diags + seq![
                            tok_diag(
                                v,
                                "Visibility modifier declared here."@,
                                Some(DiagnosticSeverity::Hint),
                            ),
                            tok_diag(
                                t,
                                "Visibility modifier already declared."@,
                                Some(DiagnosticSeverity::Error),
                            ),
                        ],
                        ..acc
                    },
                    None => DeclAcc { vsblty: Some(t), ..acc },
                }
            } else if t.token_type == TokenType::Modifier {
                if t.content == "constructor"@ {
                    match acc.constr {
                        Some(c) => DeclAcc {
                            diags: acc.diags + seq![
                                tok_diag(
                                    c,
                                    "Constuctor modifier declared here."@,
                                    Some(DiagnosticSeverity::Hint),
                                ),
                                tok_diag(
                                    t,
                                    "Constuctor modifier already declared."@,
                                    Some(DiagnosticSeverity::Error),
                                ),
                            ],
                            ..acc
                        },
                        None => DeclAcc { constr: Some(t), ..acc },
                    }
                } else if t.content == "final"@ {
                    match acc.finl {
                        Some(f) => DeclAcc {
                            diags: acc.diags + seq![
                                tok_diag(
                                    f,
                                    "Final modifier declared here."@,
                                    Some(DiagnosticSeverity::Hint),
                                ),
                                tok_diag(
                                    t,
                                    "Final modifier already declared."@,
                                    Some(DiagnosticSeverity::Error),
                                ),
                            ],
                            ..acc
                        },
                        None => DeclAcc { finl: Some(t), ..acc },
                    }
                } else if t.content == "static"@ {
                    match acc.statc {
                        Some(s) => DeclAcc {
                            diags: acc.diags + seq![
                                tok_diag(
                                    s,
                                    "Static modifier declared here."@,
                                    Some(DiagnosticSeverity::Hint),
                                ),
                                tok_diag(
                                    t,
                                    "Static modifier already declared."@,
                                    Some(DiagnosticSeverity::Error),
                                ),
                            ],
                            ..acc
                        },
                        None => DeclAcc { statc: Some(t), ..acc },
                    }
                } else {
                    acc
                }
            } else if t.token_type == TokenType::MethodName {
                let named = if acc.constr is Some {
                    if acc.statc is Some {
                        if t.content != "<clinit>("@ {
                            DeclAcc {
                                diags: acc.diags + seq![
                                    tok_diag(
                                        acc.constr->0,
                                        "Constuctor modifier declared here."@,
                                        Some(DiagnosticSeverity::Error),
                                    ),
                                    tok_diag(
                                        acc.statc->0,
                                        "Static modifier declared here."@,
                                        Some(DiagnosticSeverity::Error),
                                    ),
                                    tok_diag(
                                        t,
                                        "Static constuctor must be named '<clinit>'."@,
                                        Some(DiagnosticSeverity::Error),
                                    ),
                                ],
                                ..acc
                            }
                        } else {
                            acc
                        }
                    } else if t.content != "<init>("@ {
                        DeclAcc {
                            diags: acc.diags + seq![
                                tok_diag(
                                    acc.constr->0,
                                    "Constuctor modifier declared here."@,
                                    Some(DiagnosticSeverity::Error),
                                ),
                                tok_diag(
                                    t,
                                    "Non-static constuctor must be named '<init>'."@,
                                    Some(DiagnosticSeverity::Error),
                                ),
                            ],
                            ..acc
                        }
                    } else {
                        acc
                    }
                } else if t.content == "<init>("@ {
                    DeclAcc {
                        diags: acc.diags + seq![
                            tok_diag(
                                t,
                                "'<init>' is reserved for nonstatic constructors."@,
                                Some(DiagnosticSeverity::Error),
                            ),
                        ],
                        ..acc
                    }
                } else if t.content == "<clinit>("@ {
                    DeclAcc {
                        diags: acc.diags + seq![
                            tok_diag(
                                t,
                                "'<clinit>' is reserved for static constructors."@,
                                Some(DiagnosticSeverity::Error),
                            ),
                        ],
                        ..acc
                    }
                } else {
                    acc
                };
                DeclAcc { stage: MethodDeclarationStage::Params, ..named }
            } else if t.token_type == TokenType::Space {
                acc
            } else {
                DeclAcc {
                    diags: acc.diags + seq![
                        tok_diag(
                            t,
                            "Method modifier expected."@,
                            Some(DiagnosticSeverity::Error),
                        ),
                    ],
                    ..acc
                }
            }
        } else if acc.stage == MethodDeclarationStage::Params {
            if t.token_type == TokenType::BuiltinType || t.token_type == TokenType::Class {
                acc
            } else if t.content == ")"@ {
                DeclAcc { stage: MethodDeclarationStage::ReturnType, ..acc }
            } else {
                DeclAcc {
                    diags: acc.diags + seq![
                        tok_diag(t, "')' expected."@, Some(DiagnosticSeverity::Error)),
                    ],
                    ..acc
                }
            }
        } else {
            if acc.has_ret {
                if t.token_type != TokenType::Space {
                    DeclAcc {
                        diags: acc.diags + seq![
                            tok_diag(t, "New line expected."@, Some(DiagnosticSeverity::Error)),
                        ],
                        ..acc
                    }
                } else {
                    acc
                }
            } else if t.token_type == TokenType::BuiltinType {
                DeclAcc {
                    has_ret: true,
                    ret: if t.content == "V"@ {
                        RetModel::Void
                    } else {
                        RetModel::Builtin(t.content)
                    },
                    ..acc
                }
            } else if t.token_type == TokenType::Class {
                DeclAcc { has_ret: true, ret: RetModel::Object(t.content), ..acc }
            } else {
                DeclAcc {
                    diags: acc.diags + seq![
                        tok_diag(
                            t,
                            "Return type expected.\n'V' for void."@,
                            Some(DiagnosticSeverity::Error),
                        ),
                    ],
                    ..acc
                }
            }
        };
        DeclAcc { was_space: t.token_type == TokenType::Space, ..mid }
    }
}

pub open spec fn decl_scan(line: Seq<TokenModel>, n: int) -> DeclAcc
    decreases n,
{
    if n <= 0 {
        decl_init()
    } else {
        decl_step(decl_scan(line, n - 1), line[n - 1], n - 1)
    }
}

/// After the scan, file-scoped constructor uniqueness: at most one static and
/// one instance constructor may be declared across the whole document.
pub open spec fn decl_post(st: MethodVModel, line: Seq<TokenModel>, acc: DeclAcc) -> (
    MethodVModel,
    Seq<DiagModel>,
)
    recommends
        method_wf(st),
        line.len() > 0,
{
    if acc.constr is Some {
        if acc.statc is Some {
            match st.constructor_static {
                Some(cs) => (
                    st,
                    seq![
                        span_diag(
                            cs.tokens,
                            "Static constuctor defined here."@,
                            Some(DiagnosticSeverity::Hint),
                        ),
                        span_diag(
                            line,
                            "Static constuctor already defined."@,
                            Some(DiagnosticSeverity::Error),
                        ),
                    ],
                ),
                None => (
                    MethodVModel {
                        constructor_static: Some(
                            MethodDeclModel {
                                is_start: true,
                                found_return: true,
                                tokens: line,
                                return_type: RetModel::Void,
                            },
                        ),
                        ..st
                    },
                    Seq::empty(),
                ),
            }
        } else {
            match st.constructor_virtual {
                Some(cv) => (
                    st,
                    seq![
                        span_diag(
                            cv.tokens,
                            "Constuctor defined here."@,
                            Some(DiagnosticSeverity::Hint),
                        ),
                        span_diag(
                            line,
                            "Constuctor already defined."@,
                            Some(DiagnosticSeverity::Error),
                        ),
                    ],
                ),
                None => (
                    MethodVModel {
                        constructor_virtual: Some(
                            MethodDeclModel {
                                is_start: true,
                                found_return: true,
                                tokens: line,
                                return_type: RetModel::Void,
                            },
                        ),
                        ..st
                    },
                    Seq::empty(),
                ),
            }
        }
    } else {
        (st, Seq::empty())
    }
}

/// A whole `.method` declaration line: the three-stage scan, then the
/// constructor uniqueness bookkeeping. Yields the new state, the line's
/// diagnostics, and the captured return kind.
pub open spec fn method_decl_line(st: MethodVModel, line: Seq<TokenModel>) -> (
    MethodVModel,
    Seq<DiagModel>,
    RetModel,
)
    recommends
        method_wf(st),
        line.len() > 0,
{
    let acc = decl_scan(line, line.len() as int);
    let post = decl_post(st, line, acc);
    (post.0, acc.diags + post.1, acc.ret)
}

/// A line starting with a method marker reaches the validator. A `.method`
/// line inside an open block is an error paired with a hint at the block's
/// start, and its own declaration diagnostics are withheld; an `.end method`
/// line outside an open block is an error; closing a block that never saw a
/// return instruction reports it.
pub open spec fn method_line_step(st: MethodVModel, line: Seq<TokenModel>) -> (
    MethodVModel,
    Seq<DiagModel>,
)
    recommends
        method_wf(st),
        line.len() > 0,
{
    if line[0].token_type != TokenType::Method {
        (st, Seq::empty())
    } else if line[0].content == ".method"@ {
        let decl = method_decl_line(st, line);
        let nested = st.method_decl is Some && st.method_decl->0.is_start;
        let diags = if nested {
            seq![
                span_diag(
                    st.method_decl->0.tokens,
                    "Method block starts here."@,
                    Some(DiagnosticSeverity::Hint),
                ),
                span_diag(
                    line,
                    "'.method' directive cannot be inside a method block."@,
                    Some(DiagnosticSeverity::Error),
                ),
            ]
        } else {
            decl.1
        };
        (
            MethodVModel {
                method_decl: Some(
                    MethodDeclModel {
                        is_start: true,
                        found_return: false,
                        tokens: line,
                        return_type: decl.2,
                    },
                ),
                ..decl.0
            },
            diags,
        )
    } else {
        match st.method_decl {
            Some(m) => if !m.is_start {
                (
                    st,
                    seq![
                        span_diag(
                            m.tokens,
                            "Method block ends here."@,
                            Some(DiagnosticSeverity::Hint),
                        ),
                        span_diag(
                            line,
                            "'.end method' directive must be at the end of a method block."@,
                            Some(DiagnosticSeverity::Error),
                        ),
                    ],
                )
            } else {
                let diags = if !m.found_return {
                    seq![
                        span_diag(
                            m.tokens,
                            "No return instruction found in method block."@,
                            Some(DiagnosticSeverity::Error),
                        ),
                    ]
                } else {
                    Seq::empty()
                };
                (
                    MethodVModel {
                        method_decl: Some(
                            MethodDeclModel {
                                is_start: false,
                                found_return: false,
                                tokens: line,
                                return_type: RetModel::Unknown,
                            },
                        ),
                        ..st
                    },
                    diags,
                )
            },
            None => (
                st,
                seq![
                    span_diag(
                        line,
                        "'.end method' directive must be at the end of a method block."@,
                        Some(DiagnosticSeverity::Error),
                    ),
                ],
            ),
        }
    }
}

impl Default for MethodValidator {
    fn default() -> (r: Self)
        ensures
            r@ == method_init(),
    {
        Self { method_decl: None, constructor_static: None, constructor_virtual: None }
    }
}

impl MethodValidator {
    /// Per-token validation: only return instructions are of interest.
    pub fn validate_token(&mut self, token: &Token) -> (d: Vec<Diagnostic>)
        requires
            method_wf(old(self)@),
        ensures
            method_wf(final(self)@),
            final(self)@ == method_token_step(old(self)@, token@).0,
            diag_views(d@) == method_token_step(old(self)@, token@).1,
    {
        if token.token_type == TokenType::Return {
            validate_method_token(token, self)
        } else {
            proof {
                assert(diag_views(Seq::<Diagnostic>::empty()) =~= Seq::<DiagModel>::empty());
            }
            Vec::new()
        }
    }

    /// Per-line validation: only lines starting with a method marker are of
    /// interest.
    pub fn validate_line(&mut self, line: &[Token]) -> (d: Vec<Diagnostic>)
        requires
            line@.len() > 0,
            method_wf(old(self)@),
        ensures
            method_wf(final(self)@),
            final(self)@ == method_line_step(old(self)@, token_views(line@)).0,
            diag_views(d@) == method_line_step(old(self)@, token_views(line@)).1,
    {
        if line[0].token_type == TokenType::Method {
            validate_method_declaration(line, self)
        } else {
            proof {
                assert(diag_views(Seq::<Diagnostic>::empty()) =~= Seq::<DiagModel>::empty());
            }
            Vec::new()
        }
    }

    /// The method validator has no end-of-stream reports.
    pub fn validate_end(&self) -> (d: Vec<Diagnostic>)
        ensures
            d@.len() == 0,
    {
        Vec::new()
    }
}

/// Cross-check a return instruction against the tracked declaration.
fn validate_method_token(token: &Token, validator: &mut MethodValidator) -> (d: Vec<Diagnostic>)
    requires
        token@.token_type == TokenType::Return,
        method_wf(old(validator)@),
    ensures
        method_wf(final(validator)@),
        final(validator)@ == method_token_step(old(validator)@, token@).0,
        diag_views(d@) == method_token_step(old(validator)@, token@).1,
{
    let mut diags: Vec<Diagnostic> = Vec::new();
    match &mut validator.method_decl {
        Some(method) => {
            method.found_return = true;
            match &method.return_type {
                ReturnType::Unknown => {
                    diags.push(
                        token.to_diagnostic(
                            "Unable to get return type from method declaration.",
                            Some(DiagnosticSeverity::Information),
                        ),
                    );
                },
                ReturnType::Void => {
                    if !token_content_is(token, "return-void") {
                        diags.push(
                            method.tokens[method.tokens.len() - 1].to_diagnostic(
                                "Return type declared here.",
                                Some(DiagnosticSeverity::Hint),
                            ),
                        );
                        diags.push(
                            token.to_diagnostic(
                                "'return-void' expected.",
                                Some(DiagnosticSeverity::Error),
                            ),
                        );
                    }
                },
                ReturnType::Object(_) => {
                    if !token_content_is(token, "return-object") {
                        diags.push(
                            method.tokens[method.tokens.len() - 1].to_diagnostic(
                                "Return type declared here.",
                                Some(DiagnosticSeverity::Hint),
                            ),
                        );
                        diags.push(
                            token.to_diagnostic(
                                "'return-object' expected.",
                                Some(DiagnosticSeverity::Error),
                            ),
                        );
                    }
                },
                ReturnType::Builtin(_) => {},
            }
        },
        None => {},
    }
    proof {
        assert(diag_views(diags@) =~= method_token_step(old(validator)@, token@).1);
    }
    diags
}

/// Handle a `.method` or `.end method` line.
fn validate_method_declaration(line: &[Token], validator: &mut MethodValidator) -> (d: Vec<
    Diagnostic,
>)
    requires
        line@.len() > 0,
        line@[0]@.token_type == TokenType::Method,
        method_wf(old(validator)@),
    ensures
        method_wf(final(validator)@),
        final(validator)@ == method_line_step(old(validator)@, token_views(line@)).0,
        diag_views(d@) == method_line_step(old(validator)@, token_views(line@)).1,
{
    let ghost gline = token_views(line@);
    let mut diags: Vec<Diagnostic> = Vec::new();
    if token_content_is(&line[0], ".method") {
        let mut decl = validate_method_declaration_line(line, validator);
        let mut valid_placement = true;
        if let Some(method) = &validator.method_decl {
            if method.is_start {
                diags.push(
                    tokens_to_diagnostic(
                        method.tokens.as_slice(),
                        "Method block starts here.",
                        Some(DiagnosticSeverity::Hint),
                    ),
                );
                diags.push(
                    tokens_to_diagnostic(
                        line,
                        "'.method' directive cannot be inside a method block.",
                        Some(DiagnosticSeverity::Error),
                    ),
                );
                valid_placement = false;
            }
        }
        if valid_placement {
            diags.append(&mut decl.0);
        }
        validator.method_decl = Some(
            MethodDeclaration {
                is_start: true,
                found_return: false,
                tokens: clone_tokens(line),
                return_type: decl.1,
            },
        );
        proof {
            assert(diag_views(diags@) =~= method_line_step(old(validator)@, gline).1);
        }
        diags
    } else {
        match &validator.method_decl {
            Some(method) => {
                if !method.is_start {
                    diags.push(
                        tokens_to_diagnostic(
                            method.tokens.as_slice(),
                            "Method block ends here.",
                            Some(DiagnosticSeverity::Hint),
                        ),
                    );
                    diags.push(
                        tokens_to_diagnostic(
                            line,
                            "'.end method' directive must be at the end of a method block.",
                            Some(DiagnosticSeverity::Error),
                        ),
                    );
                } else {
                    if !method.found_return {
                        diags.push(
                            tokens_to_diagnostic(
                                method.tokens.as_slice(),
                                "No return instruction found in method block.",
                                Some(DiagnosticSeverity::Error),
                            ),
                        );
                    }
                    validator.method_decl = Some(
                        MethodDeclaration {
                            is_start: false,
                            found_return: false,
                            tokens: clone_tokens(line),
                            return_type: ReturnType::Unknown,
                        },
                    );
                }
            },
            None => {
                diags.push(
                    tokens_to_diagnostic(
                        line,
                        "'.end method' directive must be at the end of a method block.",
                        Some(DiagnosticSeverity::Error),
                    ),
                );
            },
        }
        proof {
            assert(diag_views(diags@) =~= method_line_step(old(validator)@, gline).1);
        }
        diags
    }
}

/// Scan a `.method` declaration line: modifiers with their spacing and
/// duplication rules and the constructor naming convention, then parameters
/// up to the closing parenthesis, then exactly one return type.
fn validate_method_declaration_line(line: &[Token], validator: &mut MethodValidator) -> (r: (
    Vec<Diagnostic>,
    ReturnType,
))
    requires
        line@.len() > 0,
        method_wf(old(validator)@),
    ensures
        method_wf(final(validator)@),
        final(validator)@ == method_decl_line(old(validator)@, token_views(line@)).0,
        diag_views(r.0@) == method_decl_line(old(validator)@, token_views(line@)).1,
        r.1@ == method_decl_line(old(validator)@, token_views(line@)).2,
{
    let ghost gline = token_views(line@);
    let mut diags: Vec<Diagnostic> = Vec::new();
    let mut return_type = ReturnType::Unknown;
    let mut vsblty_decl: Option<Token> = None;
    let mut static_decl: Option<Token> = None;
    let mut final_decl: Option<Token> = None;
    let mut const_decl: Option<Token> = None;
    let mut stage = MethodDeclarationStage::Modifiers;
    let mut has_return_type = false;
    let mut was_space = false;
    let mut idx: usize = 0;
    while idx < line.len()
        invariant
            idx <= line@.len(),
            gline == token_views(line@),
            diag_views(diags@) =~= decl_scan(gline, idx as int).diags,
            return_type@ == decl_scan(gline, idx as int).ret,
            crate::helper::opt_tok_view(vsblty_decl) == decl_scan(gline, idx as int).vsblty,
            crate::helper::opt_tok_view(static_decl) == decl_scan(gline, idx as int).statc,
            crate::helper::opt_tok_view(final_decl) == decl_scan(gline, idx as int).finl,
            crate::helper::opt_tok_view(const_decl) == decl_scan(gline, idx as int).constr,
            stage == decl_scan(gline, idx as int).stage,
            has_return_type == decl_scan(gline, idx as int).has_ret,
            was_space == decl_scan(gline, idx as int).was_space,
        decreases line@.len() - idx,
    {
        let token = &line[idx];
        if idx > 0 {
            if stage == MethodDeclarationStage::Modifiers {
                if !was_space && token.token_type != TokenType::Space {
                    diags.push(
                        token.to_diagnostic("Space expected.", Some(DiagnosticSeverity::Error)),
                    );
                } else if token.token_type == TokenType::Visibility {
                    if let Some(visibility_token) = &vsblty_decl {
                        diags.push(
                            visibility_token.to_diagnostic(
                                "Visibility modifier declared here.",
                                Some(DiagnosticSeverity::Hint),
                            ),
                        );
                        diags.push(
                            token.to_diagnostic(
                                "Visibility modifier already declared.",
                                Some(DiagnosticSeverity::Error),
                            ),
                        );
                    } else {
                        vsblty_decl = Some(token.clone());
                    }
                } else if token.token_type == TokenType::Modifier {
                    if token_content_is(token, "constructor") {
                        if let Some(constructor_token) = &const_decl {
                            diags.push(
                                constructor_token.to_diagnostic(
                                    "Constuctor modifier declared here.",
                                    Some(DiagnosticSeverity::Hint),
                                ),
                            );
                            diags.push(
                                token.to_diagnostic(
                                    "Constuctor modifier already declared.",
                                    Some(DiagnosticSeverity::Error),
                                ),
                            );
                        } else {
                            const_decl = Some(token.clone());
                        }
                    } else if token_content_is(token, "final") {
                        if let Some(final_token) = &final_decl {
                            diags.push(
                                final_token.to_diagnostic(
                                    "Final modifier declared here.",
                                    Some(DiagnosticSeverity::Hint),
                                ),
                            );
                            diags.push(
                                token.to_diagnostic(
                                    "Final modifier already declared.",
                                    Some(DiagnosticSeverity::Error),
                                ),
                            );
                        } else {
                            final_decl = Some(token.clone());
                        }
                    } else if token_content_is(token, "static") {
                        if let Some(static_token) = &static_decl {
                            diags.push(
                                static_token.to_diagnostic(
                                    "Static modifier declared here.",
                                    Some(DiagnosticSeverity::Hint),
                                ),
                            );
                            diags.push(
                                token.to_diagnostic(
                                    "Static modifier already declared.",
                                    Some(DiagnosticSeverity::Error),
                                ),
                            );
                        } else {
                            static_decl = Some(token.clone());
                        }
                    }
                } else if token.token_type == TokenType::MethodName {
                    if let Some(constructor_token) = &const_decl {
                        if let Some(static_token) = &static_decl {
                            if !token_content_is(token, "<clinit>(") {
                                diags.push(
                                    constructor_token.to_diagnostic(
                                        "Constuctor modifier declared here.",
                                        Some(DiagnosticSeverity::Error),
                                    ),
                                );
                                diags.push(
                                    static_token.to_diagnostic(
                                        "Static modifier declared here.",
                                        Some(DiagnosticSeverity::Error),
                                    ),
                                );
                                diags.push(
                                    token.to_diagnostic(
                                        "Static constuctor must be named '<clinit>'.",
                                        Some(DiagnosticSeverity::Error),
                                    ),
                                );
                            }
                        } else if !token_content_is(token, "<init>(") {
                            diags.push(
                                constructor_token.to_diagnostic(
                                    "Constuctor modifier declared here.",
                                    Some(DiagnosticSeverity::Error),
                                ),
                            );
                            diags.push(
                                token.to_diagnostic(
                                    "Non-static constuctor must be named '<init>'.",
                                    Some(DiagnosticSeverity::Error),
                                ),
                            );
                        }
                    } else if token_content_is(token, "<init>(") {
                        diags.push(
                            token.to_diagnostic(
                                "'<init>' is reserved for nonstatic constructors.",
                                Some(DiagnosticSeverity::Error),
                            ),
                        );
                    } else if token_content_is(token, "<clinit>(") {
                        diags.push(
                            token.to_diagnostic(
                                "'<clinit>' is reserved for static constructors.",
                                Some(DiagnosticSeverity::Error),
                            ),
                        );
                    }
                    stage = MethodDeclarationStage::Params;
                } else if token.token_type == TokenType::Space {
                    // Spacing between modifiers.
                } else {
                    diags.push(
                        token.to_diagnostic(
                            "Method modifier expected.",
                            Some(DiagnosticSeverity::Error),
                        ),
                    );
                }
            } else if stage == MethodDeclarationStage::Params {
                if token.token_type == TokenType::BuiltinType || token.token_type
                    == TokenType::Class {
                    // A parameter type.
                } else if token_content_is(token, ")") {
                    stage = MethodDeclarationStage::ReturnType;
                } else {
                    diags.push(
                        token.to_diagnostic("')' expected.", Some(DiagnosticSeverity::Error)),
                    );
                }
            } else {
                if has_return_type {
                    if token.token_type != TokenType::Space {
                        diags.push(
                            token.to_diagnostic(
                                "New line expected.",
                                Some(DiagnosticSeverity::Error),
                            ),
                        );
                    }
                } else if token.token_type == TokenType::BuiltinType {
                    has_return_type = true;
                    return_type = if token_content_is(token, "V") {
                        ReturnType::Void
                    } else {
                        ReturnType::Builtin(token.content.clone())
                    };
                } else if token.token_type == TokenType::Class {
                    has_return_type = true;
                    return_type = ReturnType::Object(token.content.clone());
                } else {
                    diags.push(
                        token.to_diagnostic(
                            "Return type expected.\n'V' for void.",
                            Some(DiagnosticSeverity::Error),
                        ),
                    );
                }
            }
            was_space = token.token_type == TokenType::Space;
        }
        idx = idx + 1;
        proof {
            assert(diag_views(diags@) =~= decl_scan(gline, idx as int).diags);
        }
    }
    let ghost acc = decl_scan(gline, gline.len() as int);
    if const_decl.is_some() {
        if static_decl.is_some() {
            if let Some(constructor_static) = &validator.constructor_static {
                diags.push(
                    tokens_to_diagnostic(
                        constructor_static.tokens.as_slice(),
                        "Static constuctor defined here.",
                        Some(DiagnosticSeverity::Hint),
                    ),
                );
                diags.push(
                    tokens_to_diagnostic(
                        line,
                        "Static constuctor already defined.",
                        Some(DiagnosticSeverity::Error),
                    ),
                );
            } else {
                validator.constructor_static = Some(
                    MethodDeclaration {
                        is_start: true,
                        found_return: true,
                        tokens: clone_tokens(line),
                        return_type: ReturnType::Void,
                    },
                );
            }
        } else {
            if let Some(constructor_virtual) = &validator.constructor_virtual {
                diags.push(
                    tokens_to_diagnostic(
                        constructor_virtual.tokens.as_slice(),
                        "Constuctor defined here.",
                        Some(DiagnosticSeverity::Hint),
                    ),
                );
                diags.push(
                    tokens_to_diagnostic(
                        line,
                        "Constuctor already defined.",
                        Some(DiagnosticSeverity::Error),
                    ),
                );
            } else {
                validator.constructor_virtual = Some(
                    MethodDeclaration {
                        is_start: true,
                        found_return: true,
                        tokens: clone_tokens(line),
                        return_type: ReturnType::Void,
                    },
                );
            }
        }
    }
    proof {
        assert(diag_views(diags@) =~= acc.diags + decl_post(old(validator)@, gline, acc).1);
    }
    (diags, return_type)
}

} // verus!
