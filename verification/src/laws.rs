//! Document-level properties of the pipeline, stated and proved against the
//! specification functions that the executable code is verified to follow.
use vstd::prelude::*;

use crate::diagnostics::{span_diag, tok_diag, DiagModel, DiagnosticSeverity};
use crate::directives::{dir_end_diags, DirModel};
use crate::header::{header_line_step, header_token_step, HeaderModel};
use crate::helper::trim_spec;
use crate::lexer::{models_from, TokenModel, TokenType};
use crate::method::{method_line_step, method_token_step, method_wf, MethodVModel, RetModel};
use crate::validation::{pipe_run, validate_spec};

verus! {

/// Validation is a pure function of the document text: validating the same
/// text twice yields the same diagnostic list, content and count.
pub proof fn lemma_validate_idempotent(s: Seq<char>, d1: Seq<DiagModel>, d2: Seq<DiagModel>)
    requires
        d1 == validate_spec(s),
        d2 == validate_spec(s),
    ensures
        d1 == d2,
{
}

/// Return instructions and other tokens never close or reopen the tracked
/// method block: only `.method` and `.end method` lines do.
pub proof fn lemma_method_token_keeps_block(st: MethodVModel, t: TokenModel)
    ensures
        method_token_step(st, t).0.method_decl is Some <==> st.method_decl is Some,
        st.method_decl is Some ==> {
            let m0 = st.method_decl->0;
            let m1 = method_token_step(st, t).0.method_decl->0;
            m1.is_start == m0.is_start && m1.tokens == m0.tokens && m1.return_type
                == m0.return_type
        },
{
}

/// A `.method` line while a method block is open yields exactly a hint
/// citing the open block's declaration line and a "cannot be inside a method
/// block" error at the new line, and nothing else.
pub proof fn lemma_method_nesting(st: MethodVModel, line: Seq<TokenModel>)
    requires
        method_wf(st),
        line.len() > 0,
        line[0].token_type == TokenType::Method,
        line[0].content == ".method"@,
        st.method_decl is Some,
        st.method_decl->0.is_start,
    ensures
        method_line_step(st, line).1 == seq![
            span_diag(
                st.method_decl->0.tokens,
                "Method block starts here."@,
                Some(DiagnosticSeverity::Hint),
            ),
            span_diag(
                line,
                "'.method' directive cannot be inside a method block."@,
                Some(DiagnosticSeverity::Error),
            ),
        ],
{
}

/// While a block declared to return `V` is open, a return instruction other
/// than `return-void` yields exactly a hint at the declared return type and
/// a "'return-void' expected." error; `return-void` itself yields nothing.
pub proof fn lemma_return_consistency_void(st: MethodVModel, t: TokenModel)
    requires
        method_wf(st),
        t.token_type == TokenType::Return,
        st.method_decl is Some,
        st.method_decl->0.return_type == RetModel::Void,
    ensures
        t.content == "return-void"@ ==> method_token_step(st, t).1 == Seq::<DiagModel>::empty(),
        t.content != "return-void"@ ==> method_token_step(st, t).1 == seq![
            tok_diag(
                st.method_decl->0.tokens.last(),
                "Return type declared here."@,
                Some(DiagnosticSeverity::Hint),
            ),
            tok_diag(t, "'return-void' expected."@, Some(DiagnosticSeverity::Error)),
        ],
{
}

/// While a block declared to return a class type is open, a return
/// instruction other than `return-object` yields exactly a hint at the
/// declared return type and a "'return-object' expected." error;
/// `return-object` itself yields nothing.
pub proof fn lemma_return_consistency_object(st: MethodVModel, t: TokenModel, name: Seq<char>)
    requires
        method_wf(st),
        t.token_type == TokenType::Return,
        st.method_decl is Some,
        st.method_decl->0.return_type == RetModel::Object(name),
    ensures
        t.content == "return-object"@ ==> method_token_step(st, t).1 == Seq::<DiagModel>::empty(),
        t.content != "return-object"@ ==> method_token_step(st, t).1 == seq![
            tok_diag(
                st.method_decl->0.tokens.last(),
                "Return type declared here."@,
                Some(DiagnosticSeverity::Hint),
            ),
            tok_diag(t, "'return-object' expected."@, Some(DiagnosticSeverity::Error)),
        ],
{
}

/// During the modifier stage of a declaration scan, a method name seen after
/// a lone `constructor` modifier and not spelled `<init>(` yields exactly the
/// two naming errors; after `constructor` with `static`, the name `<clinit>(`
/// is accepted without any new diagnostic.
pub proof fn lemma_constructor_naming(
    acc: crate::method::DeclAcc,
    t: TokenModel,
    idx: int,
)
    requires
        idx >= 1,
        acc.stage == crate::method::MethodDeclarationStage::Modifiers,
        acc.was_space,
        t.token_type == TokenType::MethodName,
    ensures
        acc.constr is Some && acc.statc is None && t.content != "<init>("@
            ==> crate::method::decl_step(acc, t, idx).diags == acc.diags + seq![
            tok_diag(
                acc.constr->0,
                "Constuctor modifier declared here."@,
                Some(DiagnosticSeverity::Error),
            ),
            tok_diag(
                t,
                "Non-static constuctor must be named '<init>'."@,
                Some(DiagnosticSeverity::Error),
            ),
        ],
        acc.constr is Some && acc.statc is Some && t.content == "<clinit>("@
            ==> crate::method::decl_step(acc, t, idx).diags == acc.diags,
{
}

/// A line is a `.class` declaration line.
pub open spec fn is_class_line(line: Seq<TokenModel>) -> bool {
    line.len() > 0 && line[0].token_type == TokenType::Directive && line[0].content == ".class"@
}

/// A line is a `.super` declaration line.
pub open spec fn is_super_line(line: Seq<TokenModel>) -> bool {
    line.len() > 0 && line[0].token_type == TokenType::Directive && line[0].content == ".super"@
}

/// The line assembler's fold: the non-empty trimmed lines produced from the
/// first `n` tokens, and the tokens of the line still being assembled.
pub open spec fn lines_acc(ts: Seq<TokenModel>, n: int) -> (Seq<Seq<TokenModel>>, Seq<TokenModel>)
    decreases n,
{
    if n <= 0 {
        (Seq::empty(), Seq::empty())
    } else {
        let prev = lines_acc(ts, n - 1);
        let t = ts[n - 1];
        if t.token_type == TokenType::NewLine {
            let line = trim_spec(prev.1);
            if line.len() > 0 {
                (prev.0.push(line), Seq::empty())
            } else {
                (prev.0, Seq::empty())
            }
        } else {
            (prev.0, prev.1.push(t))
        }
    }
}

/// The logical lines that the validators see in a token stream.
pub open spec fn lines_of(ts: Seq<TokenModel>) -> Seq<Seq<TokenModel>> {
    lines_acc(ts, ts.len() as int).0
}

/// Whether any line of `lines` is a `.class` line.
pub open spec fn has_class_line(lines: Seq<Seq<TokenModel>>) -> bool {
    exists|k: int| 0 <= k < lines.len() && is_class_line(#[trigger] lines[k])
}

/// Whether any line of `lines` is a `.super` line.
pub open spec fn has_super_line(lines: Seq<Seq<TokenModel>>) -> bool {
    exists|k: int| 0 <= k < lines.len() && is_super_line(#[trigger] lines[k])
}

/// What the header validator's slots hold after `n` tokens: the buffered
/// line matches the assembler's, the first line seen is the anchor, and the
/// class and super slots hold exactly the first such line seen, if any.
pub proof fn lemma_pipe_header_slots(ts: Seq<TokenModel>, n: int)
    requires
        0 <= n <= ts.len(),
    ensures
        pipe_run(ts, n).0.cur_line == lines_acc(ts, n).1,
        ({
            let lines = lines_acc(ts, n).0;
            let h = pipe_run(ts, n).0.dir.header;
            &&& (h.top_line is Some <==> lines.len() > 0)
            &&& (lines.len() > 0 ==> h.top_line == Some(lines[0]))
            &&& (h.class_declaration is Some <==> has_class_line(lines))
            &&& (h.class_declaration is Some ==> exists|k: int|
                0 <= k < lines.len() && is_class_line(#[trigger] lines[k])
                    && h.class_declaration == Some(lines[k]) && forall|j: int|
                    0 <= j < k ==> !is_class_line(#[trigger] lines[j]))
            &&& (h.super_declaration is Some <==> has_super_line(lines))
        }),
    decreases n,
{
    reveal_strlit(".class");
    reveal_strlit(".super");
    reveal_strlit(".implements");
    reveal_strlit(".source");
    assert(".super"@[1] == 's');
    assert(".class"@[1] == 'c');
    assert(".super"@ != ".class"@);
    if n > 0 {
        lemma_pipe_header_slots(ts, n - 1);
        let prev = pipe_run(ts, n - 1);
        let t = ts[n - 1];
        let lines0 = lines_acc(ts, n - 1).0;
        let lines1 = lines_acc(ts, n).0;
        let h0 = prev.0.dir.header;
        let h1 = pipe_run(ts, n).0.dir.header;
        if t.token_type == TokenType::NewLine {
            let line = trim_spec(prev.0.cur_line);
            if line.len() > 0 {
                let hl = header_line_step(h0, line).0;
                assert(h1.class_declaration == hl.class_declaration);
                assert(lines1 == lines0.push(line));
                assert(lines1[lines0.len() as int] == line);
                assert(forall|k: int| 0 <= k < lines0.len() ==> lines1[k] == lines0[k]);
                if is_class_line(line) && h0.class_declaration is None {
                    let k = lines0.len() as int;
                    assert(hl.class_declaration == Some(line));
                    assert forall|j: int| 0 <= j < k implies !is_class_line(
                        #[trigger] lines1[j],
                    ) by {
                        assert(lines1[j] == lines0[j]);
                        assert(!has_class_line(lines0));
                    };
                    assert(is_class_line(lines1[k]));
                    assert(has_class_line(lines1));
                } else {
                    assert(hl.class_declaration == h0.class_declaration);
                    if h0.class_declaration is Some {
                        let k0 = choose|k: int|
                            0 <= k < lines0.len() && is_class_line(#[trigger] lines0[k])
                                && h0.class_declaration == Some(lines0[k]) && forall|j: int|
                                0 <= j < k ==> !is_class_line(#[trigger] lines0[j]);
                        assert(is_class_line(lines1[k0]));
                        assert forall|j: int| 0 <= j < k0 implies !is_class_line(
                            #[trigger] lines1[j],
                        ) by {
                            assert(lines1[j] == lines0[j]);
                        };
                        assert(has_class_line(lines1));
                    } else {
                        assert(!is_class_line(line));
                        assert forall|k: int| 0 <= k < lines1.len() implies !is_class_line(
                            #[trigger] lines1[k],
                        ) by {
                            if k < lines0.len() {
                                assert(lines1[k] == lines0[k]);
                                assert(!has_class_line(lines0));
                            } else {
                                assert(lines1[k] == line);
                            }
                        };
                        assert(!has_class_line(lines1));
                    }
                }
                if is_super_line(line) {
                    assert(hl.super_declaration is Some);
                    assert(has_super_line(lines1));
                } else {
                    assert(hl.super_declaration == h0.super_declaration);
                    if h0.super_declaration is Some {
                        let k0 = choose|k: int|
                            0 <= k < lines0.len() && is_super_line(#[trigger] lines0[k]);
                        assert(is_super_line(lines1[k0]));
                        assert(has_super_line(lines1));
                    } else {
                        assert forall|k: int| 0 <= k < lines1.len() implies !is_super_line(
                            #[trigger] lines1[k],
                        ) by {
                            if k < lines0.len() {
                                assert(lines1[k] == lines0[k]);
                                assert(!has_super_line(lines0));
                            } else {
                                assert(lines1[k] == line);
                            }
                        };
                    }
                }
                assert(h1.top_line is Some);
                assert(lines1[0] == if lines0.len() == 0 {
                    line
                } else {
                    lines0[0]
                });
            } else {
                assert(lines1 == lines0);
                assert(h1.class_declaration == h0.class_declaration);
                assert(h1.super_declaration == h0.super_declaration);
                assert(h1.top_line == h0.top_line);
            }
        } else {
            assert(lines1 == lines0);
            assert(h1.class_declaration == h0.class_declaration);
            assert(h1.super_declaration == h0.super_declaration);
            assert(h1.top_line == h0.top_line);
        }
    }
}

/// A document with at least one non-empty line but no `.class` and no
/// `.super` line yields exactly two end-of-stream errors, both anchored at
/// the first non-empty line: one for the missing class directive, one for
/// the missing super directive.
#[verifier::rlimit(50)]
pub proof fn lemma_missing_sections(s: Seq<char>)
    requires
        lines_of(models_from(s, 0)).len() > 0,
        !has_class_line(lines_of(models_from(s, 0))),
        !has_super_line(lines_of(models_from(s, 0))),
    ensures
        ({
            let ts = models_from(s, 0);
            let run = pipe_run(ts, ts.len() as int);
            dir_end_diags(run.0.dir) == seq![
                span_diag(
                    lines_of(ts)[0],
                    "Missing class directive."@,
                    Some(DiagnosticSeverity::Error),
                ),
                span_diag(
                    lines_of(ts)[0],
                    "Missing super directive.\nExtend 'Ljava/lang/Object;' by default"@,
                    Some(DiagnosticSeverity::Error),
                ),
            ]
        }),
{
    let ts = models_from(s, 0);
    lemma_pipe_header_slots(ts, ts.len() as int);
    let h = pipe_run(ts, ts.len() as int).0.dir.header;
    assert(h.class_declaration is None);
    assert(h.super_declaration is None);
    assert(h.top_line == Some(lines_of(ts)[0]));
    assert(dir_end_diags(pipe_run(ts, ts.len() as int).0.dir) =~= seq![
        span_diag(
            lines_of(ts)[0],
            "Missing class directive."@,
            Some(DiagnosticSeverity::Error),
        ),
        span_diag(
            lines_of(ts)[0],
            "Missing super directive.\nExtend 'Ljava/lang/Object;' by default"@,
            Some(DiagnosticSeverity::Error),
        ),
    ]);
}


/// The message of the hint at an original `.class` declaration.
pub open spec fn class_hint_msg() -> Seq<char> {
    "Class declared here."@
}

/// The message of the error at a duplicate `.class` declaration.
pub open spec fn class_dup_msg() -> Seq<char> {
    "Class already declared."@
}

/// No diagnostic of `ds` carries either duplicate-class message.
pub open spec fn no_class_msgs(ds: Seq<DiagModel>) -> bool {
    forall|k: int|
        0 <= k < ds.len() ==> (#[trigger] ds[k]).message != class_hint_msg() && ds[k].message
            != class_dup_msg()
}

/// Every message any validator emits, other than the duplicate-class pair
/// itself, differs from both duplicate-class messages.
proof fn lemma_class_msgs_distinct()
    ensures
        class_hint_msg() != class_dup_msg(),
        "Space expected."@ != class_hint_msg() && "Space expected."@ != class_dup_msg(),
        "New line expected."@ != class_hint_msg() && "New line expected."@ != class_dup_msg(),
        "Class expected."@ != class_hint_msg() && "Class expected."@ != class_dup_msg(),
        "String expected."@ != class_hint_msg() && "String expected."@ != class_dup_msg(),
        "Visibility modifier defined here."@ != class_hint_msg()
            && "Visibility modifier defined here."@ != class_dup_msg(),
        "Visibility modifier already defined."@ != class_hint_msg()
            && "Visibility modifier already defined."@ != class_dup_msg(),
        "Class cannot be defined as static."@ != class_hint_msg()
            && "Class cannot be defined as static."@ != class_dup_msg(),
        "Final modifier defined here."@ != class_hint_msg() && "Final modifier defined here."@
            != class_dup_msg(),
        "Final modifier already defined."@ != class_hint_msg()
            && "Final modifier already defined."@ != class_dup_msg(),
        "Synthetic modifier defined here."@ != class_hint_msg()
            && "Synthetic modifier defined here."@ != class_dup_msg(),
        "Synthetic modifier already defined."@ != class_hint_msg()
            && "Synthetic modifier already defined."@ != class_dup_msg(),
        "Super declared here."@ != class_hint_msg() && "Super declared here."@
            != class_dup_msg(),
        "Super already declared."@ != class_hint_msg() && "Super already declared."@
            != class_dup_msg(),
        "Source declared here."@ != class_hint_msg() && "Source declared here."@
            != class_dup_msg(),
        "Source already declared."@ != class_hint_msg() && "Source already declared."@
            != class_dup_msg(),
        "Missing class directive."@ != class_hint_msg() && "Missing class directive."@
            != class_dup_msg(),
        "Missing super directive.\nExtend 'Ljava/lang/Object;' by default"@ != class_hint_msg()
            && "Missing super directive.\nExtend 'Ljava/lang/Object;' by default"@
            != class_dup_msg(),
        "Visibility modifier declared here."@ != class_hint_msg()
            && "Visibility modifier declared here."@ != class_dup_msg(),
        "Visibility modifier already declared."@ != class_hint_msg()
            && "Visibility modifier already declared."@ != class_dup_msg(),
        "Constuctor modifier declared here."@ != class_hint_msg()
            && "Constuctor modifier declared here."@ != class_dup_msg(),
        "Constuctor modifier already declared."@ != class_hint_msg()
            && "Constuctor modifier already declared."@ != class_dup_msg(),
        "Final modifier declared here."@ != class_hint_msg() && "Final modifier declared here."@
            != class_dup_msg(),
        "Final modifier already declared."@ != class_hint_msg()
            && "Final modifier already declared."@ != class_dup_msg(),
        "Static modifier declared here."@ != class_hint_msg()
            && "Static modifier declared here."@ != class_dup_msg(),
        "Static modifier already declared."@ != class_hint_msg()
            && "Static modifier already declared."@ != class_dup_msg(),
        "Static constuctor must be named '<clinit>'."@ != class_hint_msg()
            && "Static constuctor must be named '<clinit>'."@ != class_dup_msg(),
        "Non-static constuctor must be named '<init>'."@ != class_hint_msg()
            && "Non-static constuctor must be named '<init>'."@ != class_dup_msg(),
        "'<init>' is reserved for nonstatic constructors."@ != class_hint_msg()
            && "'<init>' is reserved for nonstatic constructors."@ != class_dup_msg(),
        "'<clinit>' is reserved for static constructors."@ != class_hint_msg()
            && "'<clinit>' is reserved for static constructors."@ != class_dup_msg(),
        "Method modifier expected."@ != class_hint_msg() && "Method modifier expected."@
            != class_dup_msg(),
        "')' expected."@ != class_hint_msg() && "')' expected."@ != class_dup_msg(),
        "Return type expected.\n'V' for void."@ != class_hint_msg()
            && "Return type expected.\n'V' for void."@ != class_dup_msg(),
        "Static constuctor defined here."@ != class_hint_msg()
            && "Static constuctor defined here."@ != class_dup_msg(),
        "Static constuctor already defined."@ != class_hint_msg()
            && "Static constuctor already defined."@ != class_dup_msg(),
        "Constuctor defined here."@ != class_hint_msg() && "Constuctor defined here."@
            != class_dup_msg(),
        "Constuctor already defined."@ != class_hint_msg() && "Constuctor already defined."@
            != class_dup_msg(),
        "Method block starts here."@ != class_hint_msg() && "Method block starts here."@
            != class_dup_msg(),
        "'.method' directive cannot be inside a method block."@ != class_hint_msg()
            && "'.method' directive cannot be inside a method block."@ != class_dup_msg(),
        "Method block ends here."@ != class_hint_msg() && "Method block ends here."@
            != class_dup_msg(),
        "'.end method' directive must be at the end of a method block."@ != class_hint_msg()
            && "'.end method' directive must be at the end of a method block."@
            != class_dup_msg(),
        "No return instruction found in method block."@ != class_hint_msg()
            && "No return instruction found in method block."@ != class_dup_msg(),
        "Unable to get return type from method declaration."@ != class_hint_msg()
            && "Unable to get return type from method declaration."@ != class_dup_msg(),
        "Return type declared here."@ != class_hint_msg() && "Return type declared here."@
            != class_dup_msg(),
        "'return-void' expected."@ != class_hint_msg() && "'return-void' expected."@
            != class_dup_msg(),
        "'return-object' expected."@ != class_hint_msg() && "'return-object' expected."@
            != class_dup_msg(),
        forall|c: Seq<char>| crate::header::simple_usage_msg(c) != class_hint_msg()
            && crate::header::simple_usage_msg(c) != class_dup_msg(),
{
    reveal_strlit("Class declared here.");
    reveal_strlit("Class already declared.");
    reveal_strlit("Space expected.");
    reveal_strlit("New line expected.");
    reveal_strlit("Class expected.");
    reveal_strlit("String expected.");
    reveal_strlit("Visibility modifier defined here.");
    reveal_strlit("Visibility modifier already defined.");
    reveal_strlit("Class cannot be defined as static.");
    reveal_strlit("Final modifier defined here.");
    reveal_strlit("Final modifier already defined.");
    reveal_strlit("Synthetic modifier defined here.");
    reveal_strlit("Synthetic modifier already defined.");
    reveal_strlit("Super declared here.");
    reveal_strlit("Super already declared.");
    reveal_strlit("Source declared here.");
    reveal_strlit("Source already declared.");
    reveal_strlit("Missing class directive.");
    reveal_strlit("Missing super directive.\nExtend 'Ljava/lang/Object;' by default");
    reveal_strlit("Visibility modifier declared here.");
    reveal_strlit("Visibility modifier already declared.");
    reveal_strlit("Constuctor modifier declared here.");
    reveal_strlit("Constuctor modifier already declared.");
    reveal_strlit("Final modifier declared here.");
    reveal_strlit("Final modifier already declared.");
    reveal_strlit("Static modifier declared here.");
    reveal_strlit("Static modifier already declared.");
    reveal_strlit("Static constuctor must be named '<clinit>'.");
    reveal_strlit("Non-static constuctor must be named '<init>'.");
    reveal_strlit("'<init>' is reserved for nonstatic constructors.");
    reveal_strlit("'<clinit>' is reserved for static constructors.");
    reveal_strlit("Method modifier expected.");
    reveal_strlit("')' expected.");
    reveal_strlit("Return type expected.\n'V' for void.");
    reveal_strlit("Static constuctor defined here.");
    reveal_strlit("Static constuctor already defined.");
    reveal_strlit("Constuctor defined here.");
    reveal_strlit("Constuctor already defined.");
    reveal_strlit("Method block starts here.");
    reveal_strlit("'.method' directive cannot be inside a method block.");
    reveal_strlit("Method block ends here.");
    reveal_strlit("'.end method' directive must be at the end of a method block.");
    reveal_strlit("No return instruction found in method block.");
    reveal_strlit("Unable to get return type from method declaration.");
    reveal_strlit("Return type declared here.");
    reveal_strlit("'return-void' expected.");
    reveal_strlit("'return-object' expected.");
    reveal_strlit("'");
    assert("Class declared here."@.len() == 20);
    assert("Class already declared."@.len() == 23);
    assert("Space expected."@.len() == 15);
    assert("New line expected."@.len() == 18);
    assert("Class expected."@.len() == 15);
    assert("String expected."@.len() == 16);
    assert("Visibility modifier defined here."@.len() == 33);
    assert("Visibility modifier already defined."@.len() == 36);
    assert("Class cannot be defined as static."@.len() == 34);
    assert("Final modifier defined here."@.len() == 28);
    assert("Final modifier already defined."@.len() == 31);
    assert("Synthetic modifier defined here."@.len() == 32);
    assert("Synthetic modifier already defined."@.len() == 35);
    assert("Super declared here."@.len() == 20);
    assert("Super already declared."@.len() == 23);
    assert("Source declared here."@.len() == 21);
    assert("Source already declared."@.len() == 24);
    assert("Missing class directive."@.len() == 24);
    assert("Missing super directive.\nExtend 'Ljava/lang/Object;' by default"@.len() == 63);
    assert("Visibility modifier declared here."@.len() == 34);
    assert("Visibility modifier already declared."@.len() == 37);
    assert("Constuctor modifier declared here."@.len() == 34);
    assert("Constuctor modifier already declared."@.len() == 37);
    assert("Final modifier declared here."@.len() == 29);
    assert("Final modifier already declared."@.len() == 32);
    assert("Static modifier declared here."@.len() == 30);
    assert("Static modifier already declared."@.len() == 33);
    assert("Static constuctor must be named '<clinit>'."@.len() == 43);
    assert("Non-static constuctor must be named '<init>'."@.len() == 45);
    assert("'<init>' is reserved for nonstatic constructors."@.len() == 48);
    assert("'<clinit>' is reserved for static constructors."@.len() == 47);
    assert("Method modifier expected."@.len() == 25);
    assert("')' expected."@.len() == 13);
    assert("Return type expected.\n'V' for void."@.len() == 35);
    assert("Static constuctor defined here."@.len() == 31);
    assert("Static constuctor already defined."@.len() == 34);
    assert("Constuctor defined here."@.len() == 24);
    assert("Constuctor already defined."@.len() == 27);
    assert("Method block starts here."@.len() == 25);
    assert("'.method' directive cannot be inside a method block."@.len() == 52);
    assert("Method block ends here."@.len() == 23);
    assert("'.end method' directive must be at the end of a method block."@.len() == 61);
    assert("No return instruction found in method block."@.len() == 44);
    assert("Unable to get return type from method declaration."@.len() == 50);
    assert("Return type declared here."@.len() == 26);
    assert("'return-void' expected."@.len() == 23);
    assert("'return-object' expected."@.len() == 25);
    assert("Class declared here."@[0] == 'C');
    assert("Class already declared."@[0] == 'C');
    assert("Super declared here."@[0] == 'S');
    assert("Super already declared."@[0] == 'S');
    assert("Method block ends here."@[0] == 'M');
    assert("'return-void' expected."@[0] == '\'');
    assert forall|c: Seq<char>| crate::header::simple_usage_msg(c) != class_hint_msg()
        && crate::header::simple_usage_msg(c) != class_dup_msg() by {
        assert(crate::header::simple_usage_msg(c)[0] == '\'');
    };
}


proof fn lemma_cls_scan_no_class(line: Seq<TokenModel>, n: int)
    ensures
        no_class_msgs(crate::header::cls_scan(line, n).diags),
    decreases n,
{
    lemma_class_msgs_distinct();
    if n > 0 {
        lemma_cls_scan_no_class(line, n - 1);
    }
}

proof fn lemma_simple_scan_no_class(line: Seq<TokenModel>, n: int)
    ensures
        no_class_msgs(crate::header::simple_scan(line, n)),
    decreases n,
{
    lemma_class_msgs_distinct();
    if n > 0 {
        lemma_simple_scan_no_class(line, n - 1);
    }
}

proof fn lemma_simple_no_class(line: Seq<TokenModel>)
    requires
        line.len() > 0,
    ensures
        no_class_msgs(crate::header::simple_line_diags(line)),
{
    lemma_class_msgs_distinct();
    lemma_simple_scan_no_class(line, line.len() as int);
}

/// The duplicate-class hint/error pair appears exactly on a `.class` line
/// while the class slot is already filled; every other line contributes no
/// diagnostic with either message.
pub proof fn lemma_header_line_class(st: HeaderModel, line: Seq<TokenModel>)
    requires
        crate::header::header_wf(st),
        line.len() > 0,
    ensures
        is_class_line(line) && st.class_declaration is Some ==> header_line_step(st, line).1
            == seq![
            span_diag(
                st.class_declaration->0,
                class_hint_msg(),
                Some(DiagnosticSeverity::Hint),
            ),
            span_diag(line, class_dup_msg(), Some(DiagnosticSeverity::Error)),
        ],
        !(is_class_line(line) && st.class_declaration is Some) ==> no_class_msgs(
            header_line_step(st, line).1,
        ),
{
    lemma_class_msgs_distinct();
    reveal_strlit(".class");
    reveal_strlit(".super");
    reveal_strlit(".implements");
    reveal_strlit(".source");
    assert(".super"@[1] == 's');
    assert(".class"@[1] == 'c');
    assert(".implements"@.len() == 11);
    assert(".source"@.len() == 7);
    assert(".class"@.len() == 6);
    assert(".super"@.len() == 6);
    if !(is_class_line(line) && st.class_declaration is Some) {
        if line[0].token_type == TokenType::Directive && line[0].content == ".class"@ {
            lemma_cls_scan_no_class(line, line.len() as int);
        } else if line[0].token_type == TokenType::Directive && (line[0].content == ".super"@
            || line[0].content == ".implements"@ || line[0].content == ".source"@) {
            lemma_simple_no_class(line);
        }
    }
}


} // verus!
