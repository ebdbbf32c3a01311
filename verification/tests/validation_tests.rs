use smali_lsp::diagnostics::{Diagnostic, DiagnosticSeverity};
use smali_lsp::position::Position;
use smali_lsp::validation::validate;

fn diags(text: &str) -> Vec<Diagnostic> {
    validate(text.to_string()).unwrap()
}

fn with_message<'a>(ds: &'a [Diagnostic], msg: &str) -> Vec<&'a Diagnostic> {
    ds.iter().filter(|d| d.message == msg).collect()
}

#[test]
fn clean_document_has_no_diagnostics() {
    let text = "\
.class public Lme/test/Test;
.super Ljava/lang/Object;

.method public constructor <init>()V
    invoke-direct {p0}, Ljava/lang/Object;-><init>()V
    return-void
.end method
";
    assert_eq!(diags(text), Vec::new());
}

#[test]
fn empty_document_has_no_diagnostics() {
    assert_eq!(diags(""), Vec::new());
    assert_eq!(diags("\n\n"), Vec::new());
}

#[test]
fn validation_is_idempotent() {
    let text = "\
.class public Lme/test/Test;
.class public Lme/test/Other;
.method public foo()V
.method public bar()V
";
    let first = diags(text);
    let second = diags(text);
    assert_eq!(first, second);
    assert!(!first.is_empty());
}

#[test]
fn duplicate_class_pairs_hint_and_error() {
    let text = "\
.class public Lme/a/A;
.super Ljava/lang/Object;
.class public Lme/b/B;
";
    let ds = diags(text);
    let hints = with_message(&ds, "Class declared here.");
    let errors = with_message(&ds, "Class already declared.");
    assert_eq!(hints.len(), 1);
    assert_eq!(errors.len(), 1);
    assert_eq!(hints[0].severity, Some(DiagnosticSeverity::Hint));
    assert_eq!(errors[0].severity, Some(DiagnosticSeverity::Error));
    // The hint is anchored at the first `.class` line, the error at the second.
    assert_eq!(hints[0].range.start, Position { line: 0, character: 0 });
    assert_eq!(hints[0].range.end, Position { line: 0, character: 22 });
    assert_eq!(errors[0].range.start, Position { line: 2, character: 0 });
    assert_eq!(errors[0].range.end, Position { line: 2, character: 22 });
}

#[test]
fn duplicate_super_pairs_hint_and_error() {
    let text = "\
.class public Lme/a/A;
.super Ljava/lang/Object;
.super Ljava/lang/Thread;
";
    let ds = diags(text);
    assert_eq!(with_message(&ds, "Super declared here.").len(), 1);
    assert_eq!(with_message(&ds, "Super already declared.").len(), 1);
}

#[test]
fn duplicate_source_pairs_hint_and_error() {
    let text = "\
.class public Lme/a/A;
.super Ljava/lang/Object;
.source \"A.smali\"
.source \"B.smali\"
";
    let ds = diags(text);
    assert_eq!(with_message(&ds, "Source declared here.").len(), 1);
    assert_eq!(with_message(&ds, "Source already declared.").len(), 1);
}

#[test]
fn nested_method_cites_open_block() {
    let text = "\
.class public Lme/a/A;
.super Ljava/lang/Object;
.method public foo()V
.method public bar()V
";
    let ds = diags(text);
    let hints = with_message(&ds, "Method block starts here.");
    let errors = with_message(&ds, "'.method' directive cannot be inside a method block.");
    assert_eq!(hints.len(), 1);
    assert_eq!(errors.len(), 1);
    assert_eq!(hints[0].severity, Some(DiagnosticSeverity::Hint));
    // The hint cites the first method's line.
    assert_eq!(hints[0].range.start, Position { line: 2, character: 0 });
    assert_eq!(errors[0].range.start, Position { line: 3, character: 0 });
}

#[test]
fn end_method_outside_block_is_an_error() {
    let text = "\
.class public Lme/a/A;
.super Ljava/lang/Object;
.end method
";
    let ds = diags(text);
    assert_eq!(
        with_message(&ds, "'.end method' directive must be at the end of a method block.").len(),
        1
    );
}

#[test]
fn missing_class_and_super_are_reported_at_first_line() {
    let text = "    .locals 1\n";
    let ds = diags(text);
    assert_eq!(ds.len(), 2);
    assert_eq!(ds[0].message, "Missing class directive.");
    assert_eq!(ds[0].severity, Some(DiagnosticSeverity::Error));
    assert_eq!(
        ds[1].message,
        "Missing super directive.\nExtend 'Ljava/lang/Object;' by default"
    );
    assert_eq!(ds[1].severity, Some(DiagnosticSeverity::Error));
    // Both anchor at the first non-empty line, whose leading spaces are trimmed.
    assert_eq!(ds[0].range.start, Position { line: 0, character: 4 });
    assert_eq!(ds[1].range.start, Position { line: 0, character: 4 });
}

#[test]
fn matching_return_void_is_clean() {
    let text = "\
.class public Lme/a/A;
.super Ljava/lang/Object;
.method public foo()V
    return-void
.end method
";
    let ds = diags(text);
    assert_eq!(with_message(&ds, "Return type declared here.").len(), 0);
    assert_eq!(with_message(&ds, "'return-void' expected.").len(), 0);
    assert_eq!(ds, Vec::new());
}

#[test]
fn mismatched_return_pairs_hint_and_error() {
    let text = "\
.class public Lme/a/A;
.super Ljava/lang/Object;
.method public foo()V
    return-object v0
.end method
";
    let ds = diags(text);
    let hints = with_message(&ds, "Return type declared here.");
    let errors = with_message(&ds, "'return-void' expected.");
    assert_eq!(hints.len(), 1);
    assert_eq!(errors.len(), 1);
    assert_eq!(hints[0].severity, Some(DiagnosticSeverity::Hint));
    // The hint anchors at the declared return type `V`.
    assert_eq!(hints[0].range.start, Position { line: 2, character: 20 });
    assert_eq!(hints[0].range.end, Position { line: 2, character: 21 });
    // The error anchors at the offending instruction.
    assert_eq!(errors[0].range.start, Position { line: 3, character: 4 });
}

#[test]
fn object_return_requires_return_object() {
    let text = "\
.class public Lme/a/A;
.super Ljava/lang/Object;
.method public name()Ljava/lang/String;
    return-void
.end method
";
    let ds = diags(text);
    assert_eq!(with_message(&ds, "'return-object' expected.").len(), 1);
}

#[test]
fn missing_return_instruction_is_reported() {
    let text = "\
.class public Lme/a/A;
.super Ljava/lang/Object;
.method public foo()V
.end method
";
    let ds = diags(text);
    assert_eq!(with_message(&ds, "No return instruction found in method block.").len(), 1);
}

#[test]
fn unknown_return_type_gives_information() {
    let text = "\
.class public Lme/a/A;
.super Ljava/lang/Object;
.method public foo(
    return-void
.end method
";
    let ds = diags(text);
    let infos = with_message(&ds, "Unable to get return type from method declaration.");
    assert_eq!(infos.len(), 1);
    assert_eq!(infos[0].severity, Some(DiagnosticSeverity::Information));
}

#[test]
fn misnamed_constructor_demands_init() {
    let text = "\
.class public Lme/a/A;
.super Ljava/lang/Object;
.method public constructor bar()V
    return-void
.end method
";
    let ds = diags(text);
    assert_eq!(with_message(&ds, "Non-static constuctor must be named '<init>'.").len(), 1);
}

#[test]
fn static_constructor_clinit_is_accepted() {
    let text = "\
.class public Lme/a/A;
.super Ljava/lang/Object;
.method public static constructor <clinit>()V
    return-void
.end method
";
    let ds = diags(text);
    assert_eq!(ds, Vec::new());
}

#[test]
fn misnamed_static_constructor_demands_clinit() {
    let text = "\
.class public Lme/a/A;
.super Ljava/lang/Object;
.method public static constructor setup()V
    return-void
.end method
";
    let ds = diags(text);
    assert_eq!(with_message(&ds, "Static constuctor must be named '<clinit>'.").len(), 1);
}

#[test]
fn reserved_names_need_constructor_modifier() {
    let text = "\
.class public Lme/a/A;
.super Ljava/lang/Object;
.method public <init>()V
    return-void
.end method
";
    let ds = diags(text);
    assert_eq!(
        with_message(&ds, "'<init>' is reserved for nonstatic constructors.").len(),
        1
    );
}

#[test]
fn duplicate_constructor_is_reported() {
    let text = "\
.class public Lme/a/A;
.super Ljava/lang/Object;
.method public constructor <init>()V
    return-void
.end method
.method public constructor <init>(I)V
    return-void
.end method
";
    let ds = diags(text);
    assert_eq!(with_message(&ds, "Constuctor defined here.").len(), 1);
    assert_eq!(with_message(&ds, "Constuctor already defined.").len(), 1);
}

#[test]
fn class_modifier_rules() {
    let text = "\
.class public static final final Lme/a/A;
.super Ljava/lang/Object;
";
    let ds = diags(text);
    assert_eq!(with_message(&ds, "Class cannot be defined as static.").len(), 1);
    assert_eq!(with_message(&ds, "Final modifier defined here.").len(), 1);
    assert_eq!(with_message(&ds, "Final modifier already defined.").len(), 1);
}

#[test]
fn tokens_after_class_name_are_errors() {
    let text = "\
.class public Lme/a/A; 1
.super Ljava/lang/Object;
";
    let ds = diags(text);
    assert_eq!(with_message(&ds, "New line expected.").len(), 1);
}

#[test]
fn short_super_line_gives_usage_error() {
    let text = "\
.class public Lme/a/A;
.super
";
    let ds = diags(text);
    assert_eq!(with_message(&ds, "'.super Lclass/Name;'").len(), 1);
}

#[test]
fn short_source_line_gives_usage_error() {
    let text = "\
.class public Lme/a/A;
.super Ljava/lang/Object;
.source
";
    let ds = diags(text);
    assert_eq!(with_message(&ds, "'.source \"FileName\"'").len(), 1);
}

#[test]
fn source_wants_a_string_literal() {
    let text = "\
.class public Lme/a/A;
.super Ljava/lang/Object;
.source Lme/a/A;
";
    let ds = diags(text);
    assert_eq!(with_message(&ds, "String expected.").len(), 1);
}

#[test]
fn implements_wants_a_class() {
    let text = "\
.class public Lme/a/A;
.super Ljava/lang/Object;
.implements 17
";
    let ds = diags(text);
    assert_eq!(with_message(&ds, "Class expected.").len(), 1);
}

#[test]
fn trailing_line_without_newline_is_not_validated() {
    // The line assembler only hands out lines closed by a newline.
    let closed = diags(".class public Lme/a/A;\n.class public Lme/b/B;\n");
    assert_eq!(with_message(&closed, "Class already declared.").len(), 1);
    let open = diags(".class public Lme/a/A;\n.class public Lme/b/B;");
    assert_eq!(with_message(&open, "Class already declared.").len(), 0);
}
