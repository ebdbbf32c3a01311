use smali_lsp::lexer::{lex_str, Token, TokenType};
use smali_lsp::position::range_to_lsp_range;

#[test]
fn test_lex_str() {
    let content = ".class public Ltest/Test;";
    let mut lex = lex_str(content).into_iter();
    assert_eq!(
        lex.next(),
        Some(Token {
            range: range_to_lsp_range(0, 6, content),
            token_type: TokenType::Directive,
            content: ".class".to_string(),
        })
    );
    assert_eq!(
        lex.next(),
        Some(Token {
            range: range_to_lsp_range(6, 7, content),
            token_type: TokenType::Space,
            content: " ".to_string(),
        })
    );
    assert_eq!(
        lex.next(),
        Some(Token {
            range: range_to_lsp_range(7, 13, content),
            token_type: TokenType::Visibility,
            content: "public".to_string(),
        })
    );
    assert_eq!(
        lex.next(),
        Some(Token {
            range: range_to_lsp_range(13, 14, content),
            token_type: TokenType::Space,
            content: " ".to_string(),
        })
    );
    assert_eq!(
        lex.next(),
        Some(Token {
            range: range_to_lsp_range(14, 25, content),
            token_type: TokenType::Class,
            content: "Ltest/Test;".to_string(),
        })
    );
}

#[test]
fn test_comment() {
    let lex = lex_str("# Test");
    assert_eq!(lex[0].token_type, TokenType::Comment);
    assert_eq!(lex[0].content, "# Test");

    let lex = lex_str("# Test\n");
    assert_eq!(lex[0].token_type, TokenType::Comment);
    assert_eq!(lex[0].content, "# Test");
    assert_eq!(lex[1].token_type, TokenType::NewLine);
    assert_eq!(lex[1].content, "\n");
}

#[test]
fn test_method_field_name() {
    let lex = lex_str(".field private bool:Z\n.method public getBool()Z");
    assert_eq!(lex[0].token_type, TokenType::Field);
    assert_eq!(lex[0].content, ".field");
    assert_eq!(lex[1].token_type, TokenType::Space);
    assert_eq!(lex[2].token_type, TokenType::Visibility);
    assert_eq!(lex[2].content, "private");
    assert_eq!(lex[3].token_type, TokenType::Space);
    assert_eq!(lex[4].token_type, TokenType::FieldName);
    assert_eq!(lex[4].content, "bool:");
    assert_eq!(lex[5].token_type, TokenType::BuiltinType);
    assert_eq!(lex[5].content, "Z");
    assert_eq!(lex[6].token_type, TokenType::NewLine);
    assert_eq!(lex[7].token_type, TokenType::Method);
    assert_eq!(lex[7].content, ".method");
    assert_eq!(lex[8].token_type, TokenType::Space);
    assert_eq!(lex[9].token_type, TokenType::Visibility);
    assert_eq!(lex[9].content, "public");
    assert_eq!(lex[10].token_type, TokenType::Space);
    assert_eq!(lex[11].token_type, TokenType::MethodName);
    assert_eq!(lex[11].content, "getBool(");
    assert_eq!(lex[12].token_type, TokenType::Paren);
    assert_eq!(lex[13].token_type, TokenType::BuiltinType);
    assert_eq!(lex[13].content, "Z");

    let lex = lex_str(".method public getBool()Z\n.field private bool:Z");
    assert_eq!(lex[0].token_type, TokenType::Method);
    assert_eq!(lex[0].content, ".method");
    assert_eq!(lex[1].token_type, TokenType::Space);
    assert_eq!(lex[2].token_type, TokenType::Visibility);
    assert_eq!(lex[2].content, "public");
    assert_eq!(lex[3].token_type, TokenType::Space);
    assert_eq!(lex[4].token_type, TokenType::MethodName);
    assert_eq!(lex[4].content, "getBool(");
    assert_eq!(lex[5].token_type, TokenType::Paren);
    assert_eq!(lex[6].token_type, TokenType::BuiltinType);
    assert_eq!(lex[6].content, "Z");
    assert_eq!(lex[7].token_type, TokenType::NewLine);
    assert_eq!(lex[8].token_type, TokenType::Field);
    assert_eq!(lex[8].content, ".field");
    assert_eq!(lex[9].token_type, TokenType::Space);
    assert_eq!(lex[10].token_type, TokenType::Visibility);
    assert_eq!(lex[10].content, "private");
    assert_eq!(lex[11].token_type, TokenType::Space);
    assert_eq!(lex[12].token_type, TokenType::FieldName);
    assert_eq!(lex[12].content, "bool:");
    assert_eq!(lex[13].token_type, TokenType::BuiltinType);
    assert_eq!(lex[13].content, "Z");
}

#[test]
fn test_invoke() {
    let lex = lex_str("    invoke-direct {p0}, Ljava/lang/Object;-><init>()V");
    assert_eq!(lex[0].token_type, TokenType::Space);
    assert_eq!(lex[1].token_type, TokenType::Invoke);
    assert_eq!(lex[1].content, "invoke-direct");
    assert_eq!(lex[2].token_type, TokenType::Space);
    assert_eq!(lex[3].token_type, TokenType::Brace);
    assert_eq!(lex[4].token_type, TokenType::Register);
    assert_eq!(lex[4].content, "p0");
    assert_eq!(lex[5].token_type, TokenType::Brace);
    assert_eq!(lex[6].token_type, TokenType::CommaOp);
    assert_eq!(lex[7].token_type, TokenType::Space);
    assert_eq!(lex[8].token_type, TokenType::Class);
    assert_eq!(lex[8].content, "Ljava/lang/Object;");
    assert_eq!(lex[9].token_type, TokenType::MethodCall);
    assert_eq!(lex[9].content, "-><init>(");
    assert_eq!(lex[10].token_type, TokenType::Paren);
    assert_eq!(lex[11].token_type, TokenType::BuiltinType);
    assert_eq!(lex[11].content, "V");
}

#[test]
fn test_class() {
    let lex = lex_str(".class public final Lme/l3af/Test;");
    assert_eq!(lex[0].token_type, TokenType::Directive);
    assert_eq!(lex[0].content, ".class");
    assert_eq!(lex[1].token_type, TokenType::Space);
    assert_eq!(lex[2].token_type, TokenType::Visibility);
    assert_eq!(lex[2].content, "public");
    assert_eq!(lex[3].token_type, TokenType::Space);
    assert_eq!(lex[4].token_type, TokenType::Modifier);
    assert_eq!(lex[4].content, "final");
    assert_eq!(lex[5].token_type, TokenType::Space);
    assert_eq!(lex[6].token_type, TokenType::Class);
    assert_eq!(lex[6].content, "Lme/l3af/Test;");
}

#[test]
fn test_source() {
    let lex = lex_str(".source \"TreecordCommands.smali\"");
    assert_eq!(lex[0].token_type, TokenType::Directive);
    assert_eq!(lex[0].content, ".source");
    assert_eq!(lex[1].token_type, TokenType::Space);
    assert_eq!(lex[2].token_type, TokenType::String);
    assert_eq!(lex[2].content, "\"TreecordCommands.smali\"");
}

#[test]
fn test_super() {
    let lex = lex_str(".super Ljava/lang/Object;");
    assert_eq!(lex[0].token_type, TokenType::Directive);
    assert_eq!(lex[0].content, ".super");
    assert_eq!(lex[1].token_type, TokenType::Space);
    assert_eq!(lex[2].token_type, TokenType::Class);
    assert_eq!(lex[2].content, "Ljava/lang/Object;");
}

#[test]
fn test_field() {
    let lex = lex_str(".field private static final Obj:Ljava/lang/Object;");
    assert_eq!(lex[0].token_type, TokenType::Field);
    assert_eq!(lex[0].content, ".field");
    assert_eq!(lex[1].token_type, TokenType::Space);
    assert_eq!(lex[2].token_type, TokenType::Visibility);
    assert_eq!(lex[2].content, "private");
    assert_eq!(lex[3].token_type, TokenType::Space);
    assert_eq!(lex[4].token_type, TokenType::Modifier);
    assert_eq!(lex[4].content, "static");
    assert_eq!(lex[5].token_type, TokenType::Space);
    assert_eq!(lex[6].token_type, TokenType::Modifier);
    assert_eq!(lex[6].content, "final");
    assert_eq!(lex[7].token_type, TokenType::Space);
    assert_eq!(lex[8].token_type, TokenType::FieldName);
    assert_eq!(lex[8].content, "Obj:");
    assert_eq!(lex[9].token_type, TokenType::Class);
    assert_eq!(lex[9].content, "Ljava/lang/Object;");
}

#[test]
fn test_method_start() {
    let lex = lex_str(".method public static constructor <clinit>()V");
    assert_eq!(lex[0].token_type, TokenType::Method);
    assert_eq!(lex[0].content, ".method");
    assert_eq!(lex[1].token_type, TokenType::Space);
    assert_eq!(lex[2].token_type, TokenType::Visibility);
    assert_eq!(lex[2].content, "public");
    assert_eq!(lex[3].token_type, TokenType::Space);
    assert_eq!(lex[4].token_type, TokenType::Modifier);
    assert_eq!(lex[4].content, "static");
    assert_eq!(lex[5].token_type, TokenType::Space);
    assert_eq!(lex[6].token_type, TokenType::Modifier);
    assert_eq!(lex[6].content, "constructor");
    assert_eq!(lex[7].token_type, TokenType::Space);
    assert_eq!(lex[8].token_type, TokenType::MethodName);
    assert_eq!(lex[8].content, "<clinit>(");
    assert_eq!(lex[9].token_type, TokenType::Paren);
    assert_eq!(lex[10].token_type, TokenType::BuiltinType);
    assert_eq!(lex[10].content, "V");
}

#[test]
fn test_method_end() {
    let lex = lex_str(".end method");
    assert_eq!(lex[0].token_type, TokenType::Method);
    assert_eq!(lex[0].content, ".end method");
}

#[test]
fn test_goto() {
    let lex = lex_str(".goto :goto_12");
    assert_eq!(lex[0].token_type, TokenType::Directive);
    assert_eq!(lex[0].content, ".goto");
    assert_eq!(lex[1].token_type, TokenType::Space);
    assert_eq!(lex[2].token_type, TokenType::Label);
    assert_eq!(lex[2].content, ":goto_12");
}

#[test]
fn tokens_cover_input_exactly() {
    let inputs = [
        ".class public Ltest/Test;\n.super Ljava/lang/Object;\n",
        "random ??? text @@ with $ unmatched ~ bytes",
        "",
        "\n\n\n",
        "const/16 v0, 0x1f # trailing comment",
        "{{template/slot_1}} .. [ , \"str\"",
    ];
    for input in inputs {
        let rebuilt: String = lex_str(input).into_iter().map(|t| t.content).collect();
        assert_eq!(rebuilt, input);
    }
}

#[test]
fn unmatched_text_becomes_error_tokens() {
    let lex = lex_str("?");
    assert_eq!(lex.len(), 1);
    assert_eq!(lex[0].token_type, TokenType::Error);
    assert_eq!(lex[0].content, "?");
}

#[test]
fn longest_match_wins() {
    let lex = lex_str("const-string/jumbo");
    assert_eq!(lex[0].token_type, TokenType::ConstString);
    assert_eq!(lex[0].content, "const-string/jumbo");

    let lex = lex_str("const-class");
    assert_eq!(lex[0].token_type, TokenType::Const);
    assert_eq!(lex[0].content, "const-class");

    let lex = lex_str(".locals");
    assert_eq!(lex[0].token_type, TokenType::Directive);
    assert_eq!(lex[0].content, ".locals");

    let lex = lex_str("return-wide");
    assert_eq!(lex[0].token_type, TokenType::Return);
    assert_eq!(lex[0].content, "return-wide");

    let lex = lex_str("if-eqz");
    assert_eq!(lex[0].token_type, TokenType::If);
    assert_eq!(lex[0].content, "if-eqz");

    let lex = lex_str("invoke-interface/range");
    assert_eq!(lex[0].token_type, TokenType::Invoke);
    assert_eq!(lex[0].content, "invoke-interface/range");

    let lex = lex_str("-0x12");
    assert_eq!(lex[0].token_type, TokenType::Number);
    assert_eq!(lex[0].content, "-0x12");

    let lex = lex_str("iget-object");
    assert_eq!(lex[0].token_type, TokenType::IGet);
    assert_eq!(lex[0].content, "iget-object");
}
