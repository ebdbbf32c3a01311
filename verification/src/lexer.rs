//! The tokenizer: classifies every character of the input into a closed set
//! of lexical categories. At each position the longest match wins, earlier
//! categories winning ties; text that no pattern matches becomes a
//! one-character `Error` token, so the token stream always covers the whole
//! input.
use vstd::prelude::*;
use vstd::string::StrSliceExecFns;

use crate::patterns::{
    lit_at, lit_here, run_len, run_scan, CharClass, lemma_run_len_bounds,
};
use crate::position::{pos_of, range_to_lsp_range, RangeModel, TextRange};

verus! {

/// The lexical categories of the language.
#[derive(Clone, Copy, Debug, PartialEq, Eq, Structural)]
pub enum TokenType {
    NewLine,
    Comment,
    Visibility,
    Modifier,
    Space,
    Class,
    Register,
    Method,
    Field,
    Label,
    Directive,
    Invoke,
    CheckCast,
    NewInstance,
    ConstString,
    ConstInt,
    Const,
    If,
    IGet,
    SGet,
    IPut,
    SPut,
    Move,
    Return,
    String,
    Number,
    TreecordMacro,
    Brace,
    Paren,
    BuiltinType,
    MethodCall,
    MethodName,
    FieldName,
    ArrayOp,
    RangeOp,
    CommaOp,
    Error,
}

/// A token: its span in line/column coordinates, the text it covers, and its
/// category.
#[derive(Debug, PartialEq)]
pub struct Token {
    pub range: TextRange,
    pub content: std::string::String,
    pub token_type: TokenType,
}

/// Mathematical image of a `Token`.
pub ghost struct TokenModel {
    pub range: RangeModel,
    pub content: Seq<char>,
    pub token_type: TokenType,
}

impl View for Token {
    type V = TokenModel;

    open spec fn view(&self) -> TokenModel {
        TokenModel { range: self.range@, content: self.content@, token_type: self.token_type }
    }
}

/// The views of a sequence of tokens.
pub open spec fn token_views(ts: Seq<Token>) -> Seq<TokenModel> {
    ts.map(|j: int, t: Token| t@)
}

pub open spec fn newline_len(s: Seq<char>, i: int) -> int {
    if 0 <= i < s.len() && s[i] == '\n' {
        1
    } else {
        0
    }
}

pub open spec fn comment_len(s: Seq<char>, i: int) -> int {
    if 0 <= i < s.len() && s[i] == '#' {
        1 + run_len(s, i + 1, CharClass::NotNewline)
    } else {
        0
    }
}

pub open spec fn visibility_len(s: Seq<char>, i: int) -> int {
    if lit_at(s, i, "protected"@) {
        9
    } else if lit_at(s, i, "private"@) {
        7
    } else if lit_at(s, i, "public"@) {
        6
    } else {
        0
    }
}

pub open spec fn modifier_len(s: Seq<char>, i: int) -> int {
    if lit_at(s, i, "constructor"@) {
        11
    } else if lit_at(s, i, "synthetic"@) {
        9
    } else if lit_at(s, i, "static"@) {
        6
    } else if lit_at(s, i, "final"@) {
        5
    } else {
        0
    }
}

pub open spec fn space_len(s: Seq<char>, i: int) -> int {
    if i >= 0 {
        run_len(s, i, CharClass::SpaceTab)
    } else {
        0
    }
}

pub open spec fn class_len(s: Seq<char>, i: int) -> int {
    if 0 <= i < s.len() && s[i] == 'L' {
        let r = run_len(s, i + 1, CharClass::ClassChar);
        if i + 1 + r < s.len() && s[i + 1 + r] == ';' {
            r + 2
        } else {
            0
        }
    } else {
        0
    }
}

pub open spec fn register_len(s: Seq<char>, i: int) -> int {
    if 0 <= i < s.len() && (s[i] == 'p' || s[i] == 'v') {
        let r = run_len(s, i + 1, CharClass::Digit);
        if r > 0 {
            1 + r
        } else {
            0
        }
    } else {
        0
    }
}

pub open spec fn method_len(s: Seq<char>, i: int) -> int {
    if lit_at(s, i, ".end method"@) {
        11
    } else if lit_at(s, i, ".method"@) {
        7
    } else {
        0
    }
}

pub open spec fn field_len(s: Seq<char>, i: int) -> int {
    if lit_at(s, i, ".end field"@) {
        10
    } else if lit_at(s, i, ".field"@) {
        6
    } else {
        0
    }
}

pub open spec fn label_len(s: Seq<char>, i: int) -> int {
    if lit_at(s, i, ":goto_"@) || lit_at(s, i, ":cond_"@) {
        let r = run_len(s, i + 6, CharClass::Digit);
        if r > 0 {
            6 + r
        } else {
            0
        }
    } else {
        0
    }
}

pub open spec fn directive_len(s: Seq<char>, i: int) -> int {
    if lit_at(s, i, ".implements"@) {
        11
    } else if lit_at(s, i, ".registers"@) {
        10
    } else if lit_at(s, i, ".prologue"@) {
        9
    } else if lit_at(s, i, ".source"@) {
        7
    } else if lit_at(s, i, ".locals"@) {
        7
    } else if lit_at(s, i, ".class"@) {
        6
    } else if lit_at(s, i, ".super"@) {
        6
    } else if lit_at(s, i, ".local"@) {
        6
    } else if lit_at(s, i, ".line"@) {
        5
    } else if lit_at(s, i, ".goto"@) {
        5
    } else {
        0
    }
}

pub open spec fn invoke_len(s: Seq<char>, i: int) -> int {
    let base: int = if lit_at(s, i, "invoke-interface"@) {
        16
    } else if lit_at(s, i, "invoke-virtual"@) {
        14
    } else if lit_at(s, i, "invoke-direct"@) {
        13
    } else if lit_at(s, i, "invoke-static"@) {
        13
    } else {
        0
    };
    if base == 0 {
        0
    } else if lit_at(s, i + base, "/range"@) {
        base + 6
    } else {
        base
    }
}

pub open spec fn check_cast_len(s: Seq<char>, i: int) -> int {
    if lit_at(s, i, "check-cast"@) {
        10
    } else {
        0
    }
}

pub open spec fn new_instance_len(s: Seq<char>, i: int) -> int {
    if lit_at(s, i, "new-instance"@) {
        12
    } else {
        0
    }
}

pub open spec fn const_string_len(s: Seq<char>, i: int) -> int {
    if lit_at(s, i, "const-string/jumbo"@) {
        18
    } else if lit_at(s, i, "const-string"@) {
        12
    } else {
        0
    }
}

pub open spec fn const_int_len(s: Seq<char>, i: int) -> int {
    if lit_at(s, i, "const/16"@) {
        8
    } else if lit_at(s, i, "const/4"@) {
        7
    } else {
        0
    }
}

pub open spec fn const_len(s: Seq<char>, i: int) -> int {
    if lit_at(s, i, "const-class"@) {
        11
    } else if lit_at(s, i, "const"@) {
        5
    } else {
        0
    }
}

pub open spec fn if_len(s: Seq<char>, i: int) -> int {
    if lit_at(s, i, "if-lt"@) || lit_at(s, i, "if-le"@) || lit_at(s, i, "if-gt"@) || lit_at(
        s,
        i,
        "if-ge"@,
    ) || lit_at(s, i, "if-eq"@) || lit_at(s, i, "if-ne"@) {
        if i + 5 < s.len() && s[i + 5] == 'z' {
            6
        } else {
            5
        }
    } else {
        0
    }
}

/// Shared shape of the four load/store instruction families: a four-letter
/// base, optionally followed by a width suffix.
pub open spec fn getput_len(s: Seq<char>, i: int, base: Seq<char>) -> int {
    if lit_at(s, i, base) {
        if lit_at(s, i + 4, "-object"@) {
            11
        } else if lit_at(s, i + 4, "-string"@) {
            11
        } else if lit_at(s, i + 4, "-wide"@) {
            9
        } else {
            4
        }
    } else {
        0
    }
}

pub open spec fn move_len(s: Seq<char>, i: int) -> int {
    if lit_at(s, i, "move-result-object"@) {
        18
    } else if lit_at(s, i, "move-result"@) {
        11
    } else if lit_at(s, i, "move-"@) {
        5
    } else if lit_at(s, i, "move"@) {
        4
    } else {
        0
    }
}

pub open spec fn return_len(s: Seq<char>, i: int) -> int {
    if lit_at(s, i, "return-object"@) {
        13
    } else if lit_at(s, i, "return-void"@) {
        11
    } else if lit_at(s, i, "return-wide"@) {
        11
    } else if lit_at(s, i, "return"@) {
        6
    } else {
        0
    }
}

pub open spec fn string_len(s: Seq<char>, i: int) -> int {
    if 0 <= i < s.len() && s[i] == '"' {
        let r = run_len(s, i + 1, CharClass::NotQuote);
        if i + 1 + r < s.len() && s[i + 1 + r] == '"' {
            r + 2
        } else {
            0
        }
    } else {
        0
    }
}

pub open spec fn number_len(s: Seq<char>, i: int) -> int {
    if 0 <= i < s.len() {
        let neg: int = if s[i] == '-' {
            1
        } else {
            0
        };
        let hex: int = if lit_at(s, i + neg, "0x"@) {
            let r = run_len(s, i + neg + 2, CharClass::Digit);
            if r > 0 {
                neg + 2 + r
            } else {
                0
            }
        } else {
            0
        };
        let plain: int = {
            let r = run_len(s, i + neg, CharClass::Digit);
            if r > 0 {
                neg + r
            } else {
                0
            }
        };
        if hex > plain {
            hex
        } else {
            plain
        }
    } else {
        0
    }
}

pub open spec fn treecord_len(s: Seq<char>, i: int) -> int {
    if lit_at(s, i, "{{"@) {
        let r = run_len(s, i + 2, CharClass::MacroChar);
        if lit_at(s, i + 2 + r, "}}"@) {
            r + 4
        } else {
            0
        }
    } else {
        0
    }
}

pub open spec fn brace_len(s: Seq<char>, i: int) -> int {
    if 0 <= i < s.len() && (s[i] == '{' || s[i] == '}') {
        1
    } else {
        0
    }
}

pub open spec fn paren_len(s: Seq<char>, i: int) -> int {
    if 0 <= i < s.len() && (s[i] == '(' || s[i] == ')') {
        1
    } else {
        0
    }
}

pub open spec fn builtin_len(s: Seq<char>, i: int) -> int {
    if 0 <= i < s.len() && (s[i] == 'V' || s[i] == 'Z' || s[i] == 'B' || s[i] == 'S' || s[i] == 'C'
        || s[i] == 'I' || s[i] == 'J' || s[i] == 'F' || s[i] == 'D') {
        1
    } else {
        0
    }
}

pub open spec fn method_call_len(s: Seq<char>, i: int) -> int {
    if lit_at(s, i, "->"@) {
        let r = run_len(s, i + 2, CharClass::NameChar);
        if r > 0 && i + 2 + r < s.len() && s[i + 2 + r] == '(' {
            r + 3
        } else {
            0
        }
    } else {
        0
    }
}

pub open spec fn method_name_len(s: Seq<char>, i: int) -> int {
    if i >= 0 {
        let r = run_len(s, i, CharClass::NameChar);
        if r > 0 && i + r < s.len() && s[i + r] == '(' {
            r + 1
        } else {
            0
        }
    } else {
        0
    }
}

pub open spec fn field_name_len(s: Seq<char>, i: int) -> int {
    if i >= 0 {
        let r = run_len(s, i, CharClass::FieldChar);
        if r > 0 && i + r < s.len() && s[i + r] == ':' {
            r + 1
        } else {
            0
        }
    } else {
        0
    }
}

pub open spec fn array_op_len(s: Seq<char>, i: int) -> int {
    if 0 <= i < s.len() && s[i] == '[' {
        1
    } else {
        0
    }
}

pub open spec fn range_op_len(s: Seq<char>, i: int) -> int {
    if lit_at(s, i, ".."@) {
        2
    } else {
        0
    }
}

pub open spec fn comma_op_len(s: Seq<char>, i: int) -> int {
    if 0 <= i < s.len() && s[i] == ',' {
        1
    } else {
        0
    }
}

/// The match length of category `k` at position `i`, or zero if it does not
/// match there.
pub open spec fn kind_len(s: Seq<char>, i: int, k: TokenType) -> int {
    match k {
        TokenType::NewLine => newline_len(s, i),
        TokenType::Comment => comment_len(s, i),
        TokenType::Visibility => visibility_len(s, i),
        TokenType::Modifier => modifier_len(s, i),
        TokenType::Space => space_len(s, i),
        TokenType::Class => class_len(s, i),
        TokenType::Register => register_len(s, i),
        TokenType::Method => method_len(s, i),
        TokenType::Field => field_len(s, i),
        TokenType::Label => label_len(s, i),
        TokenType::Directive => directive_len(s, i),
        TokenType::Invoke => invoke_len(s, i),
        TokenType::CheckCast => check_cast_len(s, i),
        TokenType::NewInstance => new_instance_len(s, i),
        TokenType::ConstString => const_string_len(s, i),
        TokenType::ConstInt => const_int_len(s, i),
        TokenType::Const => const_len(s, i),
        TokenType::If => if_len(s, i),
        TokenType::IGet => getput_len(s, i, "iget"@),
        TokenType::SGet => getput_len(s, i, "sget"@),
        TokenType::IPut => getput_len(s, i, "iput"@),
        TokenType::SPut => getput_len(s, i, "sput"@),
        TokenType::Move => move_len(s, i),
        TokenType::Return => return_len(s, i),
        TokenType::String => string_len(s, i),
        TokenType::Number => number_len(s, i),
        TokenType::TreecordMacro => treecord_len(s, i),
        TokenType::Brace => brace_len(s, i),
        TokenType::Paren => paren_len(s, i),
        TokenType::BuiltinType => builtin_len(s, i),
        TokenType::MethodCall => method_call_len(s, i),
        TokenType::MethodName => method_name_len(s, i),
        TokenType::FieldName => field_name_len(s, i),
        TokenType::ArrayOp => array_op_len(s, i),
        TokenType::RangeOp => range_op_len(s, i),
        TokenType::CommaOp => comma_op_len(s, i),
        TokenType::Error => 0,
    }
}

/// Keep the better of the running best and a candidate: a candidate wins only
/// by matching strictly more text, so earlier categories win ties.
pub open spec fn best2(b: (TokenType, int), k: TokenType, l: int) -> (TokenType, int) {
    if l > b.1 {
        (k, l)
    } else {
        b
    }
}

/// The best candidate after the first group of categories competes.
pub open spec fn best_q1(s: Seq<char>, i: int) -> (TokenType, int) {
    let b = best2((TokenType::Error, 0), TokenType::NewLine, newline_len(s, i));
    let b = best2(b, TokenType::Comment, comment_len(s, i));
    let b = best2(b, TokenType::Visibility, visibility_len(s, i));
    let b = best2(b, TokenType::Modifier, modifier_len(s, i));
    let b = best2(b, TokenType::Space, space_len(s, i));
    let b = best2(b, TokenType::Class, class_len(s, i));
    let b = best2(b, TokenType::Register, register_len(s, i));
    let b = best2(b, TokenType::Method, method_len(s, i));
    let b = best2(b, TokenType::Field, field_len(s, i));
    b
}

/// The best candidate after a further group of categories competes.
pub open spec fn best_q2(s: Seq<char>, i: int, p: (TokenType, int)) -> (TokenType, int) {
    let b = best2(p, TokenType::Label, label_len(s, i));
    let b = best2(b, TokenType::Directive, directive_len(s, i));
    let b = best2(b, TokenType::Invoke, invoke_len(s, i));
    let b = best2(b, TokenType::CheckCast, check_cast_len(s, i));
    let b = best2(b, TokenType::NewInstance, new_instance_len(s, i));
    let b = best2(b, TokenType::ConstString, const_string_len(s, i));
    let b = best2(b, TokenType::ConstInt, const_int_len(s, i));
    let b = best2(b, TokenType::Const, const_len(s, i));
    let b = best2(b, TokenType::If, if_len(s, i));
    b
}

/// The best candidate after a further group of categories competes.
pub open spec fn best_q3(s: Seq<char>, i: int, p: (TokenType, int)) -> (TokenType, int) {
    let b = best2(p, TokenType::IGet, getput_len(s, i, "iget"@));
    let b = best2(b, TokenType::SGet, getput_len(s, i, "sget"@));
    let b = best2(b, TokenType::IPut, getput_len(s, i, "iput"@));
    let b = best2(b, TokenType::SPut, getput_len(s, i, "sput"@));
    let b = best2(b, TokenType::Move, move_len(s, i));
    let b = best2(b, TokenType::Return, return_len(s, i));
    let b = best2(b, TokenType::String, string_len(s, i));
    let b = best2(b, TokenType::Number, number_len(s, i));
    let b = best2(b, TokenType::TreecordMacro, treecord_len(s, i));
    b
}

/// The best candidate after a further group of categories competes.
pub open spec fn best_q4(s: Seq<char>, i: int, p: (TokenType, int)) -> (TokenType, int) {
    let b = best2(p, TokenType::Brace, brace_len(s, i));
    let b = best2(b, TokenType::Paren, paren_len(s, i));
    let b = best2(b, TokenType::BuiltinType, builtin_len(s, i));
    let b = best2(b, TokenType::MethodCall, method_call_len(s, i));
    let b = best2(b, TokenType::MethodName, method_name_len(s, i));
    let b = best2(b, TokenType::FieldName, field_name_len(s, i));
    let b = best2(b, TokenType::ArrayOp, array_op_len(s, i));
    let b = best2(b, TokenType::RangeOp, range_op_len(s, i));
    let b = best2(b, TokenType::CommaOp, comma_op_len(s, i));
    b
}

/// The token at position `i`: the longest-matching category, earlier
/// categories winning ties; one `Error` character if nothing matches.
pub open spec fn token_at(s: Seq<char>, i: int) -> (TokenType, int) {
    let b = best_q4(s, i, best_q3(s, i, best_q2(s, i, best_q1(s, i))));
    if b.1 < 1 {
        (TokenType::Error, 1)
    } else {
        b
    }
}

fn scan_newline(s: &str, sl: usize, i: usize) -> (n: usize)
    requires
        sl == s@.len(),
        i < sl,
    ensures
        n as int == newline_len(s@, i as int),
        n != 0 ==> i + n <= sl,
{
    if s.get_char(i) == '\n' {
        1
    } else {
        0
    }
}

fn scan_comment(s: &str, sl: usize, i: usize) -> (n: usize)
    requires
        sl == s@.len(),
        i < sl,
    ensures
        n as int == comment_len(s@, i as int),
        n != 0 ==> i + n <= sl,
{
    if s.get_char(i) == '#' {
        1 + run_scan(s, sl, i + 1, CharClass::NotNewline)
    } else {
        0
    }
}

fn scan_visibility(s: &str, sl: usize, i: usize) -> (n: usize)
    requires
        sl == s@.len(),
        i < sl,
    ensures
        n as int == visibility_len(s@, i as int),
        n != 0 ==> i + n <= sl,
{
    proof {
        reveal_strlit("protected");
        reveal_strlit("private");
        reveal_strlit("public");
    }
    if lit_here(s, sl, i, "protected") {
        9
    } else if lit_here(s, sl, i, "private") {
        7
    } else if lit_here(s, sl, i, "public") {
        6
    } else {
        0
    }
}

fn scan_modifier(s: &str, sl: usize, i: usize) -> (n: usize)
    requires
        sl == s@.len(),
        i < sl,
    ensures
        n as int == modifier_len(s@, i as int),
        n != 0 ==> i + n <= sl,
{
    proof {
        reveal_strlit("constructor");
        reveal_strlit("synthetic");
        reveal_strlit("static");
        reveal_strlit("final");
    }
    if lit_here(s, sl, i, "constructor") {
        11
    } else if lit_here(s, sl, i, "synthetic") {
        9
    } else if lit_here(s, sl, i, "static") {
        6
    } else if lit_here(s, sl, i, "final") {
        5
    } else {
        0
    }
}

fn scan_space(s: &str, sl: usize, i: usize) -> (n: usize)
    requires
        sl == s@.len(),
        i < sl,
    ensures
        n as int == space_len(s@, i as int),
        n != 0 ==> i + n <= sl,
{
    run_scan(s, sl, i, CharClass::SpaceTab)
}

fn scan_class(s: &str, sl: usize, i: usize) -> (n: usize)
    requires
        sl == s@.len(),
        i < sl,
    ensures
        n as int == class_len(s@, i as int),
        n != 0 ==> i + n <= sl,
{
    if s.get_char(i) == 'L' {
        let r = run_scan(s, sl, i + 1, CharClass::ClassChar);
        if i + 1 + r < sl && s.get_char(i + 1 + r) == ';' {
            r + 2
        } else {
            0
        }
    } else {
        0
    }
}

fn scan_register(s: &str, sl: usize, i: usize) -> (n: usize)
    requires
        sl == s@.len(),
        i < sl,
    ensures
        n as int == register_len(s@, i as int),
        n != 0 ==> i + n <= sl,
{
    let c = s.get_char(i);
    if c == 'p' || c == 'v' {
        let r = run_scan(s, sl, i + 1, CharClass::Digit);
        if r > 0 {
            1 + r
        } else {
            0
        }
    } else {
        0
    }
}

fn scan_method(s: &str, sl: usize, i: usize) -> (n: usize)
    requires
        sl == s@.len(),
        i < sl,
    ensures
        n as int == method_len(s@, i as int),
        n != 0 ==> i + n <= sl,
{
    proof {
        reveal_strlit(".end method");
        reveal_strlit(".method");
    }
    if lit_here(s, sl, i, ".end method") {
        11
    } else if lit_here(s, sl, i, ".method") {
        7
    } else {
        0
    }
}

fn scan_field(s: &str, sl: usize, i: usize) -> (n: usize)
    requires
        sl == s@.len(),
        i < sl,
    ensures
        n as int == field_len(s@, i as int),
        n != 0 ==> i + n <= sl,
{
    proof {
        reveal_strlit(".end field");
        reveal_strlit(".field");
    }
    if lit_here(s, sl, i, ".end field") {
        10
    } else if lit_here(s, sl, i, ".field") {
        6
    } else {
        0
    }
}

fn scan_label(s: &str, sl: usize, i: usize) -> (n: usize)
    requires
        sl == s@.len(),
        i < sl,
    ensures
        n as int == label_len(s@, i as int),
        n != 0 ==> i + n <= sl,
{
    proof {
        reveal_strlit(":goto_");
        reveal_strlit(":cond_");
    }
    if lit_here(s, sl, i, ":goto_") || lit_here(s, sl, i, ":cond_") {
        let r = run_scan(s, sl, i + 6, CharClass::Digit);
        if r > 0 {
            6 + r
        } else {
            0
        }
    } else {
        0
    }
}

fn scan_directive(s: &str, sl: usize, i: usize) -> (n: usize)
    requires
        sl == s@.len(),
        i < sl,
    ensures
        n as int == directive_len(s@, i as int),
        n != 0 ==> i + n <= sl,
{
    proof {
        reveal_strlit(".implements");
        reveal_strlit(".registers");
        reveal_strlit(".prologue");
        reveal_strlit(".source");
        reveal_strlit(".locals");
        reveal_strlit(".class");
        reveal_strlit(".super");
        reveal_strlit(".local");
        reveal_strlit(".line");
        reveal_strlit(".goto");
    }
    if lit_here(s, sl, i, ".implements") {
        11
    } else if lit_here(s, sl, i, ".registers") {
        10
    } else if lit_here(s, sl, i, ".prologue") {
        9
    } else if lit_here(s, sl, i, ".source") {
        7
    } else if lit_here(s, sl, i, ".locals") {
        7
    } else if lit_here(s, sl, i, ".class") {
        6
    } else if lit_here(s, sl, i, ".super") {
        6
    } else if lit_here(s, sl, i, ".local") {
        6
    } else if lit_here(s, sl, i, ".line") {
        5
    } else if lit_here(s, sl, i, ".goto") {
        5
    } else {
        0
    }
}

fn scan_invoke(s: &str, sl: usize, i: usize) -> (n: usize)
    requires
        sl == s@.len(),
        i < sl,
    ensures
        n as int == invoke_len(s@, i as int),
        n != 0 ==> i + n <= sl,
{
    proof {
        reveal_strlit("invoke-interface");
        reveal_strlit("invoke-virtual");
        reveal_strlit("invoke-direct");
        reveal_strlit("invoke-static");
        reveal_strlit("/range");
    }
    let base: usize = if lit_here(s, sl, i, "invoke-interface") {
        16
    } else if lit_here(s, sl, i, "invoke-virtual") {
        14
    } else if lit_here(s, sl, i, "invoke-direct") {
        13
    } else if lit_here(s, sl, i, "invoke-static") {
        13
    } else {
        0
    };
    if base == 0 {
        0
    } else if lit_here(s, sl, i + base, "/range") {
        base + 6
    } else {
        base
    }
}

fn scan_check_cast(s: &str, sl: usize, i: usize) -> (n: usize)
    requires
        sl == s@.len(),
        i < sl,
    ensures
        n as int == check_cast_len(s@, i as int),
        n != 0 ==> i + n <= sl,
{
    proof {
        reveal_strlit("check-cast");
    }
    if lit_here(s, sl, i, "check-cast") {
        10
    } else {
        0
    }
}

fn scan_new_instance(s: &str, sl: usize, i: usize) -> (n: usize)
    requires
        sl == s@.len(),
        i < sl,
    ensures
        n as int == new_instance_len(s@, i as int),
        n != 0 ==> i + n <= sl,
{
    proof {
        reveal_strlit("new-instance");
    }
    if lit_here(s, sl, i, "new-instance") {
        12
    } else {
        0
    }
}

fn scan_const_string(s: &str, sl: usize, i: usize) -> (n: usize)
    requires
        sl == s@.len(),
        i < sl,
    ensures
        n as int == const_string_len(s@, i as int),
        n != 0 ==> i + n <= sl,
{
    proof {
        reveal_strlit("const-string/jumbo");
        reveal_strlit("const-string");
    }
    if lit_here(s, sl, i, "const-string/jumbo") {
        18
    } else if lit_here(s, sl, i, "const-string") {
        12
    } else {
        0
    }
}

fn scan_const_int(s: &str, sl: usize, i: usize) -> (n: usize)
    requires
        sl == s@.len(),
        i < sl,
    ensures
        n as int == const_int_len(s@, i as int),
        n != 0 ==> i + n <= sl,
{
    proof {
        reveal_strlit("const/16");
        reveal_strlit("const/4");
    }
    if lit_here(s, sl, i, "const/16") {
        8
    } else if lit_here(s, sl, i, "const/4") {
        7
    } else {
        0
    }
}

fn scan_const(s: &str, sl: usize, i: usize) -> (n: usize)
    requires
        sl == s@.len(),
        i < sl,
    ensures
        n as int == const_len(s@, i as int),
        n != 0 ==> i + n <= sl,
{
    proof {
        reveal_strlit("const-class");
        reveal_strlit("const");
    }
    if lit_here(s, sl, i, "const-class") {
        11
    } else if lit_here(s, sl, i, "const") {
        5
    } else {
        0
    }
}

fn scan_if(s: &str, sl: usize, i: usize) -> (n: usize)
    requires
        sl == s@.len(),
        i < sl,
    ensures
        n as int == if_len(s@, i as int),
        n != 0 ==> i + n <= sl,
{
    proof {
        reveal_strlit("if-lt");
        reveal_strlit("if-le");
        reveal_strlit("if-gt");
        reveal_strlit("if-ge");
        reveal_strlit("if-eq");
        reveal_strlit("if-ne");
    }
    if lit_here(s, sl, i, "if-lt") || lit_here(s, sl, i, "if-le") || lit_here(s, sl, i, "if-gt")
        || lit_here(s, sl, i, "if-ge") || lit_here(s, sl, i, "if-eq") || lit_here(
        s,
        sl,
        i,
        "if-ne",
    ) {
        if i + 5 < sl && s.get_char(i + 5) == 'z' {
            6
        } else {
            5
        }
    } else {
        0
    }
}

fn scan_getput(s: &str, sl: usize, i: usize, base: &str) -> (n: usize)
    requires
        sl == s@.len(),
        i < sl,
        base@.len() == 4,
    ensures
        n as int == getput_len(s@, i as int, base@),
        n != 0 ==> i + n <= sl,
{
    proof {
        reveal_strlit("-object");
        reveal_strlit("-string");
        reveal_strlit("-wide");
    }
    if lit_here(s, sl, i, base) {
        if lit_here(s, sl, i + 4, "-object") {
            11
        } else if lit_here(s, sl, i + 4, "-string") {
            11
        } else if lit_here(s, sl, i + 4, "-wide") {
            9
        } else {
            4
        }
    } else {
        0
    }
}

fn scan_move(s: &str, sl: usize, i: usize) -> (n: usize)
    requires
        sl == s@.len(),
        i < sl,
    ensures
        n as int == move_len(s@, i as int),
        n != 0 ==> i + n <= sl,
{
    proof {
        reveal_strlit("move-result-object");
        reveal_strlit("move-result");
        reveal_strlit("move-");
        reveal_strlit("move");
    }
    if lit_here(s, sl, i, "move-result-object") {
        18
    } else if lit_here(s, sl, i, "move-result") {
        11
    } else if lit_here(s, sl, i, "move-") {
        5
    } else if lit_here(s, sl, i, "move") {
        4
    } else {
        0
    }
}

fn scan_return(s: &str, sl: usize, i: usize) -> (n: usize)
    requires
        sl == s@.len(),
        i < sl,
    ensures
        n as int == return_len(s@, i as int),
        n != 0 ==> i + n <= sl,
{
    proof {
        reveal_strlit("return-object");
        reveal_strlit("return-void");
        reveal_strlit("return-wide");
        reveal_strlit("return");
    }
    if lit_here(s, sl, i, "return-object") {
        13
    } else if lit_here(s, sl, i, "return-void") {
        11
    } else if lit_here(s, sl, i, "return-wide") {
        11
    } else if lit_here(s, sl, i, "return") {
        6
    } else {
        0
    }
}

fn scan_string(s: &str, sl: usize, i: usize) -> (n: usize)
    requires
        sl == s@.len(),
        i < sl,
    ensures
        n as int == string_len(s@, i as int),
        n != 0 ==> i + n <= sl,
{
    if s.get_char(i) == '"' {
        let r = run_scan(s, sl, i + 1, CharClass::NotQuote);
        if i + 1 + r < sl && s.get_char(i + 1 + r) == '"' {
            r + 2
        } else {
            0
        }
    } else {
        0
    }
}

fn scan_number(s: &str, sl: usize, i: usize) -> (n: usize)
    requires
        sl == s@.len(),
        i < sl,
    ensures
        n as int == number_len(s@, i as int),
        n != 0 ==> i + n <= sl,
{
    proof {
        reveal_strlit("0x");
    }
    let neg: usize = if s.get_char(i) == '-' {
        1
    } else {
        0
    };
    let hex: usize = if lit_here(s, sl, i + neg, "0x") {
        let r = run_scan(s, sl, i + neg + 2, CharClass::Digit);
        if r > 0 {
            neg + 2 + r
        } else {
            0
        }
    } else {
        0
    };
    let plain: usize = {
        let r = run_scan(s, sl, i + neg, CharClass::Digit);
        if r > 0 {
            neg + r
        } else {
            0
        }
    };
    if hex > plain {
        hex
    } else {
        plain
    }
}

fn scan_treecord(s: &str, sl: usize, i: usize) -> (n: usize)
    requires
        sl == s@.len(),
        i < sl,
    ensures
        n as int == treecord_len(s@, i as int),
        n != 0 ==> i + n <= sl,
{
    proof {
        reveal_strlit("{{");
        reveal_strlit("}}");
    }
    if lit_here(s, sl, i, "{{") {
        let r = run_scan(s, sl, i + 2, CharClass::MacroChar);
        if lit_here(s, sl, i + 2 + r, "}}") {
            r + 4
        } else {
            0
        }
    } else {
        0
    }
}

fn scan_brace(s: &str, sl: usize, i: usize) -> (n: usize)
    requires
        sl == s@.len(),
        i < sl,
    ensures
        n as int == brace_len(s@, i as int),
        n != 0 ==> i + n <= sl,
{
    let c = s.get_char(i);
    if c == '{' || c == '}' {
        1
    } else {
        0
    }
}

fn scan_paren(s: &str, sl: usize, i: usize) -> (n: usize)
    requires
        sl == s@.len(),
        i < sl,
    ensures
        n as int == paren_len(s@, i as int),
        n != 0 ==> i + n <= sl,
{
    let c = s.get_char(i);
    if c == '(' || c == ')' {
        1
    } else {
        0
    }
}

fn scan_builtin(s: &str, sl: usize, i: usize) -> (n: usize)
    requires
        sl == s@.len(),
        i < sl,
    ensures
        n as int == builtin_len(s@, i as int),
        n != 0 ==> i + n <= sl,
{
    let c = s.get_char(i);
    if c == 'V' || c == 'Z' || c == 'B' || c == 'S' || c == 'C' || c == 'I' || c == 'J' || c == 'F'
        || c == 'D' {
        1
    } else {
        0
    }
}

fn scan_method_call(s: &str, sl: usize, i: usize) -> (n: usize)
    requires
        sl == s@.len(),
        i < sl,
    ensures
        n as int == method_call_len(s@, i as int),
        n != 0 ==> i + n <= sl,
{
    proof {
        reveal_strlit("->");
    }
    if lit_here(s, sl, i, "->") {
        let r = run_scan(s, sl, i + 2, CharClass::NameChar);
        if r > 0 && i + 2 + r < sl && s.get_char(i + 2 + r) == '(' {
            r + 3
        } else {
            0
        }
    } else {
        0
    }
}

fn scan_method_name(s: &str, sl: usize, i: usize) -> (n: usize)
    requires
        sl == s@.len(),
        i < sl,
    ensures
        n as int == method_name_len(s@, i as int),
        n != 0 ==> i + n <= sl,
{
    let r = run_scan(s, sl, i, CharClass::NameChar);
    if r > 0 && i + r < sl && s.get_char(i + r) == '(' {
        r + 1
    } else {
        0
    }
}

fn scan_field_name(s: &str, sl: usize, i: usize) -> (n: usize)
    requires
        sl == s@.len(),
        i < sl,
    ensures
        n as int == field_name_len(s@, i as int),
        n != 0 ==> i + n <= sl,
{
    let r = run_scan(s, sl, i, CharClass::FieldChar);
    if r > 0 && i + r < sl && s.get_char(i + r) == ':' {
        r + 1
    } else {
        0
    }
}

fn scan_array_op(s: &str, sl: usize, i: usize) -> (n: usize)
    requires
        sl == s@.len(),
        i < sl,
    ensures
        n as int == array_op_len(s@, i as int),
        n != 0 ==> i + n <= sl,
{
    if s.get_char(i) == '[' {
        1
    } else {
        0
    }
}

fn scan_range_op(s: &str, sl: usize, i: usize) -> (n: usize)
    requires
        sl == s@.len(),
        i < sl,
    ensures
        n as int == range_op_len(s@, i as int),
        n != 0 ==> i + n <= sl,
{
    proof {
        reveal_strlit("..");
    }
    if lit_here(s, sl, i, "..") {
        2
    } else {
        0
    }
}

fn scan_comma_op(s: &str, sl: usize, i: usize) -> (n: usize)
    requires
        sl == s@.len(),
        i < sl,
    ensures
        n as int == comma_op_len(s@, i as int),
        n != 0 ==> i + n <= sl,
{
    if s.get_char(i) == ',' {
        1
    } else {
        0
    }
}

fn scan_q1(s: &str, sl: usize, i: usize) -> (r: (TokenType, usize))
    requires
        sl == s@.len(),
        i < sl,
    ensures
        (r.0, r.1 as int) == best_q1(s@, i as int),
        r.1 != 0 ==> i + r.1 <= sl,
{
    let ghost gs = s@;
    let ghost gi = i as int;
    let mut bk = TokenType::Error;
    let mut bl: usize = 0;
    let ghost mut g = best2((TokenType::Error, 0), TokenType::NewLine, newline_len(gs, gi));
    let l = scan_newline(s, sl, i);
    if l > bl {
        bk = TokenType::NewLine;
        bl = l;
    }
    proof {
        assert((bk, bl as int) == g);
    }
    let l = scan_comment(s, sl, i);
    if l > bl {
        bk = TokenType::Comment;
        bl = l;
    }
    proof {
        g = best2(g, TokenType::Comment, comment_len(gs, gi));
        assert((bk, bl as int) == g);
    }
    let l = scan_visibility(s, sl, i);
    if l > bl {
        bk = TokenType::Visibility;
        bl = l;
    }
    proof {
        g = best2(g, TokenType::Visibility, visibility_len(gs, gi));
        assert((bk, bl as int) == g);
    }
    let l = scan_modifier(s, sl, i);
    if l > bl {
        bk = TokenType::Modifier;
        bl = l;
    }
    proof {
        g = best2(g, TokenType::Modifier, modifier_len(gs, gi));
        assert((bk, bl as int) == g);
    }
    let l = scan_space(s, sl, i);
    if l > bl {
        bk = TokenType::Space;
        bl = l;
    }
    proof {
        g = best2(g, TokenType::Space, space_len(gs, gi));
        assert((bk, bl as int) == g);
    }
    let l = scan_class(s, sl, i);
    if l > bl {
        bk = TokenType::Class;
        bl = l;
    }
    proof {
        g = best2(g, TokenType::Class, class_len(gs, gi));
        assert((bk, bl as int) == g);
    }
    let l = scan_register(s, sl, i);
    if l > bl {
        bk = TokenType::Register;
        bl = l;
    }
    proof {
        g = best2(g, TokenType::Register, register_len(gs, gi));
        assert((bk, bl as int) == g);
    }
    let l = scan_method(s, sl, i);
    if l > bl {
        bk = TokenType::Method;
        bl = l;
    }
    proof {
        g = best2(g, TokenType::Method, method_len(gs, gi));
        assert((bk, bl as int) == g);
    }
    let l = scan_field(s, sl, i);
    if l > bl {
        bk = TokenType::Field;
        bl = l;
    }
    proof {
        g = best2(g, TokenType::Field, field_len(gs, gi));
        assert((bk, bl as int) == g);
    }
    (bk, bl)
}

fn scan_q2(s: &str, sl: usize, i: usize, p: (TokenType, usize)) -> (r: (TokenType, usize))
    requires
        sl == s@.len(),
        i < sl,
        p.1 != 0 ==> i + p.1 <= sl,
    ensures
        (r.0, r.1 as int) == best_q2(s@, i as int, (p.0, p.1 as int)),
        r.1 != 0 ==> i + r.1 <= sl,
        r.1 >= p.1,
{
    let ghost gs = s@;
    let ghost gi = i as int;
    let mut bk = p.0;
    let mut bl: usize = p.1;
    let ghost mut g = best2((p.0, p.1 as int), TokenType::Label, label_len(gs, gi));
    let l = scan_label(s, sl, i);
    if l > bl {
        bk = TokenType::Label;
        bl = l;
    }
    proof {
        assert((bk, bl as int) == g);
    }
    let l = scan_directive(s, sl, i);
    if l > bl {
        bk = TokenType::Directive;
        bl = l;
    }
    proof {
        g = best2(g, TokenType::Directive, directive_len(gs, gi));
        assert((bk, bl as int) == g);
    }
    let l = scan_invoke(s, sl, i);
    if l > bl {
        bk = TokenType::Invoke;
        bl = l;
    }
    proof {
        g = best2(g, TokenType::Invoke, invoke_len(gs, gi));
        assert((bk, bl as int) == g);
    }
    let l = scan_check_cast(s, sl, i);
    if l > bl {
        bk = TokenType::CheckCast;
        bl = l;
    }
    proof {
        g = best2(g, TokenType::CheckCast, check_cast_len(gs, gi));
        assert((bk, bl as int) == g);
    }
    let l = scan_new_instance(s, sl, i);
    if l > bl {
        bk = TokenType::NewInstance;
        bl = l;
    }
    proof {
        g = best2(g, TokenType::NewInstance, new_instance_len(gs, gi));
        assert((bk, bl as int) == g);
    }
    let l = scan_const_string(s, sl, i);
    if l > bl {
        bk = TokenType::ConstString;
        bl = l;
    }
    proof {
        g = best2(g, TokenType::ConstString, const_string_len(gs, gi));
        assert((bk, bl as int) == g);
    }
    let l = scan_const_int(s, sl, i);
    if l > bl {
        bk = TokenType::ConstInt;
        bl = l;
    }
    proof {
        g = best2(g, TokenType::ConstInt, const_int_len(gs, gi));
        assert((bk, bl as int) == g);
    }
    let l = scan_const(s, sl, i);
    if l > bl {
        bk = TokenType::Const;
        bl = l;
    }
    proof {
        g = best2(g, TokenType::Const, const_len(gs, gi));
        assert((bk, bl as int) == g);
    }
    let l = scan_if(s, sl, i);
    if l > bl {
        bk = TokenType::If;
        bl = l;
    }
    proof {
        g = best2(g, TokenType::If, if_len(gs, gi));
        assert((bk, bl as int) == g);
    }
    (bk, bl)
}

fn scan_q3(s: &str, sl: usize, i: usize, p: (TokenType, usize)) -> (r: (TokenType, usize))
    requires
        sl == s@.len(),
        i < sl,
        p.1 != 0 ==> i + p.1 <= sl,
    ensures
        (r.0, r.1 as int) == best_q3(s@, i as int, (p.0, p.1 as int)),
        r.1 != 0 ==> i + r.1 <= sl,
        r.1 >= p.1,
{
    let ghost gs = s@;
    let ghost gi = i as int;
    let mut bk = p.0;
    let mut bl: usize = p.1;
    let ghost mut g = best2((p.0, p.1 as int), TokenType::IGet, getput_len(gs, gi, "iget"@));
    proof {
        reveal_strlit("iget");
    }
    let l = scan_getput(s, sl, i, "iget");
    if l > bl {
        bk = TokenType::IGet;
        bl = l;
    }
    proof {
        assert((bk, bl as int) == g);
    }
    proof {
        reveal_strlit("sget");
    }
    let l = scan_getput(s, sl, i, "sget");
    if l > bl {
        bk = TokenType::SGet;
        bl = l;
    }
    proof {
        g = best2(g, TokenType::SGet, getput_len(gs, gi, "sget"@));
        assert((bk, bl as int) == g);
    }
    proof {
        reveal_strlit("iput");
    }
    let l = scan_getput(s, sl, i, "iput");
    if l > bl {
        bk = TokenType::IPut;
        bl = l;
    }
    proof {
        g = best2(g, TokenType::IPut, getput_len(gs, gi, "iput"@));
        assert((bk, bl as int) == g);
    }
    proof {
        reveal_strlit("sput");
    }
    let l = scan_getput(s, sl, i, "sput");
    if l > bl {
        bk = TokenType::SPut;
        bl = l;
    }
    proof {
        g = best2(g, TokenType::SPut, getput_len(gs, gi, "sput"@));
        assert((bk, bl as int) == g);
    }
    let l = scan_move(s, sl, i);
    if l > bl {
        bk = TokenType::Move;
        bl = l;
    }
    proof {
        g = best2(g, TokenType::Move, move_len(gs, gi));
        assert((bk, bl as int) == g);
    }
    let l = scan_return(s, sl, i);
    if l > bl {
        bk = TokenType::Return;
        bl = l;
    }
    proof {
        g = best2(g, TokenType::Return, return_len(gs, gi));
        assert((bk, bl as int) == g);
    }
    let l = scan_string(s, sl, i);
    if l > bl {
        bk = TokenType::String;
        bl = l;
    }
    proof {
        g = best2(g, TokenType::String, string_len(gs, gi));
        assert((bk, bl as int) == g);
    }
    let l = scan_number(s, sl, i);
    if l > bl {
        bk = TokenType::Number;
        bl = l;
    }
    proof {
        g = best2(g, TokenType::Number, number_len(gs, gi));
        assert((bk, bl as int) == g);
    }
    let l = scan_treecord(s, sl, i);
    if l > bl {
        bk = TokenType::TreecordMacro;
        bl = l;
    }
    proof {
        g = best2(g, TokenType::TreecordMacro, treecord_len(gs, gi));
        assert((bk, bl as int) == g);
    }
    (bk, bl)
}

fn scan_q4(s: &str, sl: usize, i: usize, p: (TokenType, usize)) -> (r: (TokenType, usize))
    requires
        sl == s@.len(),
        i < sl,
        p.1 != 0 ==> i + p.1 <= sl,
    ensures
        (r.0, r.1 as int) == best_q4(s@, i as int, (p.0, p.1 as int)),
        r.1 != 0 ==> i + r.1 <= sl,
        r.1 >= p.1,
{
    let ghost gs = s@;
    let ghost gi = i as int;
    let mut bk = p.0;
    let mut bl: usize = p.1;
    let ghost mut g = best2((p.0, p.1 as int), TokenType::Brace, brace_len(gs, gi));
    let l = scan_brace(s, sl, i);
    if l > bl {
        bk = TokenType::Brace;
        bl = l;
    }
    proof {
        assert((bk, bl as int) == g);
    }
    let l = scan_paren(s, sl, i);
    if l > bl {
        bk = TokenType::Paren;
        bl = l;
    }
    proof {
        g = best2(g, TokenType::Paren, paren_len(gs, gi));
        assert((bk, bl as int) == g);
    }
    let l = scan_builtin(s, sl, i);
    if l > bl {
        bk = TokenType::BuiltinType;
        bl = l;
    }
    proof {
        g = best2(g, TokenType::BuiltinType, builtin_len(gs, gi));
        assert((bk, bl as int) == g);
    }
    let l = scan_method_call(s, sl, i);
    if l > bl {
        bk = TokenType::MethodCall;
        bl = l;
    }
    proof {
        g = best2(g, TokenType::MethodCall, method_call_len(gs, gi));
        assert((bk, bl as int) == g);
    }
    let l = scan_method_name(s, sl, i);
    if l > bl {
        bk = TokenType::MethodName;
        bl = l;
    }
    proof {
        g = best2(g, TokenType::MethodName, method_name_len(gs, gi));
        assert((bk, bl as int) == g);
    }
    let l = scan_field_name(s, sl, i);
    if l > bl {
        bk = TokenType::FieldName;
        bl = l;
    }
    proof {
        g = best2(g, TokenType::FieldName, field_name_len(gs, gi));
        assert((bk, bl as int) == g);
    }
    let l = scan_array_op(s, sl, i);
    if l > bl {
        bk = TokenType::ArrayOp;
        bl = l;
    }
    proof {
        g = best2(g, TokenType::ArrayOp, array_op_len(gs, gi));
        assert((bk, bl as int) == g);
    }
    let l = scan_range_op(s, sl, i);
    if l > bl {
        bk = TokenType::RangeOp;
        bl = l;
    }
    proof {
        g = best2(g, TokenType::RangeOp, range_op_len(gs, gi));
        assert((bk, bl as int) == g);
    }
    let l = scan_comma_op(s, sl, i);
    if l > bl {
        bk = TokenType::CommaOp;
        bl = l;
    }
    proof {
        g = best2(g, TokenType::CommaOp, comma_op_len(gs, gi));
        assert((bk, bl as int) == g);
    }
    (bk, bl)
}

/// Find the token at position `i`: run every category's matcher and keep the
/// longest match, earlier categories winning ties.
fn scan_token(s: &str, sl: usize, i: usize) -> (r: (TokenType, usize))
    requires
        sl == s@.len(),
        i < sl,
    ensures
        (r.0, r.1 as int) == token_at(s@, i as int),
        1 <= r.1,
        i + r.1 <= sl,
{
    let b = scan_q1(s, sl, i);
    let b = scan_q2(s, sl, i, b);
    let b = scan_q3(s, sl, i, b);
    let b = scan_q4(s, sl, i, b);
    if b.1 < 1 {
        (TokenType::Error, 1)
    } else {
        b
    }
}

proof fn lemma_best_q1_bounds(s: Seq<char>, i: int)
    requires
        0 <= i < s.len(),
    ensures
        best_q1(s, i).1 == 0 || (0 < best_q1(s, i).1 && i + best_q1(s, i).1 <= s.len()),
{
    reveal_strlit("protected");
    reveal_strlit("private");
    reveal_strlit("public");
    reveal_strlit("constructor");
    reveal_strlit("synthetic");
    reveal_strlit("static");
    reveal_strlit("final");
    reveal_strlit(".end method");
    reveal_strlit(".method");
    reveal_strlit(".end field");
    reveal_strlit(".field");
    lemma_run_len_bounds(s, i + 1, CharClass::NotNewline);
    lemma_run_len_bounds(s, i, CharClass::SpaceTab);
    lemma_run_len_bounds(s, i + 1, CharClass::ClassChar);
    lemma_run_len_bounds(s, i + 1, CharClass::Digit);
}

proof fn lemma_best_q2_bounds(s: Seq<char>, i: int, p: (TokenType, int))
    requires
        0 <= i < s.len(),
        p.1 == 0 || (0 < p.1 && i + p.1 <= s.len()),
    ensures
        best_q2(s, i, p).1 == 0 || (0 < best_q2(s, i, p).1 && i + best_q2(s, i, p).1 <= s.len()),
{
    reveal_strlit(":goto_");
    reveal_strlit(":cond_");
    reveal_strlit(".implements");
    reveal_strlit(".registers");
    reveal_strlit(".prologue");
    reveal_strlit(".source");
    reveal_strlit(".locals");
    reveal_strlit(".class");
    reveal_strlit(".super");
    reveal_strlit(".local");
    reveal_strlit(".line");
    reveal_strlit(".goto");
    reveal_strlit("invoke-interface");
    reveal_strlit("invoke-virtual");
    reveal_strlit("invoke-direct");
    reveal_strlit("invoke-static");
    reveal_strlit("/range");
    reveal_strlit("check-cast");
    reveal_strlit("new-instance");
    reveal_strlit("const-string/jumbo");
    reveal_strlit("const-string");
    reveal_strlit("const/16");
    reveal_strlit("const/4");
    reveal_strlit("const-class");
    reveal_strlit("const");
    reveal_strlit("if-lt");
    reveal_strlit("if-le");
    reveal_strlit("if-gt");
    reveal_strlit("if-ge");
    reveal_strlit("if-eq");
    reveal_strlit("if-ne");
    lemma_run_len_bounds(s, i + 6, CharClass::Digit);
}

proof fn lemma_best_q3_bounds(s: Seq<char>, i: int, p: (TokenType, int))
    requires
        0 <= i < s.len(),
        p.1 == 0 || (0 < p.1 && i + p.1 <= s.len()),
    ensures
        best_q3(s, i, p).1 == 0 || (0 < best_q3(s, i, p).1 && i + best_q3(s, i, p).1 <= s.len()),
{
    reveal_strlit("iget");
    reveal_strlit("sget");
    reveal_strlit("iput");
    reveal_strlit("sput");
    reveal_strlit("-object");
    reveal_strlit("-string");
    reveal_strlit("-wide");
    reveal_strlit("move-result-object");
    reveal_strlit("move-result");
    reveal_strlit("move-");
    reveal_strlit("move");
    reveal_strlit("return-object");
    reveal_strlit("return-void");
    reveal_strlit("return-wide");
    reveal_strlit("return");
    reveal_strlit("0x");
    reveal_strlit("{{");
    reveal_strlit("}}");
    lemma_run_len_bounds(s, i + 1, CharClass::NotQuote);
    lemma_run_len_bounds(s, i, CharClass::Digit);
    lemma_run_len_bounds(s, i + 1, CharClass::Digit);
    lemma_run_len_bounds(s, i + 2, CharClass::Digit);
    lemma_run_len_bounds(s, i + 3, CharClass::Digit);
    lemma_run_len_bounds(s, i + 2, CharClass::MacroChar);
}

proof fn lemma_best_q4_bounds(s: Seq<char>, i: int, p: (TokenType, int))
    requires
        0 <= i < s.len(),
        p.1 == 0 || (0 < p.1 && i + p.1 <= s.len()),
    ensures
        best_q4(s, i, p).1 == 0 || (0 < best_q4(s, i, p).1 && i + best_q4(s, i, p).1 <= s.len()),
{
    reveal_strlit("->");
    reveal_strlit("..");
    lemma_run_len_bounds(s, i + 2, CharClass::NameChar);
    lemma_run_len_bounds(s, i, CharClass::NameChar);
    lemma_run_len_bounds(s, i, CharClass::FieldChar);
}

/// The token at any in-range position covers at least one character and stays
/// inside the input.
pub proof fn lemma_token_at_bounds(s: Seq<char>, i: int)
    requires
        0 <= i < s.len(),
    ensures
        1 <= token_at(s, i).1,
        i + token_at(s, i).1 <= s.len(),
{
    lemma_best_q1_bounds(s, i);
    lemma_best_q2_bounds(s, i, best_q1(s, i));
    lemma_best_q3_bounds(s, i, best_q2(s, i, best_q1(s, i)));
    lemma_best_q4_bounds(s, i, best_q3(s, i, best_q2(s, i, best_q1(s, i))));
}

/// The token that starts at position `i`: its category, the text it covers,
/// and its span in line/column coordinates.
pub open spec fn token_model_at(s: Seq<char>, i: int) -> TokenModel {
    let l = token_at(s, i).1;
    TokenModel {
        token_type: token_at(s, i).0,
        content: s.subrange(i, i + l),
        range: RangeModel { start: pos_of(s, i), end: pos_of(s, i + l) },
    }
}

/// The token stream from position `i` to the end of the input.
pub open spec fn models_from(s: Seq<char>, i: int) -> Seq<TokenModel>
    decreases s.len() - i when 0 <= i via models_from_dec
{
    if i >= s.len() {
        Seq::empty()
    } else {
        seq![token_model_at(s, i)] + models_from(s, i + token_at(s, i).1)
    }
}

#[via_fn]
proof fn models_from_dec(s: Seq<char>, i: int) {
    if 0 <= i < s.len() {
        lemma_token_at_bounds(s, i);
    }
}

/// The concatenation of the contents of a token stream.
pub open spec fn concat_contents(ms: Seq<TokenModel>) -> Seq<char>
    decreases ms.len(),
{
    if ms.len() == 0 {
        Seq::empty()
    } else {
        ms[0].content + concat_contents(ms.drop_first())
    }
}

proof fn lemma_lex_covers_from(s: Seq<char>, i: int)
    requires
        0 <= i <= s.len(),
    ensures
        concat_contents(models_from(s, i)) =~= s.subrange(i, s.len() as int),
    decreases s.len() - i,
{
    if i >= s.len() {
    } else {
        lemma_token_at_bounds(s, i);
        let l = token_at(s, i).1;
        lemma_lex_covers_from(s, i + l);
        assert(models_from(s, i).drop_first() =~= models_from(s, i + l));
        assert(concat_contents(models_from(s, i)) =~= s.subrange(i, s.len() as int));
    }
}

/// The tokenizer is total: concatenating the contents of the token stream in
/// order reproduces the input exactly, with no gaps and no overlaps.
pub proof fn lemma_tokens_total(s: Seq<char>)
    ensures
        concat_contents(models_from(s, 0)) == s,
{
    lemma_lex_covers_from(s, 0);
    assert(s.subrange(0, s.len() as int) =~= s);
}

fn content_slice(s: &str, from: usize, to: usize) -> (r: std::string::String)
    requires
        from <= to <= s@.len(),
    ensures
        r@ == s@.subrange(from as int, to as int),
{
    s.substring_char(from, to).to_owned()
}

/// Tokenize the whole document: the result is exactly the token stream that
/// `models_from` describes, every character covered by exactly one token.
pub fn lex_str(content: &str) -> (r: Vec<Token>)
    requires
        content@.len() <= u32::MAX,
    ensures
        r@.len() == models_from(content@, 0).len(),
        forall|j: int| 0 <= j < r@.len() ==> r@[j]@ == models_from(content@, 0)[j],
        token_views(r@) == models_from(content@, 0),
{
    let ghost s = content@;
    let sl = content.unicode_len();
    let mut out: Vec<Token> = Vec::new();
    let mut i: usize = 0;
    while i < sl
        invariant
            sl == s.len(),
            s == content@,
            s.len() <= u32::MAX,
            i <= sl,
            token_views(out@) + models_from(s, i as int) =~= models_from(s, 0),
        decreases sl - i,
    {
        let (k, l) = scan_token(content, sl, i);
        let tok = Token {
            range: range_to_lsp_range(i, i + l, content),
            content: content_slice(content, i, i + l),
            token_type: k,
        };
        proof {
            assert(models_from(s, i as int) == seq![token_model_at(s, i as int)] + models_from(
                s,
                i + l,
            ));
            assert(tok@ == token_model_at(s, i as int));
        }
        let ghost old_out = out@;
        out.push(tok);
        i = i + l;
        proof {
            assert(token_views(out@) =~= token_views(old_out).push(tok@));
            assert(token_views(out@) + models_from(s, i as int) =~= models_from(s, 0));
        }
    }
    proof {
        assert(token_views(out@) =~= models_from(s, 0));
        assert(forall|j: int|
            0 <= j < out@.len() ==> token_views(out@)[j] == #[trigger] out@[j]@);
    }
    out
}

} // verus!