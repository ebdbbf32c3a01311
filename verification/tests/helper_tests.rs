use smali_lsp::helper::trim_space_tokens;
use smali_lsp::lexer::{lex_str, TokenType};
use smali_lsp::position::{
    lsp_pos_to_pos, lsp_range_to_range, pos_to_lsp_pos, range_to_lsp_range, Position, TextRange,
};

#[test]
fn pos_to_lsp_pos_single_line() {
    let input = "test string";
    let pos = 5;
    let expected = Position { line: 0, character: 5 };
    assert_eq!(expected, pos_to_lsp_pos(pos, input));

    let input = "a longer test string";
    let pos = 10;
    let expected = Position { line: 0, character: 10 };
    assert_eq!(expected, pos_to_lsp_pos(pos, input));
}

#[test]
fn lsp_pos_to_pos_single_line() {
    let input = "test string";
    let pos = Position { line: 0, character: 5 };
    let expected = 5;
    assert_eq!(expected, lsp_pos_to_pos(pos, input));

    let input = "a longer test string";
    let pos = Position { line: 0, character: 10 };
    let expected = 10;
    assert_eq!(expected, lsp_pos_to_pos(pos, input));
}

#[test]
fn pos_to_lsp_pos_multi_line() {
    let input = "test\nstring";
    let pos = Position { line: 1, character: 2 };
    let expected = 7;
    assert_eq!(expected, lsp_pos_to_pos(pos, input));

    let input = "test\nseveral\nline\nstring";
    let pos = Position { line: 2, character: 2 };
    let expected = 15;
    assert_eq!(expected, lsp_pos_to_pos(pos, input));
}

#[test]
fn lsp_pos_to_pos_multi_line() {
    let input = "test\nstring";
    let pos = 7;
    let expected = Position { line: 1, character: 2 };
    assert_eq!(expected, pos_to_lsp_pos(pos, input));

    let input = "test\nseveral\nline\nstring";
    let pos = 15;
    let expected = Position { line: 2, character: 2 };
    assert_eq!(expected, pos_to_lsp_pos(pos, input));
}

#[test]
fn range_to_lsp_range_single_line() {
    let input = "test";
    let expected = TextRange {
        start: Position { line: 0, character: 0 },
        end: Position { line: 0, character: 3 },
    };
    assert_eq!(expected, range_to_lsp_range(0, 3, input));

    let input = "test";
    let expected = TextRange {
        start: Position { line: 0, character: 1 },
        end: Position { line: 0, character: 3 },
    };
    assert_eq!(expected, range_to_lsp_range(1, 3, input));
}

#[test]
fn lsp_range_to_range_single_line() {
    let input = "test";
    let rng = TextRange {
        start: Position { line: 0, character: 0 },
        end: Position { line: 0, character: 3 },
    };
    let expected = (0, 3);
    assert_eq!(expected, lsp_range_to_range(rng, input));

    let input = "test";
    let rng = TextRange {
        start: Position { line: 0, character: 1 },
        end: Position { line: 0, character: 3 },
    };
    let expected = (1, 3);
    assert_eq!(expected, lsp_range_to_range(rng, input));
}

#[test]
fn range_to_lsp_range_multi_line_span_single() {
    let input = "test\nstring";
    let expected = TextRange {
        start: Position { line: 0, character: 1 },
        end: Position { line: 0, character: 3 },
    };
    assert_eq!(expected, range_to_lsp_range(1, 3, input));

    let input = "test\nstring";
    let expected = TextRange {
        start: Position { line: 1, character: 2 },
        end: Position { line: 1, character: 4 },
    };
    assert_eq!(expected, range_to_lsp_range(7, 9, input));

    let input = "test\nmultiline\n\nstring";
    let expected = TextRange {
        start: Position { line: 1, character: 1 },
        end: Position { line: 1, character: 3 },
    };
    assert_eq!(expected, range_to_lsp_range(6, 8, input));
}

#[test]
fn lsp_range_to_range_multi_line_span_single() {
    let input = "test\nstring";
    let rng = TextRange {
        start: Position { line: 0, character: 1 },
        end: Position { line: 0, character: 3 },
    };
    let expected = (1, 3);
    assert_eq!(expected, lsp_range_to_range(rng, input));

    let input = "test\nstring";
    let rng = TextRange {
        start: Position { line: 1, character: 2 },
        end: Position { line: 1, character: 4 },
    };
    let expected = (7, 9);
    assert_eq!(expected, lsp_range_to_range(rng, input));

    let input = "test\nmultiline\n\nstring";
    let expected = TextRange {
        start: Position { line: 1, character: 1 },
        end: Position { line: 1, character: 3 },
    };
    assert_eq!(expected, range_to_lsp_range(6, 8, input));
}

#[test]
fn range_to_lsp_range_multi_line_span_multiple() {
    let input = "test\nstring";
    let expected = TextRange {
        start: Position { line: 0, character: 3 },
        end: Position { line: 1, character: 2 },
    };
    assert_eq!(expected, range_to_lsp_range(3, 7, input));

    let input = "test\nmultiline\n\nstring\n";
    let expected = TextRange {
        start: Position { line: 0, character: 3 },
        end: Position { line: 3, character: 2 },
    };
    assert_eq!(expected, range_to_lsp_range(3, 18, input));
}

#[test]
fn lsp_range_to_range_multi_line_span_multiple() {
    let input = "test\nstring";
    let rng = TextRange {
        start: Position { line: 0, character: 3 },
        end: Position { line: 1, character: 2 },
    };
    let expected = (3, 7);
    assert_eq!(expected, lsp_range_to_range(rng, input));

    let input = "test\nmultiline\n\nstring\n";
    let rng = TextRange {
        start: Position { line: 0, character: 3 },
        end: Position { line: 3, character: 2 },
    };
    let expected = (3, 18);
    assert_eq!(expected, lsp_range_to_range(rng, input));
}

#[test]
fn trim_spaces() {
    let mut tokens = trim_space_tokens(lex_str("    .locals 1  ")).into_iter();

    let mut token = tokens.next().unwrap();
    assert_eq!(token.token_type, TokenType::Directive);
    assert_eq!(token.content, ".locals");

    token = tokens.next().unwrap();
    assert_eq!(token.token_type, TokenType::Space);
    assert_eq!(token.content, " ");

    token = tokens.next().unwrap();
    assert_eq!(token.token_type, TokenType::Number);
    assert_eq!(token.content, "1");
}

#[test]
fn offset_position_round_trip() {
    let input = "test\nseveral\nline\nstring";
    for off in 0..=input.len() {
        let p = pos_to_lsp_pos(off, input);
        assert_eq!(lsp_pos_to_pos(p, input), off);
    }
}

#[test]
fn position_offset_round_trip() {
    let input = "ab\ncdef\n\ng";
    let lines = ["ab", "cdef", "", "g"];
    for (ln, text) in lines.iter().enumerate() {
        for ch in 0..=text.len() {
            let p = Position { line: ln as u32, character: ch as u32 };
            assert_eq!(pos_to_lsp_pos(lsp_pos_to_pos(p, input), input), p);
        }
    }
}

#[test]
fn position_past_document_clamps_to_end() {
    let input = "ab\ncd";
    let p = Position { line: 9, character: 0 };
    assert_eq!(lsp_pos_to_pos(p, input), input.len());
    let q = Position { line: 1, character: 99 };
    assert_eq!(lsp_pos_to_pos(q, input), input.len());
}
