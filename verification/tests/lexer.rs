use llc_core::common::identifier::TypeState;
use llc_core::common::keyword::Keyword;
use llc_core::common::operator::Operator;
use llc_core::common::position::{FilePosition, FileSpan};
use llc_core::lexer::lexer::get_tokens;
use llc_core::lexer::token::{Token, TokenKind};
use llc_core::type_system::llc_type::Type;
use llc_core::common::literal::LiteralValue;

fn span(row: usize, begin: usize, end: usize) -> FileSpan {
    FileSpan::new(FilePosition::new(row, begin), FilePosition::new(row, end))
}

fn kinds(tokens: &[Token]) -> Vec<TokenKind> {
    tokens.iter().map(|t| t.kind.clone()).collect()
}

fn integer(text: &str) -> TokenKind {
    TokenKind::Literal(LiteralValue {
        llc_type: Type::Integer { signed: true, size: 32 },
        value: text.to_string(),
    })
}

fn float(text: &str) -> TokenKind {
    TokenKind::Literal(LiteralValue {
        llc_type: Type::Float { signed: true, size: 32 },
        value: text.to_string(),
    })
}

fn string(text: &str) -> TokenKind {
    TokenKind::Literal(LiteralValue { llc_type: Type::String, value: text.to_string() })
}

fn count_eof(tokens: &[Token]) -> usize {
    tokens.iter().filter(|t| t.kind == TokenKind::EOF).count()
}

#[test]
fn empty_input_gives_one_end_of_file_token() {
    let lexed = get_tokens("empty.llc", "");
    assert_eq!(lexed.stream.tokens.len(), 1);
    assert_eq!(lexed.stream.tokens[0].kind, TokenKind::EOF);
    assert_eq!(lexed.stream.tokens[0].position, span(1, 1, 1));
    assert!(lexed.errors.is_empty());
    assert!(lexed.identifiers.is_empty());
    assert_eq!(lexed.file_name, "empty.llc");
}

#[test]
fn every_input_ends_in_exactly_one_end_of_file_token() {
    for text in ["", "x", "x := 1;", "\n\n", "#", "1.2.3", "\"open", "// note", "{ a; }\n=> b;"] {
        let lexed = get_tokens("any.llc", text);
        let tokens = &lexed.stream.tokens;
        assert_eq!(tokens.last().unwrap().kind, TokenKind::EOF);
        assert_eq!(count_eof(tokens), 1);
    }
}

#[test]
fn declaration_is_scanned_with_its_positions() {
    let lexed = get_tokens("decl.llc", "x := 1;");
    let tokens = &lexed.stream.tokens;
    assert_eq!(tokens.len(), 5);
    assert_eq!(tokens[0].kind, TokenKind::Identifier { index: 0 });
    assert_eq!(tokens[0].position, span(0, 1, 1));
    assert_eq!(tokens[1].kind, TokenKind::Operator(Operator::Declassignment));
    assert_eq!(tokens[1].position, span(1, 3, 4));
    assert_eq!(tokens[2].kind, integer("1"));
    assert_eq!(tokens[2].position, span(1, 6, 6));
    assert_eq!(tokens[3].kind, TokenKind::EOI);
    assert_eq!(tokens[3].position, span(1, 7, 7));
    assert_eq!(tokens[4].kind, TokenKind::EOF);
    assert_eq!(tokens[4].position, span(1, 8, 8));
    assert!(lexed.errors.is_empty());
    assert_eq!(lexed.identifiers.len(), 1);
    assert_eq!(lexed.identifiers[0].name, "x");
    assert_eq!(lexed.identifiers[0].type_state, TypeState::Unchecked);
    assert_eq!(lexed.identifiers[0].declaration_idx, 0);
}

#[test]
fn same_spelling_gets_the_same_index() {
    let lexed = get_tokens("intern.llc", "a := 1; b := a;\na -> b;");
    let names: Vec<&str> = lexed.identifiers.iter().map(|i| i.name.as_str()).collect();
    assert_eq!(names, vec!["a", "b"]);
    let indices: Vec<usize> = lexed
        .stream
        .tokens
        .iter()
        .filter_map(|t| match t.kind {
            TokenKind::Identifier { index } => Some(index),
            _ => None,
        })
        .collect();
    assert_eq!(indices, vec![0, 1, 0, 0, 1]);
}

#[test]
fn digit_separators_are_dropped() {
    let lexed = get_tokens("num.llc", "1_000");
    assert_eq!(lexed.stream.tokens[0].kind, integer("1000"));
    assert_eq!(lexed.stream.tokens[0].position, span(1, 1, 4));
    assert_eq!(lexed.stream.tokens.len(), 2);
    assert!(lexed.errors.is_empty());
}

#[test]
fn one_decimal_point_makes_a_float() {
    let lexed = get_tokens("num.llc", "x := 12.5;");
    assert_eq!(lexed.stream.tokens[2].kind, float("12.5"));
    assert_eq!(lexed.stream.tokens[2].position, span(1, 6, 9));
    assert_eq!(lexed.stream.tokens[3].kind, TokenKind::EOI);
    assert!(lexed.errors.is_empty());
}

#[test]
fn second_decimal_point_is_a_lexical_error() {
    let lexed = get_tokens("num.llc", "1.2.3");
    assert_eq!(lexed.errors.len(), 1);
    assert!(lexed.errors[0].reason.contains("cannot contain more than one decimal point"));
    assert_eq!(lexed.errors[0].position.begin, lexed.errors[0].position.end);
    assert_eq!(lexed.errors[0].position.begin, FilePosition::new(0, 5));
    assert_eq!(kinds(&lexed.stream.tokens), vec![integer("3"), TokenKind::EOF]);
}

#[test]
fn number_at_the_end_of_a_line_is_read_once() {
    let lexed = get_tokens("num.llc", "12\n7");
    assert_eq!(kinds(&lexed.stream.tokens), vec![integer("12"), integer("7"), TokenKind::EOF]);
    assert_eq!(lexed.stream.tokens[1].position, span(2, 1, 1));
    assert_eq!(lexed.stream.tokens[2].position, span(2, 2, 2));
}

#[test]
fn lone_decimal_point_is_no_literal() {
    let lexed = get_tokens("num.llc", ".");
    assert_eq!(kinds(&lexed.stream.tokens), vec![TokenKind::Undefined(".".to_string()), TokenKind::EOF]);
    assert_eq!(lexed.errors.len(), 1);
}

#[test]
fn two_character_operators_are_one_token() {
    let lexed = get_tokens("ops.llc", "-> => == := ::");
    assert_eq!(
        kinds(&lexed.stream.tokens),
        vec![
            TokenKind::Operator(Operator::Into),
            TokenKind::Operator(Operator::Return),
            TokenKind::Operator(Operator::Equality),
            TokenKind::Operator(Operator::Declassignment),
            TokenKind::Operator(Operator::NameSpaceNav),
            TokenKind::EOF,
        ]
    );
    assert_eq!(lexed.stream.tokens[0].position, span(1, 1, 2));
    assert_eq!(lexed.stream.tokens[1].position, span(1, 4, 5));
    assert_eq!(lexed.stream.tokens[4].position, span(1, 13, 14));
}

#[test]
fn two_operator_characters_that_spell_nothing_are_two_tokens() {
    let lexed = get_tokens("ops.llc", "+-");
    assert_eq!(
        kinds(&lexed.stream.tokens),
        vec![TokenKind::Operator(Operator::Plus), TokenKind::Operator(Operator::Minus), TokenKind::EOF]
    );
    assert_eq!(lexed.stream.tokens[0].position, span(1, 2, 2));
    assert_eq!(lexed.stream.tokens[1].position, span(1, 3, 3));
}

#[test]
fn single_operators_and_the_width_of_comparisons() {
    let lexed = get_tokens("ops.llc", "a + b < c");
    let tokens = &lexed.stream.tokens;
    assert_eq!(tokens[1].kind, TokenKind::Operator(Operator::Plus));
    assert_eq!(tokens[1].position, span(1, 3, 3));
    assert_eq!(tokens[3].kind, TokenKind::Operator(Operator::LessThan));
    assert_eq!(tokens[3].position, span(1, 6, 7));
}

#[test]
fn every_single_operator_character_is_known() {
    let lexed = get_tokens("ops.llc", "- + * / % = : > < _");
    assert_eq!(
        kinds(&lexed.stream.tokens),
        vec![
            TokenKind::Operator(Operator::Minus),
            TokenKind::Operator(Operator::Plus),
            TokenKind::Operator(Operator::Times),
            TokenKind::Operator(Operator::Divide),
            TokenKind::Operator(Operator::Modulus),
            TokenKind::Operator(Operator::Assignment),
            TokenKind::Operator(Operator::Declaration),
            TokenKind::Operator(Operator::GreaterThan),
            TokenKind::Operator(Operator::LessThan),
            TokenKind::Operator(Operator::Discard),
            TokenKind::EOF,
        ]
    );
}

#[test]
fn string_literal_holds_what_stands_between_the_quotes() {
    let lexed = get_tokens("str.llc", "s := \"abc\";");
    let tokens = &lexed.stream.tokens;
    assert_eq!(tokens[2].kind, string("abc"));
    assert_eq!(tokens[2].position, span(1, 6, 8));
    assert_eq!(tokens[3].kind, TokenKind::EOI);
    assert_eq!(tokens[3].position, span(1, 11, 11));
    assert!(lexed.errors.is_empty());
}

#[test]
fn unterminated_string_is_declined() {
    let lexed = get_tokens("str.llc", "\"abc");
    assert_eq!(
        kinds(&lexed.stream.tokens),
        vec![
            TokenKind::Undefined("\"".to_string()),
            TokenKind::Identifier { index: 0 },
            TokenKind::EOF
        ]
    );
    assert_eq!(lexed.errors.len(), 1);
    assert_eq!(lexed.identifiers[0].name, "abc");
}

#[test]
fn empty_string_is_declined() {
    let lexed = get_tokens("str.llc", "\"\"");
    assert_eq!(
        kinds(&lexed.stream.tokens),
        vec![
            TokenKind::Undefined("\"".to_string()),
            TokenKind::Undefined("\"".to_string()),
            TokenKind::EOF
        ]
    );
    assert_eq!(lexed.errors.len(), 2);
}

#[test]
fn comment_is_discarded_to_the_end_of_the_line() {
    let lexed = get_tokens("c.llc", "// nothing here := 1;\nx; // x := 2\n/ /");
    assert_eq!(
        kinds(&lexed.stream.tokens),
        vec![
            TokenKind::Identifier { index: 0 },
            TokenKind::EOI,
            TokenKind::Operator(Operator::Divide),
            TokenKind::Operator(Operator::Divide),
            TokenKind::EOF
        ]
    );
    assert_eq!(lexed.identifiers.len(), 1);
    assert!(lexed.errors.is_empty());
}

#[test]
fn keyword_is_no_identifier() {
    let lexed = get_tokens("use.llc", "use a::b;");
    let tokens = &lexed.stream.tokens;
    assert_eq!(tokens[0].kind, TokenKind::Keyword(Keyword::Use));
    assert_eq!(tokens[0].position, span(0, 1, 3));
    assert_eq!(tokens[1].kind, TokenKind::Identifier { index: 0 });
    assert_eq!(tokens[1].position, span(0, 5, 5));
    assert_eq!(tokens[2].kind, TokenKind::Operator(Operator::NameSpaceNav));
    assert_eq!(tokens[3].kind, TokenKind::Identifier { index: 1 });
    assert_eq!(lexed.identifiers.len(), 2);
}

#[test]
fn identifier_may_hold_underscores() {
    let lexed = get_tokens("id.llc", "my_var used");
    assert_eq!(lexed.identifiers[0].name, "my_var");
    assert_eq!(lexed.identifiers[1].name, "used");
    assert_eq!(lexed.stream.tokens[0].position, span(0, 1, 6));
    assert_eq!(lexed.stream.tokens[1].position, span(0, 8, 11));
}

#[test]
fn punctuation_marks_are_tokens() {
    let lexed = get_tokens("p.llc", "{}(),;");
    assert_eq!(
        kinds(&lexed.stream.tokens),
        vec![
            TokenKind::OpenCurly,
            TokenKind::CloseCurly,
            TokenKind::OpenParen,
            TokenKind::CloseParen,
            TokenKind::Comma,
            TokenKind::EOI,
            TokenKind::EOF
        ]
    );
    assert_eq!(lexed.stream.tokens[5].position, span(1, 6, 6));
}

#[test]
fn unknown_character_is_recorded_and_scanning_goes_on() {
    let lexed = get_tokens("u.llc", "# x");
    assert_eq!(
        kinds(&lexed.stream.tokens),
        vec![TokenKind::Undefined("#".to_string()), TokenKind::Identifier { index: 0 }, TokenKind::EOF]
    );
    assert_eq!(lexed.errors.len(), 1);
    assert_eq!(lexed.errors[0].position, span(0, 1, 1));
    assert_eq!(
        lexed.errors[0].reason,
        "SyntaxError: Undefined token. from row 0, col 1, to row 0, col 1: Undefined: #.\n"
    );
}

#[test]
fn rows_follow_the_lines() {
    let lexed = get_tokens("rows.llc", "a;\n\n  b;");
    let tokens = &lexed.stream.tokens;
    assert_eq!(tokens[0].position, span(0, 1, 1));
    assert_eq!(tokens[1].position, span(1, 2, 2));
    assert_eq!(tokens[2].position, span(2, 3, 3));
    assert_eq!(tokens[3].position, span(3, 4, 4));
    assert_eq!(tokens[4].kind, TokenKind::EOF);
    assert_eq!(tokens[4].position, span(3, 5, 5));
}

#[test]
fn white_space_of_every_kind_is_passed_over() {
    let lexed = get_tokens("ws.llc", " \t\u{a0}x\r");
    assert_eq!(kinds(&lexed.stream.tokens), vec![TokenKind::Identifier { index: 0 }, TokenKind::EOF]);
    assert_eq!(lexed.stream.tokens[0].position, span(0, 4, 4));
}

#[test]
fn letters_and_digits_of_other_scripts_are_known() {
    let lexed = get_tokens("uni.llc", "été := ٣½;");
    assert!(lexed.errors.is_empty());
    assert_eq!(lexed.identifiers[0].name, "été");
    let tokens = &lexed.stream.tokens;
    assert_eq!(tokens[0].kind, TokenKind::Identifier { index: 0 });
    assert_eq!(tokens[0].position, span(0, 1, 3));
    assert_eq!(tokens[2].kind, integer("٣½"));
    assert_eq!(tokens[2].position, span(1, 8, 9));
    assert_eq!(tokens[3].position, span(1, 10, 10));
}

#[test]
fn separators_and_point_may_lead_a_number() {
    let lexed = get_tokens("num.llc", "x := .5; y := 1__2.;");
    assert!(lexed.errors.is_empty());
    assert_eq!(lexed.stream.tokens[2].kind, float(".5"));
    assert_eq!(lexed.stream.tokens[2].position, span(1, 6, 7));
    assert_eq!(lexed.stream.tokens[6].kind, float("12."));
    assert_eq!(lexed.stream.tokens[6].position, span(1, 15, 17));
}

#[test]
fn scan_is_the_same_for_the_same_text() {
    let text = "a := 1;\n{ b -> a; }\n=> \"s\";";
    let first = get_tokens("same.llc", text);
    let second = get_tokens("same.llc", text);
    assert_eq!(first.stream.tokens, second.stream.tokens);
    assert_eq!(first.identifiers, second.identifiers);
    assert_eq!(first.errors, second.errors);
}
