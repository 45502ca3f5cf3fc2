use llc_core::common::identifier::{intern, Identifier, TypeState};
use llc_core::common::keyword::{parse_keyword, Keyword};
use llc_core::common::literal::LiteralValue;
use llc_core::common::operator::{parse_comp_operator, parse_operator, Operator};
use llc_core::common::position::{FilePosition, FileSpan};
use llc_core::common::syntax_error::{CompileError, SyntaxError};
use llc_core::common::text::{char_to_string, number_to_string, same_text};
use llc_core::lexer::file_stream::{FileLine, FileStream};
use llc_core::lexer::token::{Token, TokenKind};
use llc_core::parser::ast_node::{AstNode, AstNodeKind, Expression};
use llc_core::parser::parser_buffer::ParserBuffer;
use llc_core::type_system::llc_type::Type;

fn span(row: usize, begin: usize, end: usize) -> FileSpan {
    FileSpan::new(FilePosition::new(row, begin), FilePosition::new(row, end))
}

#[test]
fn numbers_are_written_in_base_ten() {
    assert_eq!(number_to_string(0), "0");
    assert_eq!(number_to_string(7), "7");
    assert_eq!(number_to_string(10), "10");
    assert_eq!(number_to_string(1234567890), "1234567890");
    assert_eq!(number_to_string(usize::MAX), usize::MAX.to_string());
}

#[test]
fn one_character_makes_a_string() {
    assert_eq!(char_to_string('#'), "#");
    assert_eq!(char_to_string('é'), "é");
}

#[test]
fn texts_are_compared_by_their_characters() {
    assert!(same_text("use", "use"));
    assert!(!same_text("use", "used"));
    assert!(!same_text("", "u"));
    assert!(same_text("", ""));
}

#[test]
fn keyword_table_knows_use_only() {
    assert_eq!(parse_keyword("use"), Some(Keyword::Use));
    assert_eq!(parse_keyword("Use"), None);
    assert_eq!(parse_keyword("us"), None);
    assert_eq!(parse_keyword(""), None);
    assert_eq!(Keyword::Use.to_string(), "use");
}

#[test]
fn operator_tables_know_their_spellings() {
    assert_eq!(parse_operator('-'), Some(Operator::Minus));
    assert_eq!(parse_operator('+'), Some(Operator::Plus));
    assert_eq!(parse_operator('/'), Some(Operator::Divide));
    assert_eq!(parse_operator('*'), Some(Operator::Times));
    assert_eq!(parse_operator('%'), Some(Operator::Modulus));
    assert_eq!(parse_operator('='), Some(Operator::Assignment));
    assert_eq!(parse_operator(':'), Some(Operator::Declaration));
    assert_eq!(parse_operator('>'), Some(Operator::GreaterThan));
    assert_eq!(parse_operator('<'), Some(Operator::LessThan));
    assert_eq!(parse_operator('_'), Some(Operator::Discard));
    assert_eq!(parse_operator('a'), None);
    assert_eq!(parse_operator(';'), None);
    assert_eq!(parse_comp_operator("->"), Some(Operator::Into));
    assert_eq!(parse_comp_operator("=>"), Some(Operator::Return));
    assert_eq!(parse_comp_operator("=="), Some(Operator::Equality));
    assert_eq!(parse_comp_operator(":="), Some(Operator::Declassignment));
    assert_eq!(parse_comp_operator("::"), Some(Operator::NameSpaceNav));
    assert_eq!(parse_comp_operator("+-"), None);
    assert_eq!(parse_comp_operator("-"), None);
    assert_eq!(parse_comp_operator("->>"), None);
    assert_eq!(parse_comp_operator(""), None);
}

#[test]
fn composite_operators_are_the_seven() {
    let composite = [
        Operator::Declassignment,
        Operator::NameSpaceNav,
        Operator::Return,
        Operator::Into,
        Operator::LessThan,
        Operator::Equality,
        Operator::GreaterThan,
    ];
    let simple = [
        Operator::Discard,
        Operator::Minus,
        Operator::Plus,
        Operator::Times,
        Operator::Divide,
        Operator::Modulus,
        Operator::Assignment,
        Operator::Declaration,
    ];
    assert!(composite.iter().all(|op| op.is_composite()));
    assert!(simple.iter().all(|op| !op.is_composite()));
    assert_eq!(Operator::Declassignment.to_string(), "Declassignment");
    assert_eq!(Operator::Discard.to_string(), "Discard");
}

#[test]
fn interning_is_idempotent() {
    let mut table: Vec<Identifier> = vec![];
    assert_eq!(intern(&mut table, "a"), 0);
    assert_eq!(intern(&mut table, "b"), 1);
    assert_eq!(intern(&mut table, "a"), 0);
    assert_eq!(intern(&mut table, "b"), 1);
    assert_eq!(intern(&mut table, "ab"), 2);
    assert_eq!(table.len(), 3);
    assert_eq!(table[2], Identifier::new("ab"));
    assert_eq!(table[0].type_state, TypeState::Unchecked);
    assert_eq!(table[0].declaration_idx, 0);
}

#[test]
fn error_on_one_row_shows_row_and_columns() {
    let error = SyntaxError { position: span(3, 4, 9), reason: "why".to_string() };
    assert_eq!(error.to_string(), "At line 3, col 4:9. why");
    assert_eq!(CompileError::Syntax(error).to_string(), "At line 3, col 4:9. why");
}

#[test]
fn error_over_rows_shows_both_positions() {
    let error = SyntaxError {
        position: FileSpan::new(FilePosition::new(1, 2), FilePosition::new(3, 4)),
        reason: "why".to_string(),
    };
    assert_eq!(error.to_string(), "from row 1, col 2. to row 3, col 4. why");
}

#[test]
fn error_from_a_token_names_the_reason_or_the_token() {
    let token = Token::new(TokenKind::Comma, 2, 5, 5);
    let with = SyntaxError::from_token(&token, Some("no comma here"));
    assert_eq!(with.reason, "SyntaxError: no comma here");
    assert_eq!(with.position, span(2, 5, 5));
    let without = SyntaxError::from_token(&token, None);
    assert_eq!(without.reason, "SyntaxError. Comma");
    let last = Token::new(TokenKind::EOF, 4, 1, 1);
    let both = SyntaxError::from_tokens(&token, &last, None);
    assert_eq!(both.reason, "SyntaxError. from Comma, to End of file");
    assert_eq!(both.position, FileSpan::new(FilePosition::new(2, 5), FilePosition::new(4, 1)));
    let reasoned = SyntaxError::from_tokens(&token, &last, Some("gone"));
    assert_eq!(reasoned.reason, "SyntaxError: gone");
}

#[test]
fn positions_and_spans_are_written_out() {
    assert_eq!(FilePosition::new(3, 14).to_string(), "row 3, col 14");
    assert_eq!(span(1, 2, 3).to_string(), "from row 1, col 2, to row 1, col 3");
}

#[test]
fn token_kinds_are_written_out() {
    let literal = |llc_type: Type, value: &str| TokenKind::Literal(LiteralValue { llc_type, value: value.to_string() });
    assert_eq!(TokenKind::Null.to_string(), "Null token");
    assert_eq!(TokenKind::default(), TokenKind::Null);
    assert_eq!(TokenKind::Undefined("#".to_string()).to_string(), "Undefined: #");
    assert_eq!(
        literal(Type::Integer { signed: true, size: 32 }, "12").to_string(),
        "Literal value: Literal si32 (12)"
    );
    assert_eq!(
        literal(Type::Float { signed: false, size: 64 }, "1.5").to_string(),
        "Literal value: Literal uf64 (1.5)"
    );
    assert_eq!(literal(Type::String, "hi").to_string(), "Literal value: Literal string (hi)");
    assert_eq!(literal(Type::Char, "c").to_string(), "Literal value: Literal char (c)");
    assert_eq!(
        literal(Type::Block { input: None, output: None }, "b").to_string(),
        "Literal value: Literal () -> {} (b)"
    );
    assert_eq!(
        literal(Type::Block { input: Some(vec![Type::Char]), output: None }, "b").to_string(),
        "Literal value: Literal  -> {} (b)"
    );
    assert_eq!(TokenKind::Operator(Operator::Into).to_string(), "Operator: Into");
    assert_eq!(TokenKind::Identifier { index: 12 }.to_string(), "Identifier: 12");
    assert_eq!(TokenKind::Keyword(Keyword::Use).to_string(), "Keyword: use");
    assert_eq!(TokenKind::OpenParen.to_string(), "Opening parenthesis");
    assert_eq!(TokenKind::CloseParen.to_string(), "Closing parenthesis");
    assert_eq!(TokenKind::OpenCurly.to_string(), "Opening curly brace");
    assert_eq!(TokenKind::CloseCurly.to_string(), "Closing curly brace");
    assert_eq!(TokenKind::Comma.to_string(), "Comma");
    assert_eq!(TokenKind::EOI.to_string(), "End of instruction");
    assert_eq!(TokenKind::EOF.to_string(), "End of file");
    assert_eq!(
        Token::new(TokenKind::Comma, 1, 2, 2).to_string(),
        "from row 1, col 2, to row 1, col 2: Comma.\n"
    );
}

#[test]
fn types_are_copied_deeply() {
    let nested = Type::Block {
        input: Some(vec![Type::String, Type::Block { input: None, output: Some(Box::new(Type::Char)) }]),
        output: Some(Box::new(Type::Integer { signed: false, size: 8 })),
    };
    assert_eq!(nested.clone(), nested);
    let state = TypeState::Valid(nested);
    assert_eq!(state.clone(), state);
}

#[test]
fn stream_of_lines_hands_out_each_line_once() {
    let mut stream = FileStream::new("ab\n\ncd\n");
    let first = stream.get_next().unwrap();
    assert_eq!(first.number, 0);
    assert_eq!(first.content, vec!['a', 'b']);
    assert_eq!(first.current_index, 0);
    let second = stream.get_next().unwrap();
    assert_eq!(second.number, 1);
    assert!(second.content.is_empty());
    let third = stream.get_next().unwrap();
    assert_eq!(third.number, 2);
    assert_eq!(third.content, vec!['c', 'd']);
    let fourth = stream.get_next().unwrap();
    assert_eq!(fourth.number, 3);
    assert!(fourth.content.is_empty());
    assert!(stream.get_next().is_none());
    assert!(stream.get_next().is_none());
}

#[test]
fn empty_text_has_one_empty_line() {
    let mut stream = FileStream::new("");
    let only = stream.get_next().unwrap();
    assert_eq!(only.number, 0);
    assert!(only.content.is_empty());
    assert!(stream.get_next().is_none());
}

#[test]
fn line_cursor_reads_and_backtracks() {
    let mut line = FileLine::new("xyz", 4);
    assert_eq!(line.number, 4);
    assert!(line.can_read());
    assert_eq!(line.get_next(), Some('x'));
    assert_eq!(line.get_next(), Some('y'));
    line.backtrack(1);
    assert_eq!(line.get_next(), Some('y'));
    assert_eq!(line.get_next(), Some('z'));
    assert!(!line.can_read());
    assert_eq!(line.get_next(), None);
    assert_eq!(line.current_index, 3);
    line.backtrack(5);
    assert_eq!(line.current_index, 0);
    line.backtrack(1);
    assert_eq!(line.current_index, 0);
    assert_eq!(line.get_next(), Some('x'));
}

#[test]
fn buffer_gives_each_node_its_index() {
    let mut buffer = ParserBuffer::new();
    assert_eq!(buffer.len(), 0);
    let node = |index: usize| AstNode {
        kind: AstNodeKind::Expression(Expression::Identifier { index }),
        position: span(1, 1, 1),
    };
    assert_eq!(buffer.push_node(node(7)), 0);
    assert_eq!(buffer.push_node(node(8)), 1);
    assert_eq!(buffer.len(), 2);
    assert_eq!(buffer.get(1), &node(8));
    assert_eq!(buffer.get_node_id(1), 1);
    buffer.push_error(SyntaxError { position: span(1, 1, 1), reason: "r".to_string() });
    assert_eq!(buffer.errors.len(), 1);
    assert_eq!(buffer.nodes.len(), 2);
}
