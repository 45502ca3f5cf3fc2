use llc_core::common::identifier::Identifier;
use llc_core::common::operator::Operator;
use llc_core::common::syntax_error::SyntaxError;
use llc_core::lexer::file_stream::FileLine;
use llc_core::lexer::identifier_builder::build_identifier;
use llc_core::lexer::lexer::{
    build_single_char_token, eat_white_spaces, is_comment_line, scan_next, scan_rest_of_line,
};
use llc_core::lexer::literal_builder::{build_literal, build_literal_num, build_literal_str};
use llc_core::lexer::operator_builder::{build_operator, get_operator, OperatorScan};
use llc_core::lexer::token::{Token, TokenKind};

fn line_at(text: &str, cursor: usize) -> FileLine {
    let mut line = FileLine::new(text, 2);
    line.current_index = cursor;
    line
}

#[test]
fn scanner_that_declines_leaves_the_cursor() {
    let mut errors: Vec<SyntaxError> = vec![];
    let mut table: Vec<Identifier> = vec![];
    for (text, cursor) in [("x\"abc", 1), ("ab+", 0), ("a \"\"", 2), ("", 0), ("ab", 2), ("a._.", 1)] {
        let mut line = line_at(text, cursor);
        assert!(build_literal_str(&mut line).is_none());
        assert_eq!(line.current_index, cursor);
    }
    for (text, cursor) in [("x", 0), ("._", 0), ("", 0), ("1", 1), ("_._x", 0)] {
        let mut line = line_at(text, cursor);
        assert!(build_literal_num(&mut line, &mut errors).is_none());
        assert_eq!(line.current_index, cursor);
        assert!(build_literal(&mut line, &mut errors).is_none());
        assert_eq!(line.current_index, cursor);
    }
    for (text, cursor) in [("1a", 0), (" a", 0), ("", 0), ("a", 1), ("+", 0)] {
        let mut line = line_at(text, cursor);
        assert!(build_identifier(&mut line, &mut table).is_none());
        assert_eq!(line.current_index, cursor);
    }
    for (text, cursor) in [("a+", 0), ("", 0), ("+", 1), (";", 0)] {
        let mut line = line_at(text, cursor);
        assert!(build_operator(&mut line).is_none());
        assert_eq!(line.current_index, cursor);
        assert_eq!(get_operator(&mut line), OperatorScan::Nothing);
        assert_eq!(line.current_index, cursor);
    }
    for (text, cursor) in [("/", 0), ("/ /", 0), ("a//", 0), ("", 0), ("//", 1), ("//", 2)] {
        let mut line = line_at(text, cursor);
        assert!(!is_comment_line(&mut line));
        assert_eq!(line.current_index, cursor);
    }
    for (text, cursor) in [("a ", 0), ("", 0), (" ", 1)] {
        let mut line = line_at(text, cursor);
        assert!(!eat_white_spaces(&mut line));
        assert_eq!(line.current_index, cursor);
    }
    for (text, cursor) in [("a;", 0), ("", 0), (";", 1), ("+", 0)] {
        let mut line = line_at(text, cursor);
        assert!(build_single_char_token(&mut line).is_none());
        assert_eq!(line.current_index, cursor);
    }
    assert!(errors.is_empty());
    assert!(table.is_empty());
}

#[test]
fn scanner_that_reads_stops_behind_what_it_read() {
    let mut errors: Vec<SyntaxError> = vec![];
    let mut table: Vec<Identifier> = vec![];
    let mut line = line_at("  \"ab\"c", 2);
    assert!(build_literal_str(&mut line).is_some());
    assert_eq!(line.current_index, 6);
    let mut line = line_at("1_2.5x", 0);
    assert!(build_literal(&mut line, &mut errors).is_some());
    assert_eq!(line.current_index, 5);
    let mut line = line_at("ab_c+", 0);
    assert_eq!(
        build_identifier(&mut line, &mut table),
        Some(Token::new(TokenKind::Identifier { index: 0 }, 2, 1, 4))
    );
    assert_eq!(line.current_index, 4);
    let mut line = line_at("->>", 0);
    assert_eq!(get_operator(&mut line), OperatorScan::One(Operator::Into));
    assert_eq!(line.current_index, 2);
    assert_eq!(get_operator(&mut line), OperatorScan::One(Operator::GreaterThan));
    assert_eq!(line.current_index, 3);
    let mut line = line_at("=-x", 0);
    assert_eq!(get_operator(&mut line), OperatorScan::Two(Operator::Assignment, Operator::Minus));
    assert_eq!(line.current_index, 2);
    let mut line = line_at("x // rest", 2);
    assert!(is_comment_line(&mut line));
    assert_eq!(line.current_index, 9);
    let mut line = line_at("a \t b", 1);
    assert!(eat_white_spaces(&mut line));
    assert_eq!(line.current_index, 4);
    let mut line = line_at("){", 0);
    assert_eq!(build_single_char_token(&mut line), Some(Token::single_char(TokenKind::CloseParen, 3, 1)));
    assert_eq!(line.current_index, 1);
    assert!(errors.is_empty());
}

#[test]
fn number_with_a_second_point_is_given_up_behind_it() {
    let mut errors: Vec<SyntaxError> = vec![];
    let mut line = line_at("x 1.2.3", 2);
    assert!(build_literal_num(&mut line, &mut errors).is_none());
    assert_eq!(line.current_index, 6);
    assert_eq!(errors.len(), 1);
    assert_eq!(errors[0].reason, "floating point literal cannot contain more than one decimal point");
    assert_eq!(errors[0].position.begin.row, 2);
    assert_eq!(errors[0].position.begin.col, 7);
    assert_eq!(errors[0].position.end, errors[0].position.begin);
}

#[test]
fn steps_of_a_scan_add_up_to_the_line() {
    let text = "ab := \"s\" -> c; // done";
    let mut stepped = line_at(text, 0);
    let mut tokens: Vec<Token> = vec![];
    let mut table: Vec<Identifier> = vec![];
    let mut errors: Vec<SyntaxError> = vec![];
    let mut steps = 0;
    while stepped.can_read() {
        let before = stepped.current_index;
        scan_next(&mut stepped, &mut tokens, &mut table, &mut errors);
        assert!(stepped.current_index > before);
        steps += 1;
    }
    assert_eq!(steps, 12);
    let mut whole = line_at(text, 0);
    let mut all: Vec<Token> = vec![];
    let mut names: Vec<Identifier> = vec![];
    scan_rest_of_line(&mut whole, &mut all, &mut names, &mut errors);
    assert_eq!(whole.current_index, text.len());
    assert_eq!(all, tokens);
    assert_eq!(names, table);
    assert_eq!(all.len(), 6);
    assert!(errors.is_empty());
}
