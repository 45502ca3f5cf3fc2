use llc_core::common::operator::Operator;
use llc_core::common::position::FileSpan;
use llc_core::lexer::lexer::get_tokens;
use llc_core::lexer::token::{Token, TokenKind};
use llc_core::lexer::token_stream::TokenStream;

fn stream_of(text: &str) -> TokenStream {
    get_tokens("stream.llc", text).stream
}

#[test]
fn peek_looks_both_ways_and_past_the_end() {
    let mut stream = stream_of("a := 1;");
    assert_eq!(stream.peek(0).kind, TokenKind::Identifier { index: 0 });
    assert_eq!(stream.peek(1).kind, TokenKind::Operator(Operator::Declassignment));
    assert_eq!(stream.peek(3).kind, TokenKind::EOI);
    assert_eq!(stream.peek(4).kind, TokenKind::EOF);
    assert_eq!(stream.peek(5).kind, TokenKind::EOF);
    assert_eq!(stream.peek(1000).kind, TokenKind::EOF);
    assert_eq!(stream.peek(-1).kind, TokenKind::EOF);
    stream.skip(2);
    assert_eq!(stream.peek(-1).kind, TokenKind::Operator(Operator::Declassignment));
    assert_eq!(stream.peek(-2).kind, TokenKind::Identifier { index: 0 });
    assert_eq!(stream.peek(-3).kind, TokenKind::EOF);
}

#[test]
fn take_returns_the_token_it_passes() {
    let mut stream = stream_of("a b");
    assert_eq!(stream.take().kind, TokenKind::Identifier { index: 0 });
    assert_eq!(stream.take().kind, TokenKind::Identifier { index: 1 });
    assert!(!stream.can_read());
    assert_eq!(stream.take().kind, TokenKind::EOF);
    assert_eq!(stream.take().kind, TokenKind::EOF);
    assert_eq!(stream.peek(0).kind, TokenKind::EOF);
    assert_eq!(stream.peek(-1).kind, TokenKind::EOF);
    assert_eq!(stream.peek(-2).kind, TokenKind::EOF);
    assert_eq!(stream.peek(-3).kind, TokenKind::Identifier { index: 1 });
    assert_eq!(stream.current_index, 4);
}

#[test]
fn can_read_ends_on_the_last_token() {
    let mut stream = stream_of("a;");
    assert!(stream.can_read());
    stream.take();
    assert!(stream.can_read());
    stream.take();
    assert!(!stream.can_read());
    assert!(!stream_of("").can_read());
}

#[test]
fn take_if_moves_only_on_a_match() {
    let mut stream = stream_of("a := 1;");
    let as_operator = |t: &Token| match t.kind {
        TokenKind::Operator(op) => Some(op),
        _ => None,
    };
    assert_eq!(stream.take_if(as_operator), None);
    assert_eq!(stream.current_index, 0);
    let as_identifier = |t: &Token| -> Option<(usize, FileSpan)> {
        match t.kind {
            TokenKind::Identifier { index } => Some((index, t.position)),
            _ => None,
        }
    };
    let found = stream.take_if(as_identifier);
    assert_eq!(found.map(|f| f.0), Some(0));
    assert_eq!(stream.current_index, 1);
    assert_eq!(stream.take_if(as_operator), Some(Operator::Declassignment));
    assert_eq!(stream.current_index, 2);
}

#[test]
fn skip_if_moves_only_on_a_match() {
    let mut stream = stream_of("; a");
    assert!(stream.skip_if(|t: &Token| t.kind == TokenKind::EOI));
    assert_eq!(stream.current_index, 1);
    assert!(!stream.skip_if(|t: &Token| t.kind == TokenKind::EOI));
    assert_eq!(stream.current_index, 1);
}

#[test]
fn skip_until_stops_on_or_behind_the_match() {
    let is_end = |t: &Token| t.kind == TokenKind::EOI || t.kind == TokenKind::EOF;
    let mut stream = stream_of("a b c; d e");
    stream.skip_until(is_end, false);
    assert_eq!(stream.current_index, 3);
    stream.skip_until(is_end, false);
    assert_eq!(stream.current_index, 3);
    stream.skip_until(is_end, true);
    assert_eq!(stream.current_index, 4);
    stream.skip_until(is_end, true);
    assert_eq!(stream.current_index, 7);
    stream.skip_until(is_end, false);
    assert_eq!(stream.current_index, 7);
    stream.skip_until(is_end, true);
    assert_eq!(stream.current_index, 8);
    assert_eq!(stream.peek(0).kind, TokenKind::EOF);
}

#[test]
fn skip_moves_on_by_its_count() {
    let mut stream = stream_of("a b c");
    stream.skip(2);
    assert_eq!(stream.current_index, 2);
    assert_eq!(stream.peek(0).kind, TokenKind::Identifier { index: 2 });
    stream.skip(0);
    assert_eq!(stream.current_index, 2);
    stream.skip(5);
    assert_eq!(stream.current_index, 7);
    assert_eq!(stream.peek(0).kind, TokenKind::EOF);
    assert!(!stream.can_read());
}

#[test]
fn new_stream_starts_at_the_first_token() {
    let tokens = vec![Token::single_char(TokenKind::Comma, 1, 1), Token::single_char(TokenKind::EOF, 1, 2)];
    let stream = TokenStream::new(tokens);
    assert_eq!(stream.current_index, 0);
    assert_eq!(stream.tokens.len(), 2);
    assert_eq!(stream.peek(0).kind, TokenKind::Comma);
}
