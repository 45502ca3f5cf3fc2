use llc_core::lexer::lexer::get_tokens;
use llc_core::lexer::token::TokenKind;
use llc_core::parser::ast_node::{AstNodeKind, Expression, Statement};
use llc_core::parser::parser::FileAst;

const ALPHABET: [char; 24] = [
    'a', 'b', 'c', '1', '2', '.', '_', ' ', ' ', ';', ';', ':', '=', '-', '>', '{', '}', '"', '/',
    '\n', '#', '<', ',', 'u',
];

fn next(seed: &mut u64) -> u64 {
    *seed = seed.wrapping_mul(6364136223846793005).wrapping_add(1442695040888963407);
    *seed >> 33
}

fn text(seed: &mut u64) -> String {
    let length = next(seed) % 40;
    let mut text = String::new();
    for _ in 0..length {
        text.push(ALPHABET[(next(seed) % 24) as usize]);
    }
    text
}

#[test]
fn every_scan_ends_in_one_end_of_file_and_interns_each_name_once() {
    let mut seed = 7;
    for _ in 0..2000 {
        let source = text(&mut seed);
        let lexed = get_tokens("any.llc", &source);
        let tokens = &lexed.stream.tokens;
        assert_eq!(tokens.last().unwrap().kind, TokenKind::EOF, "{:?}", source);
        assert_eq!(tokens.iter().filter(|t| t.kind == TokenKind::EOF).count(), 1);
        for (i, first) in lexed.identifiers.iter().enumerate() {
            for second in lexed.identifiers.iter().skip(i + 1) {
                assert!(first.name != second.name, "{:?}", source);
            }
        }
        let lines: Vec<Vec<char>> = source.split('\n').map(|l| l.chars().collect()).collect();
        for token in tokens.iter() {
            if let TokenKind::Identifier { index } = token.kind {
                let line = &lines[token.position.begin.row];
                let spelled: String =
                    line[token.position.begin.col - 1..token.position.end.col].iter().collect();
                assert_eq!(lexed.identifiers[index].name, spelled, "{:?}", source);
            }
        }
    }
}

#[test]
fn every_tree_is_in_order() {
    let mut seed = 11;
    for _ in 0..2000 {
        let source = text(&mut seed);
        let lexed = get_tokens("any.llc", &source);
        let ast = FileAst::new("any.llc", &source);
        assert_eq!(ast.identifiers.len(), lexed.identifiers.len());
        if !lexed.errors.is_empty() {
            assert!(ast.nodes.is_empty(), "{:?}", source);
            assert!(ast.root_nodes.is_empty());
            assert_eq!(ast.errors, lexed.errors);
        }
        assert!(ast.root_nodes.windows(2).all(|w| w[0] < w[1]), "{:?}", source);
        assert!(ast.root_nodes.iter().all(|&r| r < ast.nodes.len()), "{:?}", source);
        for (at, node) in ast.nodes.iter().enumerate() {
            match node.kind {
                AstNodeKind::Statement(Statement::Declaration { ident_index }) => {
                    assert!(ident_index < at);
                    assert!(matches!(
                        ast.nodes[ident_index].kind,
                        AstNodeKind::Expression(Expression::Identifier { .. })
                    ));
                }
                AstNodeKind::Expression(Expression::Identifier { index }) => {
                    assert!(index < ast.identifiers.len());
                }
                _ => {}
            }
        }
        for (index, identifier) in ast.identifiers.iter().enumerate() {
            assert_eq!(identifier.name, lexed.identifiers[index].name);
            assert!(identifier.declaration_idx == 0 || identifier.declaration_idx < ast.nodes.len());
        }
        ast.to_string();
        for error in ast.errors.iter() {
            assert!(!error.to_string().is_empty());
        }
    }
}
