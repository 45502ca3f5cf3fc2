use llc_core::common::identifier::{Identifier, TypeState};
use llc_core::common::literal::LiteralValue;
use llc_core::common::operator::Operator;
use llc_core::common::position::{FilePosition, FileSpan};
use llc_core::lexer::lexer::{get_tokens, LexedFile};
use llc_core::lexer::token::{Token, TokenKind};
use llc_core::lexer::token_stream::TokenStream;
use llc_core::parser::ast_node::{AstNode, AstNodeKind, Expression, ParsingResult, Statement};
use llc_core::parser::block;
use llc_core::parser::parser::FileAst;
use llc_core::type_system::llc_type::Type;

fn span(row: usize, begin: usize, end: usize) -> FileSpan {
    FileSpan::new(FilePosition::new(row, begin), FilePosition::new(row, end))
}

fn between(begin: (usize, usize), end: (usize, usize)) -> FileSpan {
    FileSpan::new(FilePosition::new(begin.0, begin.1), FilePosition::new(end.0, end.1))
}

fn integer(text: &str) -> LiteralValue {
    LiteralValue { llc_type: Type::Integer { signed: true, size: 32 }, value: text.to_string() }
}

fn declarations(ast: &FileAst) -> usize {
    ast.nodes
        .iter()
        .filter(|n| matches!(n.kind, AstNodeKind::Statement(Statement::Declaration { .. })))
        .count()
}

#[test]
fn declaration_of_a_literal_gives_one_root_and_types_the_identifier() {
    let ast = FileAst::new("decl.llc", "x := 1;");
    assert!(ast.errors.is_empty());
    assert_eq!(
        ast.nodes,
        vec![
            AstNode {
                kind: AstNodeKind::Expression(Expression::Identifier { index: 0 }),
                position: span(0, 1, 1),
            },
            AstNode {
                kind: AstNodeKind::Expression(Expression::Literal(integer("1"))),
                position: span(1, 6, 6),
            },
            AstNode {
                kind: AstNodeKind::Statement(Statement::Declaration { ident_index: 0 }),
                position: between((0, 1), (1, 6)),
            },
        ]
    );
    assert_eq!(ast.root_nodes, vec![2]);
    assert_eq!(ast.identifiers.len(), 1);
    assert_eq!(ast.identifiers[0].name, "x");
    assert_eq!(
        ast.identifiers[0].type_state,
        TypeState::Valid(Type::Integer { signed: true, size: 32 })
    );
    assert_eq!(ast.identifiers[0].declaration_idx, 2);
    assert_eq!(ast.file_name, "decl.llc");
}

#[test]
fn declaration_of_every_literal_type_types_the_identifier() {
    let float = FileAst::new("f.llc", "f := 2.5;");
    assert_eq!(float.root_nodes.len(), 1);
    assert_eq!(float.identifiers[0].type_state, TypeState::Valid(Type::Float { signed: true, size: 32 }));
    let string = FileAst::new("s.llc", "s := \"text\";");
    assert_eq!(string.root_nodes.len(), 1);
    assert_eq!(string.identifiers[0].type_state, TypeState::Valid(Type::String));
    assert_eq!(declarations(&string), 1);
}

#[test]
fn second_use_of_a_name_refers_to_the_same_entry() {
    let ast = FileAst::new("two.llc", "a := 1; b := a;");
    assert!(ast.errors.is_empty());
    let named_a = ast.identifiers.iter().filter(|i| i.name == "a").count();
    assert_eq!(named_a, 1);
    assert_eq!(ast.identifiers.len(), 2);
    assert_eq!(ast.root_nodes, vec![2, 5]);
    assert_eq!(ast.nodes[3].kind, AstNodeKind::Expression(Expression::Identifier { index: 1 }));
    assert_eq!(ast.nodes[4].kind, AstNodeKind::Expression(Expression::Identifier { index: 0 }));
    assert_eq!(ast.nodes[5].kind, AstNodeKind::Statement(Statement::Declaration { ident_index: 3 }));
    assert_eq!(ast.identifiers[1].type_state, TypeState::Unchecked);
    assert_eq!(ast.identifiers[1].declaration_idx, 5);
    assert_eq!(ast.identifiers[0].declaration_idx, 2);
}

#[test]
fn declaration_without_a_value_gives_one_error() {
    let ast = FileAst::new("bad.llc", "x := ;");
    assert_eq!(ast.errors.len(), 1);
    assert!(ast.errors[0].reason.contains("expected a value after operator :="));
    assert_eq!(ast.errors[0].position, span(1, 6, 7));
    assert!(ast.root_nodes.is_empty());
    assert_eq!(declarations(&ast), 0);
    assert_eq!(ast.identifiers[0].type_state, TypeState::Unchecked);
}

#[test]
fn parsing_goes_on_after_a_declaration_without_a_value() {
    let ast = FileAst::new("bad.llc", "x := ;\nskipped := 0;\nagain := 0;\ny := 2;");
    assert_eq!(ast.errors.len(), 1);
    assert!(ast.errors[0].reason.contains("expected a value after operator :="));
    assert_eq!(ast.errors[0].position, between((1, 6), (2, 13)));
    assert_eq!(ast.root_nodes.len(), 1);
    let root = &ast.nodes[ast.root_nodes[0]];
    assert_eq!(root.position, between((3, 1), (4, 6)));
    assert_eq!(ast.identifiers[3].name, "y");
    assert_eq!(
        ast.identifiers[3].type_state,
        TypeState::Valid(Type::Integer { signed: true, size: 32 })
    );
}

#[test]
fn block_is_one_node_from_brace_to_brace() {
    let lexed = get_tokens("block.llc", "{ x := 1; y := 2; }");
    assert!(lexed.errors.is_empty());
    let mut stream = lexed.stream;
    let mut ast = FileAst {
        file_name: lexed.file_name,
        nodes: vec![],
        errors: lexed.errors,
        identifiers: lexed.identifiers,
        root_nodes: vec![],
    };
    let result = block::parse(&mut stream, &mut ast);
    assert_eq!(result, ParsingResult::Parsed);
    assert!(ast.errors.is_empty());
    let blocks: Vec<&AstNode> = ast
        .nodes
        .iter()
        .filter(|n| n.kind == AstNodeKind::Expression(Expression::Block))
        .collect();
    assert_eq!(blocks.len(), 1);
    assert_eq!(blocks[0].position, span(1, 1, 19));
    assert_eq!(ast.nodes.last().unwrap().kind, AstNodeKind::Expression(Expression::Block));
    assert_eq!(declarations(&ast), 2);
    assert!(!stream.can_read());
}

#[test]
fn block_spans_its_braces_whatever_it_holds() {
    for (text, end_row, end_col) in [("{};", 1, 2), ("{ a; };", 1, 6), ("{\n a := 1;\n b := 2;\n c;\n};", 5, 1)] {
        let ast = FileAst::new("block.llc", text);
        assert!(ast.errors.is_empty());
        assert_eq!(ast.root_nodes.len(), 1);
        let root = &ast.nodes[ast.root_nodes[0]];
        assert_eq!(root.kind, AstNodeKind::Expression(Expression::Block));
        assert_eq!(root.position, between((1, 1), (end_row, end_col)));
    }
}

#[test]
fn block_without_its_end_is_refused() {
    let ast = FileAst::new("open.llc", "{ a;");
    assert_eq!(ast.errors.len(), 2);
    assert_eq!(ast.errors[0].reason, "SyntaxError: missing scope end }");
    assert_eq!(ast.errors[0].position, span(1, 5, 5));
    assert!(ast.errors[1].reason.starts_with("SyntaxError: Unexpected token encountered"));
    assert!(ast.root_nodes.is_empty());
}

#[test]
fn use_directive_is_no_statement() {
    let ast = FileAst::new("use.llc", "use a::b::c;");
    assert_eq!(declarations(&ast), 0);
    assert!(ast.nodes.is_empty());
    assert!(ast.root_nodes.is_empty());
    assert_eq!(ast.errors.len(), 1);
    assert_eq!(ast.errors[0].reason, "cannot parse this node");
    assert_eq!(ast.errors[0].position, between((0, 1), (1, 12)));
}

#[test]
fn every_line_that_is_no_statement_gives_one_error() {
    let ast = FileAst::new("use.llc", "use a;\nuse b;\n, , ;");
    assert_eq!(ast.errors.len(), 3);
    assert!(ast.errors.iter().all(|e| e.reason.contains("cannot parse")));
    assert_eq!(declarations(&ast), 0);
    assert!(ast.root_nodes.is_empty());
    assert_eq!(ast.errors[2].position, span(3, 1, 5));
}

#[test]
fn lexical_error_stops_the_parser() {
    let ast = FileAst::new("lex.llc", "# x := 1;");
    assert_eq!(ast.errors.len(), 1);
    assert!(ast.errors[0].reason.contains("Undefined token"));
    assert!(ast.nodes.is_empty());
    assert!(ast.root_nodes.is_empty());
    assert_eq!(ast.identifiers.len(), 1);
    assert_eq!(ast.identifiers[0].type_state, TypeState::Unchecked);
}

#[test]
fn return_with_a_value_spans_to_the_value() {
    let ast = FileAst::new("ret.llc", "=> x;");
    assert!(ast.errors.is_empty());
    assert_eq!(ast.root_nodes, vec![1]);
    assert_eq!(ast.nodes[1].kind, AstNodeKind::Statement(Statement::Return));
    assert_eq!(ast.nodes[1].position, between((1, 1), (0, 4)));
}

#[test]
fn return_without_a_value_spans_the_operator() {
    let ast = FileAst::new("ret.llc", "=>;\n=> 1;");
    assert!(ast.errors.is_empty());
    assert_eq!(ast.root_nodes, vec![0, 2]);
    assert_eq!(ast.nodes[0].kind, AstNodeKind::Statement(Statement::Return));
    assert_eq!(ast.nodes[0].position, span(1, 1, 2));
    assert_eq!(ast.nodes[2].position, between((2, 1), (2, 4)));
}

#[test]
fn return_without_value_or_terminator_is_refused() {
    let ast = FileAst::new("ret.llc", "=> , ;");
    assert_eq!(ast.errors.len(), 1);
    assert_eq!(ast.errors[0].reason, "expected ; or a value after return keyword");
    assert_eq!(ast.errors[0].position, span(1, 4, 6));
    assert!(ast.root_nodes.is_empty());
}

#[test]
fn function_call_follows_its_argument() {
    let ast = FileAst::new("call.llc", "a -> f;");
    assert!(ast.errors.is_empty());
    assert_eq!(ast.nodes.len(), 4);
    assert_eq!(ast.nodes[1].kind, AstNodeKind::Expression(Expression::Identifier { index: 0 }));
    assert_eq!(ast.nodes[2].kind, AstNodeKind::Expression(Expression::Identifier { index: 1 }));
    assert_eq!(ast.nodes[3].kind, AstNodeKind::Expression(Expression::FunctionCall));
    assert_eq!(ast.nodes[3].position, between((1, 3), (0, 6)));
    assert_eq!(ast.root_nodes, vec![3]);
}

#[test]
fn function_calls_can_be_chained_and_can_lead() {
    let chained = FileAst::new("call.llc", "x := 1 -> f -> g;");
    assert!(chained.errors.is_empty());
    assert_eq!(chained.root_nodes.len(), 1);
    assert_eq!(chained.identifiers[0].type_state, TypeState::Unchecked);
    let leading = FileAst::new("call.llc", "-> f;");
    assert!(leading.errors.is_empty());
    assert_eq!(leading.root_nodes, vec![1]);
    assert_eq!(leading.nodes[1].kind, AstNodeKind::Expression(Expression::FunctionCall));
}

#[test]
fn function_call_without_a_callee_is_refused() {
    let ast = FileAst::new("call.llc", "a -> 1;");
    assert_eq!(ast.errors.len(), 2);
    assert_eq!(
        ast.errors[0].reason,
        "SyntaxError: Expected an expression after operator -> in function call expression but found Literal value: Literal si32 (1)."
    );
    assert_eq!(ast.errors[0].position, span(1, 6, 6));
    assert!(ast.root_nodes.is_empty());
}

#[test]
fn expression_that_goes_on_without_an_operator_is_refused() {
    let ast = FileAst::new("exp.llc", "a b;\nc := 3;");
    assert_eq!(ast.errors.len(), 1);
    assert_eq!(
        ast.errors[0].reason,
        "SyntaxError: Unexpected token encountered while trying to parse expression. Expected one of(;, function call, function body, operator) after Identifier: 1 but found End of instruction"
    );
    assert_eq!(ast.errors[0].position, span(1, 4, 4));
    assert_eq!(ast.root_nodes.len(), 1);
    assert_eq!(ast.identifiers[2].name, "c");
    assert_eq!(ast.identifiers[2].declaration_idx, ast.root_nodes[0]);
}

#[test]
fn statement_without_terminator_is_refused() {
    let ast = FileAst::new("exp.llc", "x := 1");
    assert_eq!(ast.errors.len(), 1);
    assert!(ast.errors[0].reason.ends_with("after End of file but found End of file"));
    assert_eq!(ast.errors[0].position, span(1, 7, 7));
    assert!(ast.root_nodes.is_empty());
}

#[test]
fn bare_expression_is_a_statement_and_leaves_a_node_behind() {
    let ast = FileAst::new("exp.llc", "a;");
    assert!(ast.errors.is_empty());
    assert_eq!(ast.nodes.len(), 2);
    assert_eq!(ast.root_nodes, vec![1]);
    assert_eq!(ast.identifiers[0].declaration_idx, 0);
}

#[test]
fn statement_in_a_block_that_is_none_is_given_up() {
    let ast = FileAst::new("block.llc", "{ use a; b := 1; };");
    assert_eq!(ast.errors.len(), 1);
    assert_eq!(ast.errors[0].reason, "cannot parse this node");
    assert_eq!(ast.root_nodes.len(), 1);
    let root = &ast.nodes[ast.root_nodes[0]];
    assert_eq!(root.kind, AstNodeKind::Expression(Expression::Block));
    assert_eq!(declarations(&ast), 1);
}

#[test]
fn empty_file_has_an_empty_tree() {
    let ast = FileAst::new("empty.llc", "");
    assert!(ast.nodes.is_empty());
    assert!(ast.errors.is_empty());
    assert!(ast.identifiers.is_empty());
    assert!(ast.root_nodes.is_empty());
}

#[test]
fn nodes_are_shown_by_their_names() {
    let ast = FileAst::new("show.llc", "x := 1;\n=> { x -> f; };");
    assert!(ast.errors.is_empty());
    let shown: Vec<String> = ast.nodes.iter().map(|n| n.to_string()).collect();
    assert_eq!(
        shown,
        vec![
            "Identifier(0)",
            "Literal(1)",
            "Declaration",
            "Identifier(0)",
            "Identifier(0)",
            "Identifier(1)",
            "FunctionCall",
            "BlockExpression",
            "Return",
        ]
    );
}

#[test]
fn tree_is_shown_by_its_roots() {
    let ast = FileAst::new("show.llc", "x := 1;\ny;\n=>;");
    assert!(ast.errors.is_empty());
    assert_eq!(ast.to_string(), "Declaration\nIdentifier(1)\nReturn");
    assert_eq!(FileAst::new("show.llc", "").to_string(), "");
    assert_eq!(FileAst::new("show.llc", "{};").to_string(), "BlockExpression");
}

#[test]
fn roots_are_nodes_in_the_order_of_the_file() {
    let ast = FileAst::new("roots.llc", "a := 1;\n{ b := 2; c; };\n=> a -> f;\nd;");
    assert!(ast.errors.is_empty());
    assert_eq!(ast.root_nodes.len(), 4);
    assert!(ast.root_nodes.windows(2).all(|w| w[0] < w[1]));
    assert!(ast.root_nodes.iter().all(|&r| r < ast.nodes.len()));
    for (at, node) in ast.nodes.iter().enumerate() {
        if let AstNodeKind::Statement(Statement::Declaration { ident_index }) = node.kind {
            assert!(ident_index < at);
            assert!(matches!(
                ast.nodes[ident_index].kind,
                AstNodeKind::Expression(Expression::Identifier { .. })
            ));
        }
    }
}

#[test]
fn tokens_made_by_hand_are_parsed_as_scanned_ones() {
    let tokens = vec![
        Token::new(TokenKind::Identifier { index: 1 }, 7, 1, 4),
        Token::new(TokenKind::Operator(Operator::Declassignment), 7, 6, 7),
        Token::new(
            TokenKind::Literal(LiteralValue { llc_type: Type::Char, value: "c".to_string() }),
            7,
            9,
            9,
        ),
        Token::single_char(TokenKind::EOI, 7, 10),
        Token::single_char(TokenKind::EOF, 8, 1),
    ];
    let lexed = LexedFile {
        file_name: "hand.llc".to_string(),
        stream: TokenStream::new(tokens),
        errors: vec![],
        identifiers: vec![Identifier::new("other"), Identifier::new("name")],
    };
    let ast = FileAst::parse(lexed);
    assert!(ast.errors.is_empty());
    assert_eq!(ast.root_nodes, vec![2]);
    assert_eq!(ast.nodes.len(), 3);
    assert_eq!(ast.nodes[2].kind, AstNodeKind::Statement(Statement::Declaration { ident_index: 0 }));
    assert_eq!(ast.nodes[2].position, between((7, 1), (7, 9)));
    assert_eq!(ast.identifiers[1].type_state, TypeState::Valid(Type::Char));
    assert_eq!(ast.identifiers[1].declaration_idx, 2);
    assert_eq!(ast.identifiers[0].type_state, TypeState::Unchecked);
    assert_eq!(ast.identifiers[0].declaration_idx, 0);
}

#[test]
fn second_declaration_types_the_identifier_anew() {
    let ast = FileAst::new("again.llc", "a := 1;\na := \"s\";\na := b;");
    assert!(ast.errors.is_empty());
    assert_eq!(ast.identifiers[0].type_state, TypeState::Valid(Type::String));
    assert_eq!(ast.identifiers[0].declaration_idx, ast.root_nodes[2]);
}
