use vstd::prelude::*;
use crate::common::identifier::{identifier_models, TypeState};
use crate::common::operator::Operator;
use crate::common::position::FileSpan;
use crate::lexer::token::{token_models, Token, TokenKind, TokenKindModel};
use crate::lexer::token_stream::TokenStream;
use crate::parser::ast_node::{
    node_models,
    AstNode,
    AstNodeKind,
    AstNodeModel,
    Expression,
    ParsingResult,
    Statement,
};
use crate::parser::expression;
use crate::parser::identifier;
use crate::parser::parser::{
    give_up,
    lemma_token_model_at,
    parsed_as,
    ready,
    state_of,
    FileAst,
};
use crate::parser::rules::{declare, lemma_push_keeps_arena, remaining, spec_parse_declaration};
use crate::type_system::llc_type::Type;

verus! {

/// Parses a declaration: an identifier, `:=` and an expression. Appends
/// the identifier's node, the nodes of the expression and the
/// declaration's node, gives the identifier the type of a literal value,
/// and records the declaration's node with the identifier. Where no
/// identifier stands under the cursor, nothing is read. Where no `:=`
/// follows it, the cursor goes back, and the identifier's node stays.
/// Where no expression follows `:=`, the statement is given up.
pub fn parse(stream: &mut TokenStream, file_ast: &mut FileAst) -> (result: ParsingResult)
    requires
        ready(old(stream), old(file_ast)),
    ensures
        parsed_as(
            spec_parse_declaration(
                token_models(old(stream).tokens@),
                state_of(old(stream), old(file_ast)),
            ),
            result,
            old(stream),
            old(file_ast),
            final(stream),
            final(file_ast),
        ),
    decreases remaining(token_models(old(stream).tokens@), old(stream).cursor()), 4nat,
{
    let ghost tokens = token_models(stream.tokens@);
    proof {
        lemma_token_model_at(stream, stream.cursor());
    }
    let start = stream.current_index;
    let name = stream.peek(0);
    let index = match name.kind {
        TokenKind::Identifier { index } => index,
        _ => {
            return ParsingResult::Other;
        },
    };
    let name_position = name.position;
    match identifier::parse(stream, file_ast) {
        ParsingResult::Parsed => {},
        _ => {
            return ParsingResult::Other;
        },
    }
    let ident_node = file_ast.nodes.len() - 1;
    let ghost named = state_of(stream, file_ast);
    proof {
        lemma_token_model_at(stream, stream.cursor());
    }
    let is_declassignment = |token: &Token| -> (found: bool)
        ensures
            found == (token@.kind == TokenKindModel::Operator(Operator::Declassignment)),
        { token.kind.is_operator(Operator::Declassignment) };
    if !stream.skip_if(is_declassignment) {
        stream.current_index = start;
        return ParsingResult::Other;
    }
    match expression::parse(stream, file_ast) {
        ParsingResult::Parsed => {},
        ParsingResult::Error => {
            return ParsingResult::Error;
        },
        ParsingResult::Other => {
            give_up(stream, file_ast, "expected a value after operator :=");
            return ParsingResult::Error;
        },
    }
    let ghost parsed = state_of(stream, file_ast);
    let value = file_ast.nodes.len() - 1;
    let value_position = file_ast.nodes[value].position;
    let value_type: Option<Type> = match &file_ast.nodes[value].kind {
        AstNodeKind::Expression(Expression::Literal(literal)) => Some(literal.llc_type.clone()),
        _ => None,
    };
    let position = FileSpan::combine(&name_position, &value_position);
    file_ast.nodes.push(
        AstNode { kind: AstNodeKind::Statement(Statement::Declaration { ident_index: ident_node }), position },
    );
    assert(node_models(file_ast.nodes@) =~= parsed.nodes.push(
        AstNodeModel::declaration(ident_node, position),
    ));
    proof {
        assert(parsed.nodes[ident_node as int] == named.nodes[ident_node as int]);
        lemma_push_keeps_arena(
            parsed.nodes,
            AstNodeModel::declaration(ident_node, position),
            file_ast.identifiers@.len(),
        );
    }
    let declaration_idx = file_ast.nodes.len() - 1;
    let entry = &mut file_ast.identifiers[index];
    if let Some(llc_type) = value_type {
        entry.type_state = TypeState::Valid(llc_type);
    }
    entry.declaration_idx = declaration_idx;
    assert(identifier_models(file_ast.identifiers@) =~= declare(
        parsed,
        ident_node,
        index,
        name_position,
    ).identifiers);
    ParsingResult::Parsed
}

} // verus!
