use vstd::prelude::*;
use crate::common::literal::LiteralValue;
use crate::common::position::FileSpan;
use crate::lexer::token::{token_models, Token, TokenKind, TokenKindModel, TokenModel};
use crate::lexer::token_stream::TokenStream;
use crate::parser::ast_node::{
    node_models,
    AstNode,
    AstNodeKind,
    AstNodeModel,
    Expression,
    ParsingResult,
};
use crate::parser::parser::{lemma_token_model_at, parsed_as, ready, state_of, FileAst};
use crate::parser::rules::{lemma_push_keeps_arena, spec_parse_literal};

verus! {

/// Whether `found` is what a literal token hands out, a copy of its
/// literal and its span, and nothing for any other token.
pub open spec fn literal_of(token: TokenModel, found: Option<(LiteralValue, FileSpan)>) -> bool {
    match found {
        Some((literal, position)) => token.kind == TokenKindModel::Literal(literal@) && position
            == token.position,
        None => !(token.kind is Literal),
    }
}

/// Parses a literal expression: reads one literal token and appends its
/// node. Where another token stands under the cursor, nothing is read and
/// nothing appended.
pub fn parse(stream: &mut TokenStream, file_ast: &mut FileAst) -> (result: ParsingResult)
    requires
        ready(old(stream), old(file_ast)),
    ensures
        parsed_as(
            spec_parse_literal(
                token_models(old(stream).tokens@),
                state_of(old(stream), old(file_ast)),
            ),
            result,
            old(stream),
            old(file_ast),
            final(stream),
            final(file_ast),
        ),
{
    proof {
        lemma_token_model_at(stream, stream.cursor());
    }
    let as_literal = |token: &Token| -> (found: Option<(LiteralValue, FileSpan)>)
        ensures
            literal_of(token@, found),
        {
            match &token.kind {
                TokenKind::Literal(literal) => Some((literal.clone(), token.position)),
                _ => None,
            }
        };
    match stream.take_if(as_literal) {
        Some((literal, position)) => {
            let ghost nodes = node_models(file_ast.nodes@);
            let ghost model = literal@;
            let node = AstNode { position, kind: AstNodeKind::Expression(Expression::Literal(literal)) };
            file_ast.nodes.push(node);
            assert(node_models(file_ast.nodes@) =~= nodes.push(
                AstNodeModel::literal(model, position),
            ));
            proof {
                lemma_push_keeps_arena(
                    nodes,
                    AstNodeModel::literal(model, position),
                    file_ast.identifiers@.len(),
                );
            }
            ParsingResult::Parsed
        },
        None => ParsingResult::Other,
    }
}

} // verus!
