use vstd::prelude::*;
use crate::common::position::FileSpan;
use crate::lexer::token::{token_models, Token, TokenKind, TokenKindModel, TokenModel};
use crate::lexer::token_stream::TokenStream;
use crate::parser::ast_node::{
    node_models,
    AstNode,
    AstNodeKind,
    AstNodeModel,
    Expression,
    ParsingResult,
};
use crate::parser::parser::{lemma_token_model_at, parsed_as, ready, state_of, FileAst};
use crate::parser::rules::{lemma_push_keeps_arena, spec_parse_identifier};

verus! {

/// The span and the index of an identifier token, and nothing for any
/// other token.
pub open spec fn identifier_of(token: TokenModel) -> Option<(FileSpan, usize)> {
    match token.kind {
        TokenKindModel::Identifier { index } => Some((token.position, index)),
        _ => None,
    }
}

/// Parses an identifier expression: reads one identifier token and appends
/// its node. Where another token stands under the cursor, nothing is read
/// and nothing appended.
pub fn parse(stream: &mut TokenStream, file_ast: &mut FileAst) -> (result: ParsingResult)
    requires
        ready(old(stream), old(file_ast)),
    ensures
        parsed_as(
            spec_parse_identifier(
                token_models(old(stream).tokens@),
                state_of(old(stream), old(file_ast)),
            ),
            result,
            old(stream),
            old(file_ast),
            final(stream),
            final(file_ast),
        ),
{
    proof {
        lemma_token_model_at(stream, stream.cursor());
    }
    let as_identifier = |token: &Token| -> (found: Option<(FileSpan, usize)>)
        ensures
            found == identifier_of(token@),
        {
            match token.kind {
                TokenKind::Identifier { index } => Some((token.position, index)),
                _ => None,
            }
        };
    match stream.take_if(as_identifier) {
        Some((position, index)) => {
            let ghost nodes = node_models(file_ast.nodes@);
            let node = AstNode {
                position,
                kind: AstNodeKind::Expression(Expression::Identifier { index }),
            };
            file_ast.nodes.push(node);
            assert(node_models(file_ast.nodes@) =~= nodes.push(
                AstNodeModel::identifier(index, position),
            ));
            proof {
                lemma_push_keeps_arena(
                    nodes,
                    AstNodeModel::identifier(index, position),
                    file_ast.identifiers@.len(),
                );
            }
            ParsingResult::Parsed
        },
        None => ParsingResult::Other,
    }
}

} // verus!
