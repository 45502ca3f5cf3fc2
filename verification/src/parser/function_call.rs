use vstd::prelude::*;
use vstd::string::StringExecFns;
use crate::common::operator::Operator;
use crate::common::position::FileSpan;
use crate::common::syntax_error::{error_models, SyntaxError};
use crate::lexer::token::{token_models, Token, TokenKind, TokenKindModel, TokenModel};
use crate::lexer::token_stream::TokenStream;
use crate::parser::ast_node::{
    node_models,
    AstNode,
    AstNodeKind,
    AstNodeModel,
    Expression,
    ParsingResult,
};
use crate::parser::identifier;
use crate::parser::parser::{lemma_token_model_at, parsed_as, ready, state_of, FileAst};
use crate::parser::rules::{lemma_push_keeps_arena, spec_parse_function_call};

verus! {

/// The span of the token where it is the operator `operator`, and nothing
/// for any other token.
pub open spec fn operator_span(token: TokenModel, operator: Operator) -> Option<FileSpan> {
    if token.kind == TokenKindModel::Operator(operator) {
        Some(token.position)
    } else {
        None
    }
}

/// Parses a function call: `->` and the identifier of the callee. Appends
/// the identifier's node and then the call's. Where no `->` stands under
/// the cursor, nothing is read. Where no identifier follows `->`, an error
/// is added at the token that stands there.
pub fn parse(stream: &mut TokenStream, file_ast: &mut FileAst) -> (result: ParsingResult)
    requires
        ready(old(stream), old(file_ast)),
    ensures
        parsed_as(
            spec_parse_function_call(
                token_models(old(stream).tokens@),
                state_of(old(stream), old(file_ast)),
            ),
            result,
            old(stream),
            old(file_ast),
            final(stream),
            final(file_ast),
        ),
{
    proof {
        lemma_token_model_at(stream, stream.cursor());
    }
    let as_into = |token: &Token| -> (found: Option<FileSpan>)
        ensures
            found == operator_span(token@, Operator::Into),
        {
            match token.kind {
                TokenKind::Operator(Operator::Into) => Some(token.position),
                _ => None,
            }
        };
    let operator_position = match stream.take_if(as_into) {
        Some(position) => position,
        None => {
            return ParsingResult::Other;
        },
    };
    match identifier::parse(stream, file_ast) {
        ParsingResult::Parsed => {
            let ghost nodes = node_models(file_ast.nodes@);
            let callee = file_ast.nodes.len() - 1;
            let position = FileSpan::combine(&operator_position, &file_ast.nodes[callee].position);
            file_ast.nodes.push(
                AstNode { kind: AstNodeKind::Expression(Expression::FunctionCall), position },
            );
            assert(node_models(file_ast.nodes@) =~= nodes.push(
                AstNodeModel::function_call(position),
            ));
            proof {
                lemma_push_keeps_arena(
                    nodes,
                    AstNodeModel::function_call(position),
                    file_ast.identifiers@.len(),
                );
            }
            ParsingResult::Parsed
        },
        _ => {
            proof {
                lemma_token_model_at(stream, stream.cursor());
            }
            let ghost errors = error_models(file_ast.errors@);
            let token = stream.peek(0);
            let mut reason = String::from_str(
                "Expected an expression after operator -> in function call expression but found ",
            );
            reason.append(token.kind.to_string().as_str());
            reason.append(".");
            let error = SyntaxError::from_token(token, Some(reason.as_str()));
            file_ast.errors.push(error);
            assert(error_models(file_ast.errors@) =~= errors.push(error@));
            ParsingResult::Error
        },
    }
}

} // verus!
