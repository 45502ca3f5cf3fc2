use vstd::prelude::*;
use crate::common::operator::Operator;
use crate::common::position::FileSpan;
use crate::lexer::token::{token_models, Token, TokenKind};
use crate::lexer::token_stream::TokenStream;
use crate::parser::ast_node::{
    node_models,
    AstNode,
    AstNodeKind,
    AstNodeModel,
    ParsingResult,
    Statement,
};
use crate::parser::expression;
use crate::parser::function_call::operator_span;
use crate::parser::parser::{
    give_up,
    lemma_token_model_at,
    parsed_as,
    ready,
    state_of,
    FileAst,
};
use crate::parser::rules::{lemma_push_keeps_arena, remaining, spec_parse_return};

verus! {

/// Parses a return statement: `=>`, then `;` or an expression. Appends
/// the statement's node, which spans `=>` alone where `;` follows at once
/// and else from `=>` to the last token of the expression. Where no `=>`
/// stands under the cursor, nothing is read. Where neither `;` nor an
/// expression follows `=>`, the statement is given up.
pub fn parse(stream: &mut TokenStream, file_ast: &mut FileAst) -> (result: ParsingResult)
    requires
        ready(old(stream), old(file_ast)),
    ensures
        parsed_as(
            spec_parse_return(
                token_models(old(stream).tokens@),
                state_of(old(stream), old(file_ast)),
            ),
            result,
            old(stream),
            old(file_ast),
            final(stream),
            final(file_ast),
        ),
    decreases remaining(token_models(old(stream).tokens@), old(stream).cursor()), 4nat,
{
    proof {
        lemma_token_model_at(stream, stream.cursor());
    }
    let as_return = |token: &Token| -> (found: Option<FileSpan>)
        ensures
            found == operator_span(token@, Operator::Return),
        {
            match token.kind {
                TokenKind::Operator(Operator::Return) => Some(token.position),
                _ => None,
            }
        };
    let begin = match stream.take_if(as_return) {
        Some(position) => position,
        None => {
            return ParsingResult::Other;
        },
    };
    proof {
        lemma_token_model_at(stream, stream.cursor());
    }
    let is_end = |token: &Token| -> (end: bool)
        ensures
            end == (token@.kind is EOI),
        { token.kind.is_end_of_instruction() };
    let position = if stream.skip_if(is_end) {
        begin
    } else {
        match expression::parse(stream, file_ast) {
            ParsingResult::Parsed => {
                proof {
                    lemma_token_model_at(stream, stream.cursor() - 1);
                }
                FileSpan::combine(&begin, &stream.peek(-1).position)
            },
            ParsingResult::Error => {
                return ParsingResult::Error;
            },
            ParsingResult::Other => {
                give_up(stream, file_ast, "expected ; or a value after return keyword");
                return ParsingResult::Error;
            },
        }
    };
    let ghost nodes = node_models(file_ast.nodes@);
    file_ast.nodes.push(AstNode { position, kind: AstNodeKind::Statement(Statement::Return) });
    assert(node_models(file_ast.nodes@) =~= nodes.push(AstNodeModel::return_statement(position)));
    proof {
        lemma_push_keeps_arena(
            nodes,
            AstNodeModel::return_statement(position),
            file_ast.identifiers@.len(),
        );
    }
    ParsingResult::Parsed
}

} // verus!
