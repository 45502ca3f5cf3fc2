use vstd::prelude::*;
use crate::lexer::token::{token_models, Token};
use crate::lexer::token_stream::TokenStream;
use crate::parser::ast_node::ParsingResult;
use crate::parser::declaration;
use crate::parser::expression;
use crate::parser::parser::{lemma_token_model_at, parsed_as, ready, state_of, FileAst};
use crate::parser::return_stmt;
use crate::parser::rules::{finish_statement, remaining, spec_parse_statement};

verus! {

/// Reads the `;` under the cursor, if one stands there.
pub fn skip_end_of_instruction(stream: &mut TokenStream, file_ast: &FileAst)
    requires
        ready(old(stream), file_ast),
    ensures
        final(stream).tokens == old(stream).tokens,
        ready(final(stream), file_ast),
        state_of(final(stream), file_ast) == finish_statement(
            token_models(old(stream).tokens@),
            state_of(old(stream), file_ast),
        ).state,
        final(stream).cursor() >= old(stream).cursor(),
{
    proof {
        lemma_token_model_at(stream, stream.cursor());
    }
    let is_end = |token: &Token| -> (end: bool)
        ensures
            end == (token@.kind is EOI),
        { token.kind.is_end_of_instruction() };
    stream.skip_if(is_end);
}

/// Parses a statement: a declaration, or else an expression, or else a
/// return statement. After a statement that was parsed, one `;` is read if
/// it stands there.
pub fn parse(stream: &mut TokenStream, file_ast: &mut FileAst) -> (result: ParsingResult)
    requires
        ready(old(stream), old(file_ast)),
    ensures
        parsed_as(
            spec_parse_statement(
                token_models(old(stream).tokens@),
                state_of(old(stream), old(file_ast)),
            ),
            result,
            old(stream),
            old(file_ast),
            final(stream),
            final(file_ast),
        ),
    decreases remaining(token_models(old(stream).tokens@), old(stream).cursor()), 5nat,
{
    match declaration::parse(stream, file_ast) {
        ParsingResult::Parsed => {
            skip_end_of_instruction(stream, file_ast);
            return ParsingResult::Parsed;
        },
        ParsingResult::Error => {
            return ParsingResult::Error;
        },
        ParsingResult::Other => {},
    }
    match expression::parse(stream, file_ast) {
        ParsingResult::Parsed => {
            skip_end_of_instruction(stream, file_ast);
            return ParsingResult::Parsed;
        },
        ParsingResult::Error => {
            return ParsingResult::Error;
        },
        ParsingResult::Other => {},
    }
    match return_stmt::parse(stream, file_ast) {
        ParsingResult::Parsed => {
            skip_end_of_instruction(stream, file_ast);
            ParsingResult::Parsed
        },
        ParsingResult::Error => ParsingResult::Error,
        ParsingResult::Other => ParsingResult::Other,
    }
}

} // verus!
