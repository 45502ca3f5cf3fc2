use vstd::prelude::*;
use vstd::string::StringExecFns;
use crate::common::operator::Operator;
use crate::common::syntax_error::{error_models, SyntaxError};
use crate::lexer::token::{token_models, TokenKind, TokenKindModel};
use crate::lexer::token_stream::TokenStream;
use crate::parser::ast_node::ParsingResult;
use crate::parser::block;
use crate::parser::function_call;
use crate::parser::identifier;
use crate::parser::literal;
use crate::parser::parser::{lemma_token_model_at, parsed_as, reached, ready, state_of, FileAst};
use crate::parser::rules::{
    extends,
    remaining,
    spec_parse_expression,
    spec_parse_left_side,
    spec_parse_right_side,
    spec_parse_right_sides,
    spec_parse_single_token_exp,
};

verus! {

/// Parses an expression: a left side, or none before `->`, and then right
/// sides up to a `;`, which is not read. Where the token under the cursor
/// can start no expression, nothing is read.
pub fn parse(stream: &mut TokenStream, file_ast: &mut FileAst) -> (result: ParsingResult)
    requires
        ready(old(stream), old(file_ast)),
    ensures
        parsed_as(
            spec_parse_expression(
                token_models(old(stream).tokens@),
                state_of(old(stream), old(file_ast)),
            ),
            result,
            old(stream),
            old(file_ast),
            final(stream),
            final(file_ast),
        ),
    decreases remaining(token_models(old(stream).tokens@), old(stream).cursor()), 3nat,
{
    proof {
        lemma_token_model_at(stream, stream.cursor());
    }
    match stream.peek(0).kind {
        TokenKind::Identifier { .. }
        | TokenKind::Literal(_)
        | TokenKind::OpenCurly
        | TokenKind::Operator(Operator::Into) => {},
        _ => {
            return ParsingResult::Other;
        },
    }
    if let ParsingResult::Parsed = parse_left_side(stream, file_ast) {
        proof {
            lemma_token_model_at(stream, stream.cursor());
        }
        if stream.peek(0).kind.is_end_of_instruction() {
            return ParsingResult::Parsed;
        }
    }
    parse_right_sides(stream, file_ast)
}

/// Parses the right sides of an expression, one after the other, up to a
/// `;`, which is not read. Where no right side can be parsed, an error is
/// added at the token after the cursor.
pub fn parse_right_sides(stream: &mut TokenStream, file_ast: &mut FileAst) -> (result:
    ParsingResult)
    requires
        ready(old(stream), old(file_ast)),
    ensures
        reached(
            spec_parse_right_sides(
                token_models(old(stream).tokens@),
                state_of(old(stream), old(file_ast)),
            ),
            result,
            old(stream),
            old(file_ast),
            final(stream),
            final(file_ast),
        ),
        result != ParsingResult::Other,
        result == ParsingResult::Parsed ==> final(stream).cursor() > old(stream).cursor()
            && final(file_ast).nodes.len() > old(file_ast).nodes.len(),
        old(stream).current()@.kind == TokenKindModel::Operator(Operator::Into) ==> final(stream).cursor() > old(stream).cursor(),
{
    let ghost tokens = token_models(stream.tokens@);
    let ghost start = state_of(stream, file_ast);
    proof {
        lemma_token_model_at(stream, stream.cursor());
    }
    loop
        invariant
            ready(stream, file_ast),
            stream.tokens == old(stream).tokens,
            tokens == token_models(stream.tokens@),
            file_ast.file_name == old(file_ast).file_name,
            file_ast.root_nodes == old(file_ast).root_nodes,
            start == state_of(old(stream), old(file_ast)),
            extends(start, state_of(stream, file_ast)),
            spec_parse_right_sides(tokens, state_of(stream, file_ast)) == spec_parse_right_sides(
                tokens,
                start,
            ),
            stream.cursor() == start.cursor ==> state_of(stream, file_ast) == start,
        decreases remaining(tokens, stream.cursor()),
    {
        let ghost before = state_of(stream, file_ast);
        if let ParsingResult::Parsed = parse_right_side(stream, file_ast) {
            proof {
                lemma_token_model_at(stream, stream.cursor());
            }
            if stream.peek(0).kind.is_end_of_instruction() {
                return ParsingResult::Parsed;
            }
            continue ;
        }
        proof {
            lemma_token_model_at(stream, stream.cursor());
            lemma_token_model_at(stream, stream.cursor() + 1);
        }
        let ghost errors = error_models(file_ast.errors@);
        let last = stream.peek(0);
        let found = stream.peek(1);
        let mut reason = String::from_str(
            "Unexpected token encountered while trying to parse expression. Expected one of(;, function call, function body, operator) after ",
        );
        reason.append(last.kind.to_string().as_str());
        reason.append(" but found ");
        reason.append(found.kind.to_string().as_str());
        let error = SyntaxError::from_token(found, Some(reason.as_str()));
        file_ast.errors.push(error);
        assert(error_models(file_ast.errors@) =~= errors.push(error@));
        return ParsingResult::Error;
    }
}

/// Parses what may follow the left side of an expression: a function call.
pub fn parse_right_side(stream: &mut TokenStream, file_ast: &mut FileAst) -> (result:
    ParsingResult)
    requires
        ready(old(stream), old(file_ast)),
    ensures
        reached(
            spec_parse_right_side(
                token_models(old(stream).tokens@),
                state_of(old(stream), old(file_ast)),
            ),
            result,
            old(stream),
            old(file_ast),
            final(stream),
            final(file_ast),
        ),
        result == ParsingResult::Parsed ==> final(stream).cursor() > old(stream).cursor()
            && final(file_ast).nodes.len() > old(file_ast).nodes.len(),
        result != ParsingResult::Parsed ==> result == ParsingResult::Other,
{
    if let ParsingResult::Parsed = function_call::parse(stream, file_ast) {
        return ParsingResult::Parsed;
    }
    ParsingResult::Other
}

/// Parses the left side of an expression: an expression of one token, or a
/// block.
pub fn parse_left_side(stream: &mut TokenStream, file_ast: &mut FileAst) -> (result: ParsingResult)
    requires
        ready(old(stream), old(file_ast)),
    ensures
        reached(
            spec_parse_left_side(
                token_models(old(stream).tokens@),
                state_of(old(stream), old(file_ast)),
            ),
            result,
            old(stream),
            old(file_ast),
            final(stream),
            final(file_ast),
        ),
        result == ParsingResult::Parsed ==> final(stream).cursor() > old(stream).cursor()
            && final(file_ast).nodes.len() > old(file_ast).nodes.len(),
        result != ParsingResult::Parsed ==> result == ParsingResult::Other,
        old(stream).current()@.kind is OpenCurly ==> final(stream).cursor() > old(stream).cursor(),
    decreases remaining(token_models(old(stream).tokens@), old(stream).cursor()), 2nat,
{
    proof {
        lemma_token_model_at(stream, stream.cursor());
    }
    if let ParsingResult::Parsed = parse_single_token_exp(stream, file_ast) {
        return ParsingResult::Parsed;
    }
    proof {
        lemma_token_model_at(stream, stream.cursor());
    }
    if let ParsingResult::Parsed = block::parse(stream, file_ast) {
        return ParsingResult::Parsed;
    }
    ParsingResult::Other
}

/// Parses an expression of one token: an identifier or a literal.
pub fn parse_single_token_exp(stream: &mut TokenStream, file_ast: &mut FileAst) -> (result:
    ParsingResult)
    requires
        ready(old(stream), old(file_ast)),
    ensures
        parsed_as(
            spec_parse_single_token_exp(
                token_models(old(stream).tokens@),
                state_of(old(stream), old(file_ast)),
            ),
            result,
            old(stream),
            old(file_ast),
            final(stream),
            final(file_ast),
        ),
{
    if let ParsingResult::Parsed = identifier::parse(stream, file_ast) {
        return ParsingResult::Parsed;
    }
    if let ParsingResult::Parsed = literal::parse(stream, file_ast) {
        return ParsingResult::Parsed;
    }
    ParsingResult::Other
}

} // verus!
