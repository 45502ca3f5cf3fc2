use vstd::prelude::*;
use crate::common::position::FileSpan;
use crate::common::syntax_error::{error_models, SyntaxError};
use crate::lexer::token::{token_models, Token, TokenKind, TokenModel};
use crate::lexer::token_stream::TokenStream;
use crate::parser::ast_node::{
    node_models,
    AstNode,
    AstNodeKind,
    AstNodeModel,
    Expression,
    ParsingResult,
};
use crate::parser::parser::{
    give_up,
    lemma_token_model_at,
    parsed_as,
    ready,
    state_of,
    FileAst,
};
use crate::parser::rules::{
    block_step,
    extends,
    lemma_push_keeps_arena,
    remaining,
    spec_parse_block,
    spec_parse_block_body,
};
use crate::parser::statement;

verus! {

/// The span of the token where it is `{`, and nothing for any other token.
pub open spec fn open_span(token: TokenModel) -> Option<FileSpan> {
    if token.kind is OpenCurly {
        Some(token.position)
    } else {
        None
    }
}

/// The span of the token where it is `}`, and nothing for any other token.
pub open spec fn close_span(token: TokenModel) -> Option<FileSpan> {
    if token.kind is CloseCurly {
        Some(token.position)
    } else {
        None
    }
}

/// Whether `node` is the node of the block that `open` opens and `close`
/// closes: the two are `{` and `}`, and the node is a block that spans
/// from where `{` begins to where `}` ends.
pub open spec fn block_spans_braces(open: TokenModel, close: TokenModel, node: AstNodeModel)
    -> bool {
    &&& open.kind is OpenCurly
    &&& close.kind is CloseCurly
    &&& node == AstNodeModel::block(FileSpan::spec_combine(open.position, close.position))
    &&& node.position.begin == open.position.begin
    &&& node.position.end == close.position.end
}

/// Parses a block: `{`, statements, `}`. The nodes of the statements are
/// appended as they come, and the block's node after them; it spans from
/// `{` to `}`. Where no `{` stands under the cursor, nothing is read.
/// Where the file ends before `}`, an error is added at its end.
pub fn parse(stream: &mut TokenStream, file_ast: &mut FileAst) -> (result: ParsingResult)
    requires
        ready(old(stream), old(file_ast)),
    ensures
        parsed_as(
            spec_parse_block(
                token_models(old(stream).tokens@),
                state_of(old(stream), old(file_ast)),
            ),
            result,
            old(stream),
            old(file_ast),
            final(stream),
            final(file_ast),
        ),
        old(stream).current()@.kind is OpenCurly ==> result != ParsingResult::Other,
        result == ParsingResult::Parsed ==> block_spans_braces(
            old(stream).current()@,
            final(stream).token_at(final(stream).cursor() - 1)@,
            node_models(final(file_ast).nodes@).last(),
        ),
    decreases remaining(token_models(old(stream).tokens@), old(stream).cursor()), 1nat,
{
    let ghost tokens = token_models(stream.tokens@);
    let ghost start = state_of(stream, file_ast);
    proof {
        lemma_token_model_at(stream, stream.cursor());
    }
    let as_open = |token: &Token| -> (found: Option<FileSpan>)
        ensures
            found == open_span(token@),
        {
            match token.kind {
                TokenKind::OpenCurly => Some(token.position),
                _ => None,
            }
        };
    let begin = match stream.take_if(as_open) {
        Some(position) => position,
        None => {
            return ParsingResult::Other;
        },
    };
    let ghost body = state_of(stream, file_ast);
    loop
        invariant
            ready(stream, file_ast),
            stream.tokens == old(stream).tokens,
            tokens == token_models(stream.tokens@),
            file_ast.file_name == old(file_ast).file_name,
            file_ast.root_nodes == old(file_ast).root_nodes,
            start == state_of(old(stream), old(file_ast)),
            start.cursor < tokens.len(),
            old(stream).current()@.kind is OpenCurly,
            begin == old(stream).current()@.position,
            extends(start, state_of(stream, file_ast)),
            stream.cursor() > start.cursor,
            spec_parse_block(tokens, start) == spec_parse_block_body(tokens, body, begin),
            spec_parse_block_body(tokens, state_of(stream, file_ast), begin)
                == spec_parse_block_body(tokens, body, begin),
        decreases remaining(tokens, stream.cursor()),
    {
        proof {
            lemma_token_model_at(stream, stream.cursor());
        }
        if !stream.can_read() {
            let ghost errors = error_models(file_ast.errors@);
            let error = SyntaxError::from_token(stream.peek(0), Some("missing scope end }"));
            file_ast.errors.push(error);
            assert(error_models(file_ast.errors@) =~= errors.push(error@));
            return ParsingResult::Error;
        }
        let as_close = |token: &Token| -> (found: Option<FileSpan>)
            ensures
                found == close_span(token@),
            {
                match token.kind {
                    TokenKind::CloseCurly => Some(token.position),
                    _ => None,
                }
            };
        if let Some(end) = stream.take_if(as_close) {
            proof {
                lemma_token_model_at(stream, stream.cursor() - 1);
            }
            let ghost nodes = node_models(file_ast.nodes@);
            let position = FileSpan::combine(&begin, &end);
            file_ast.nodes.push(
                AstNode { kind: AstNodeKind::Expression(Expression::Block), position },
            );
            assert(node_models(file_ast.nodes@) =~= nodes.push(AstNodeModel::block(position)));
            proof {
                lemma_push_keeps_arena(
                    nodes,
                    AstNodeModel::block(position),
                    file_ast.identifiers@.len(),
                );
            }
            return ParsingResult::Parsed;
        }
        let ghost before = state_of(stream, file_ast);
        if let ParsingResult::Other = statement::parse(stream, file_ast) {
            give_up(stream, file_ast, "cannot parse this node");
        }
        assert(state_of(stream, file_ast) == block_step(tokens, before));
    }
}

} // verus!
