use vstd::prelude::*;
use crate::common::identifier::{IdentifierModel, TypeStateModel};
use crate::common::operator::Operator;
use crate::common::position::FileSpan;
use crate::common::syntax_error::SyntaxErrorModel;
use crate::lexer::lexer::LexModel;
use crate::lexer::token::{TokenKindModel, TokenModel};
use crate::parser::ast_node::{AstNodeModel, ParsingResult};
use crate::parser::parser::spec_parse_file;
use crate::parser::rules::{
    block_step,
    can_read,
    declaration_reason,
    declare,
    ends_in_eof,
    extends,
    finish_statement,
    follows,
    lemma_next_terminator,
    next_terminator,
    recover,
    remaining,
    return_reason,
    spec_parse_block,
    spec_parse_block_body,
    spec_parse_declaration,
    spec_parse_expression,
    spec_parse_identifier,
    spec_parse_left_side,
    spec_parse_return,
    spec_parse_right_side,
    spec_parse_right_sides,
    spec_parse_single_token_exp,
    spec_parse_statement,
    spec_parse_statements,
    starts_expression,
    token_at,
    tokens_fit,
    unparsed_reason,
    FileParse,
    Parse,
    ParseState,
};

verus! {

/// A file that holds one declaration of a literal, `name := literal;`,
/// and no lexical error parses without an error to three nodes: the
/// identifier, the literal, and the declaration, which is the one node at
/// the top of the file. The identifier gets the literal's type and the
/// index of the declaration's node.
pub proof fn lemma_declaration_of_literal(
    name: TokenModel,
    operator: TokenModel,
    literal: TokenModel,
    end: TokenModel,
    eof: TokenModel,
    identifiers: Seq<IdentifierModel>,
)
    requires
        name.kind is Identifier,
        name.kind->Identifier_index < identifiers.len(),
        operator.kind == TokenKindModel::Operator(Operator::Declassignment),
        literal.kind is Literal,
        end.kind is EOI,
        eof.kind is EOF,
    ensures
        ({
            let index = name.kind->Identifier_index;
            let value = literal.kind->Literal_0;
            let tree = spec_parse_file(
                LexModel {
                    tokens: seq![name, operator, literal, end, eof],
                    identifiers,
                    errors: Seq::empty(),
                },
            );
            &&& tree.errors == Seq::<SyntaxErrorModel>::empty()
            &&& tree.root_nodes == seq![2usize]
            &&& tree.nodes == seq![
                AstNodeModel::identifier(index, name.position),
                AstNodeModel::literal(value, literal.position),
                AstNodeModel::declaration(
                    0,
                    FileSpan::spec_combine(name.position, literal.position),
                ),
            ]
            &&& tree.identifiers == identifiers.update(
                index as int,
                IdentifierModel {
                    name: identifiers[index as int].name,
                    type_state: TypeStateModel::Valid(value.llc_type),
                    declaration_idx: 2,
                },
            )
        }),
{
    let index = name.kind->Identifier_index;
    let value = literal.kind->Literal_0;
    let tokens = seq![name, operator, literal, end, eof];
    let start = ParseState {
        cursor: 0,
        nodes: Seq::empty(),
        identifiers,
        errors: Seq::empty(),
    };
    assert(ends_in_eof(tokens));
    let named = spec_parse_identifier(tokens, start);
    assert(named.result == ParsingResult::Parsed);
    assert(named.state.cursor == 1);
    assert(named.state.nodes =~= seq![AstNodeModel::identifier(index, name.position)]);
    let after_operator = named.state.advance();
    assert(after_operator.cursor == 2);
    let single = spec_parse_single_token_exp(tokens, after_operator);
    assert(single.result == ParsingResult::Parsed);
    assert(single.state.cursor == 3);
    let left = spec_parse_left_side(tokens, after_operator);
    assert(left == single);
    let expression = spec_parse_expression(tokens, after_operator);
    assert(expression == Parse { result: ParsingResult::Parsed, state: single.state });
    assert(single.state.nodes =~= seq![
        AstNodeModel::identifier(index, name.position),
        AstNodeModel::literal(value, literal.position),
    ]);
    let declaration = spec_parse_declaration(tokens, start);
    let declared = declare(single.state, 0, index, name.position);
    assert(declaration == Parse { result: ParsingResult::Parsed, state: declared });
    assert(declared.nodes =~= seq![
        AstNodeModel::identifier(index, name.position),
        AstNodeModel::literal(value, literal.position),
        AstNodeModel::declaration(0, FileSpan::spec_combine(name.position, literal.position)),
    ]);
    let statement = spec_parse_statement(tokens, start);
    assert(statement == finish_statement(tokens, declared));
    assert(statement.state == declared.at(4));
    let rest = spec_parse_statements(tokens, statement.state, seq![2usize]);
    assert(rest == FileParse { state: statement.state, root_nodes: seq![2usize] });
    assert(Seq::<usize>::empty().push(2usize) =~= seq![2usize]);
    assert(spec_parse_statements(tokens, start, Seq::empty()) == rest);
}

/// A file that holds a declaration without a value, `name := ;`, and no
/// lexical error parses to one error, which says that a value is missing
/// and spans from `;` to the end of the file, and to no statement.
pub proof fn lemma_declaration_without_value(
    name: TokenModel,
    operator: TokenModel,
    end: TokenModel,
    eof: TokenModel,
    identifiers: Seq<IdentifierModel>,
)
    requires
        name.kind is Identifier,
        operator.kind == TokenKindModel::Operator(Operator::Declassignment),
        end.kind is EOI,
        eof.kind is EOF,
    ensures
        ({
            let tree = spec_parse_file(
                LexModel { tokens: seq![name, operator, end, eof], identifiers, errors: Seq::empty() },
            );
            &&& tree.errors == seq![
                SyntaxErrorModel {
                    position: FileSpan::spec_combine(end.position, eof.position),
                    reason: declaration_reason(),
                },
            ]
            &&& tree.root_nodes == Seq::<usize>::empty()
            &&& tree.identifiers == identifiers
        }),
{
    let tokens = seq![name, operator, end, eof];
    let start = ParseState {
        cursor: 0,
        nodes: Seq::empty(),
        identifiers,
        errors: Seq::empty(),
    };
    assert(ends_in_eof(tokens));
    let named = spec_parse_identifier(tokens, start);
    assert(named.state.cursor == 1);
    let after_operator = named.state.advance();
    assert(after_operator.cursor == 2);
    let value = spec_parse_expression(tokens, after_operator);
    assert(value == Parse { result: ParsingResult::Other, state: after_operator });
    assert(next_terminator(tokens, 3) == 3);
    let given_up = recover(tokens, after_operator, declaration_reason());
    assert(given_up.cursor == 4);
    assert(given_up.errors =~= seq![
        SyntaxErrorModel {
            position: FileSpan::spec_combine(end.position, eof.position),
            reason: declaration_reason(),
        },
    ]);
    let declaration = spec_parse_declaration(tokens, start);
    assert(declaration == Parse { result: ParsingResult::Error, state: given_up });
    let statement = spec_parse_statement(tokens, start);
    assert(statement == declaration);
    assert(next_terminator(tokens, 4) == 4);
    let synced = given_up.at(5);
    assert(spec_parse_statements(tokens, synced, Seq::empty()) == FileParse {
        state: synced,
        root_nodes: Seq::empty(),
    });
    assert(spec_parse_statements(tokens, start, Seq::empty()) == FileParse {
        state: synced,
        root_nodes: Seq::empty(),
    });
}

/// A block that is parsed has appended its node last: a block that spans
/// from where its `{` begins to where its `}` ends, the `}` being the last
/// token read.
pub proof fn lemma_block_spans_braces(tokens: Seq<TokenModel>, state: ParseState)
    requires
        ends_in_eof(tokens),
        0 <= state.cursor,
        tokens_fit(tokens, state.identifiers.len()),
        spec_parse_block(tokens, state).result == ParsingResult::Parsed,
    ensures
        ({
            let parse = spec_parse_block(tokens, state);
            let open = token_at(tokens, state.cursor);
            let close = token_at(tokens, parse.state.cursor - 1);
            &&& open.kind is OpenCurly
            &&& close.kind is CloseCurly
            &&& parse.state.nodes.len() > 0
            &&& parse.state.nodes.last() == AstNodeModel::block(
                FileSpan::spec_combine(open.position, close.position),
            )
        }),
{
    lemma_block_body_spans(
        tokens,
        state.advance(),
        token_at(tokens, state.cursor).position,
    );
}

/// The body of a block that is parsed has appended the block's node last,
/// which spans from `begin` to where the `}` ends, the `}` being the last
/// token read.
pub proof fn lemma_block_body_spans(tokens: Seq<TokenModel>, state: ParseState, begin: FileSpan)
    requires
        ends_in_eof(tokens),
        0 <= state.cursor,
        tokens_fit(tokens, state.identifiers.len()),
        spec_parse_block_body(tokens, state, begin).result == ParsingResult::Parsed,
    ensures
        ({
            let parse = spec_parse_block_body(tokens, state, begin);
            let close = token_at(tokens, parse.state.cursor - 1);
            &&& close.kind is CloseCurly
            &&& parse.state.nodes.len() > 0
            &&& parse.state.nodes.last() == AstNodeModel::block(
                FileSpan::spec_combine(begin, close.position),
            )
        }),
    decreases remaining(tokens, state.cursor),
{
    let token = token_at(tokens, state.cursor);
    if can_read(tokens, state.cursor) && !(token.kind is CloseCurly) {
        lemma_block_body_follows(tokens, state, begin);
        let next = block_step(tokens, state);
        lemma_statement_follows(tokens, state);
        if spec_parse_statement(tokens, state).result == ParsingResult::Other {
            assert(spec_parse_statement(tokens, state).state.at(state.cursor)
                == spec_parse_statement(tokens, state).state);
            lemma_recover_extends(
                tokens,
                spec_parse_statement(tokens, state).state,
                unparsed_reason(),
            );
        }
        lemma_block_body_spans(tokens, next, begin);
    }
}

/// Whether a statement may start with a token of this kind.
pub open spec fn starts_statement(kind: TokenKindModel) -> bool {
    starts_expression(kind) || kind == TokenKindModel::Operator(Operator::Return)
}

/// Where the token under the cursor can start no statement, no statement
/// is parsed: nothing is read and nothing is appended.
pub proof fn lemma_no_statement_starts(tokens: Seq<TokenModel>, state: ParseState)
    requires
        ends_in_eof(tokens),
        !starts_statement(token_at(tokens, state.cursor).kind),
    ensures
        spec_parse_statement(tokens, state) == (Parse { result: ParsingResult::Other, state }),
{
    assert(spec_parse_declaration(tokens, state) == Parse { result: ParsingResult::Other, state });
    assert(state.at(state.cursor) == state);
    assert(spec_parse_expression(tokens, state) == Parse { result: ParsingResult::Other, state });
    assert(spec_parse_return(tokens, state) == Parse { result: ParsingResult::Other, state });
}

/// Where no token of a file can start a statement, parsing its statements
/// appends no node and finds no statement at the top of the file.
pub proof fn lemma_no_statement_in_file(
    tokens: Seq<TokenModel>,
    state: ParseState,
    root_nodes: Seq<usize>,
)
    requires
        ends_in_eof(tokens),
        0 <= state.cursor,
        forall|i: int| 0 <= i < tokens.len() ==> !starts_statement((#[trigger] tokens[i]).kind),
    ensures
        spec_parse_statements(tokens, state, root_nodes).state.nodes == state.nodes,
        spec_parse_statements(tokens, state, root_nodes).root_nodes == root_nodes,
    decreases remaining(tokens, state.cursor),
{
    if can_read(tokens, state.cursor) {
        lemma_no_statement_starts(tokens, state);
        assert(state.at(state.cursor) == state);
        let next = recover(tokens, state, unparsed_reason());
        lemma_next_terminator(tokens, state.cursor + 1);
        lemma_no_statement_in_file(tokens, next, root_nodes);
    }
}

/// A file of which no token can start a statement, such as a file of `use`
/// directives, has a tree without nodes.
pub proof fn lemma_file_without_statements(lexed: LexModel)
    requires
        ends_in_eof(lexed.tokens),
        forall|i: int|
            0 <= i < lexed.tokens.len() ==> !starts_statement((#[trigger] lexed.tokens[i]).kind),
    ensures
        spec_parse_file(lexed).nodes == Seq::<AstNodeModel>::empty(),
        spec_parse_file(lexed).root_nodes == Seq::<usize>::empty(),
{
    if lexed.errors.len() == 0 {
        lemma_no_statement_in_file(
            lexed.tokens,
            ParseState {
                cursor: 0,
                nodes: Seq::empty(),
                identifiers: lexed.identifiers,
                errors: lexed.errors,
            },
            Seq::empty(),
        );
    }
}

/// What extends an extension extends what was there.
pub proof fn lemma_extends_transitive(
    first: ParseState,
    second: ParseState,
    third: ParseState,
)
    requires
        extends(first, second),
        extends(second, third),
    ensures
        extends(first, third),
{
    assert(first.nodes.is_prefix_of(third.nodes)) by {
        assert forall|i: int| 0 <= i < first.nodes.len() implies first.nodes[i]
            == third.nodes[i] by {
            assert(first.nodes[i] == second.nodes[i]);
            assert(second.nodes[i] == third.nodes[i]);
        }
    }
    assert(first.errors.is_prefix_of(third.errors)) by {
        assert forall|i: int| 0 <= i < first.errors.len() implies first.errors[i]
            == third.errors[i] by {
            assert(first.errors[i] == second.errors[i]);
            assert(second.errors[i] == third.errors[i]);
        }
    }
    assert forall|i: int| 0 <= i < first.identifiers.len() implies (
    #[trigger] third.identifiers[i]).name == first.identifiers[i].name by {
        assert(second.identifiers[i].name == first.identifiers[i].name);
    }
}

/// Giving up a statement extends what was there, and reads at least one
/// token where one is under the cursor.
pub proof fn lemma_recover_extends(tokens: Seq<TokenModel>, state: ParseState, reason: Seq<char>)
    requires
        ends_in_eof(tokens),
        0 <= state.cursor,
    ensures
        extends(state, recover(tokens, state, reason)),
        recover(tokens, state, reason).cursor > state.cursor + 1,
        state.cursor < tokens.len() ==> recover(tokens, state, reason).cursor <= tokens.len() + 1,
        state.cursor < tokens.len() - 1 ==> recover(tokens, state, reason).cursor <= tokens.len(),
{
    lemma_next_terminator(tokens, state.cursor + 1);
}

/// The right sides of an expression extend what was there, never end in
/// `Other`, and read at least one token where they are parsed or start
/// with `->`.
pub proof fn lemma_right_sides_follow(tokens: Seq<TokenModel>, state: ParseState)
    requires
        ends_in_eof(tokens),
        0 <= state.cursor,
    ensures
        ({
            let parse = spec_parse_right_sides(tokens, state);
            &&& extends(state, parse.state)
            &&& parse.result != ParsingResult::Other
            &&& parse.result == ParsingResult::Parsed ==> parse.state.cursor > state.cursor
                && parse.state.nodes.len() > state.nodes.len()
            &&& token_at(tokens, state.cursor).kind == TokenKindModel::Operator(Operator::Into)
                ==> parse.state.cursor > state.cursor
            &&& state.cursor <= tokens.len() + 1 ==> parse.state.cursor <= tokens.len() + 1
        }),
    decreases remaining(tokens, state.cursor),
{
    let right = spec_parse_right_side(tokens, state);
    if right.result == ParsingResult::Parsed && !(token_at(tokens, right.state.cursor).kind is EOI) {
        lemma_right_sides_follow(tokens, right.state);
        lemma_extends_transitive(
            state,
            right.state,
            spec_parse_right_sides(tokens, right.state).state,
        );
    }
}

/// A block is parsed as every construct is, and never ends in `Other`
/// once its `{` is read.
pub proof fn lemma_block_follows(tokens: Seq<TokenModel>, state: ParseState)
    requires
        ends_in_eof(tokens),
        0 <= state.cursor,
        tokens_fit(tokens, state.identifiers.len()),
    ensures
        follows(tokens, state, spec_parse_block(tokens, state)),
        token_at(tokens, state.cursor).kind is OpenCurly ==> spec_parse_block(
            tokens,
            state,
        ).result != ParsingResult::Other,
    decreases remaining(tokens, state.cursor), 1nat,
{
    if token_at(tokens, state.cursor).kind is OpenCurly {
        let body = state.advance();
        lemma_block_body_follows(tokens, body, token_at(tokens, state.cursor).position);
        lemma_extends_transitive(
            state,
            body,
            spec_parse_block(tokens, state).state,
        );
    }
}

/// The body of a block extends what was there and ends in `Parsed`, with
/// a node appended, or in `Error`. Every statement in it reads at least one
/// token.
pub proof fn lemma_block_body_follows(tokens: Seq<TokenModel>, state: ParseState, begin: FileSpan)
    requires
        ends_in_eof(tokens),
        0 <= state.cursor,
        tokens_fit(tokens, state.identifiers.len()),
    ensures
        ({
            let parse = spec_parse_block_body(tokens, state, begin);
            &&& extends(state, parse.state)
            &&& parse.result != ParsingResult::Other
            &&& parse.result == ParsingResult::Parsed ==> parse.state.nodes.len()
                > state.nodes.len()
            &&& state.cursor <= tokens.len() + 1 ==> parse.state.cursor <= tokens.len() + 1
        }),
        can_read(tokens, state.cursor) && !(token_at(tokens, state.cursor).kind is CloseCurly)
            ==> block_step(tokens, state).cursor > state.cursor,
    decreases remaining(tokens, state.cursor), 7nat,
{
    let token = token_at(tokens, state.cursor);
    if can_read(tokens, state.cursor) && !(token.kind is CloseCurly) {
        lemma_statement_follows(tokens, state);
        let statement = spec_parse_statement(tokens, state);
        let next = block_step(tokens, state);
        if statement.result == ParsingResult::Other {
            assert(statement.state.at(state.cursor) == statement.state);
            lemma_recover_extends(tokens, statement.state, unparsed_reason());
            lemma_extends_transitive(state, statement.state, next);
        }
        lemma_block_body_follows(tokens, next, begin);
        lemma_extends_transitive(
            state,
            next,
            spec_parse_block_body(tokens, next, begin).state,
        );
    }
}

/// The left side of an expression extends what was there. Where it is
/// parsed it has read at least one token and appended a node; where it
/// starts with `{` it has read at least one token; and where it has read
/// none, nothing has changed.
pub proof fn lemma_left_side_follows(tokens: Seq<TokenModel>, state: ParseState)
    requires
        ends_in_eof(tokens),
        0 <= state.cursor,
        tokens_fit(tokens, state.identifiers.len()),
    ensures
        ({
            let parse = spec_parse_left_side(tokens, state);
            &&& extends(state, parse.state)
            &&& parse.result != ParsingResult::Error
            &&& parse.result == ParsingResult::Parsed ==> parse.state.cursor > state.cursor
                && parse.state.nodes.len() > state.nodes.len()
            &&& token_at(tokens, state.cursor).kind is OpenCurly ==> parse.state.cursor
                > state.cursor
            &&& parse.state.cursor == state.cursor ==> parse.state == state
            &&& state.cursor <= tokens.len() + 1 ==> parse.state.cursor <= tokens.len() + 1
        }),
    decreases remaining(tokens, state.cursor), 2nat,
{
    let single = spec_parse_single_token_exp(tokens, state);
    if single.result != ParsingResult::Parsed {
        lemma_block_follows(tokens, state);
    }
}

/// An expression is parsed as every construct is.
pub proof fn lemma_expression_follows(tokens: Seq<TokenModel>, state: ParseState)
    requires
        ends_in_eof(tokens),
        0 <= state.cursor,
        tokens_fit(tokens, state.identifiers.len()),
    ensures
        follows(tokens, state, spec_parse_expression(tokens, state)),
    decreases remaining(tokens, state.cursor), 3nat,
{
    if starts_expression(token_at(tokens, state.cursor).kind) {
        lemma_left_side_follows(tokens, state);
        let left = spec_parse_left_side(tokens, state);
        if !(left.result == ParsingResult::Parsed && token_at(tokens, left.state.cursor).kind
            is EOI) {
            lemma_right_sides_follow(tokens, left.state);
            lemma_extends_transitive(
                state,
                left.state,
                spec_parse_right_sides(tokens, left.state).state,
            );
        }
    }
}

/// A declaration is parsed as every construct is.
pub proof fn lemma_declaration_follows(tokens: Seq<TokenModel>, state: ParseState)
    requires
        ends_in_eof(tokens),
        0 <= state.cursor,
        tokens_fit(tokens, state.identifiers.len()),
    ensures
        follows(tokens, state, spec_parse_declaration(tokens, state)),
    decreases remaining(tokens, state.cursor), 4nat,
{
    let identifier = spec_parse_identifier(tokens, state);
    if identifier.result == ParsingResult::Parsed && token_at(tokens, identifier.state.cursor).kind
        == TokenKindModel::Operator(Operator::Declassignment) {
        let after = identifier.state.advance();
        lemma_expression_follows(tokens, after);
        let value = spec_parse_expression(tokens, after);
        let parse = spec_parse_declaration(tokens, state);
        if value.result == ParsingResult::Other {
            lemma_recover_extends(tokens, value.state, declaration_reason());
            lemma_extends_transitive(after, value.state, parse.state);
        } else if value.result == ParsingResult::Parsed {
            assert(extends(value.state, parse.state));
            lemma_extends_transitive(after, value.state, parse.state);
        }
        lemma_extends_transitive(state, after, parse.state);
    }
}

/// A return statement is parsed as every construct is.
pub proof fn lemma_return_follows(tokens: Seq<TokenModel>, state: ParseState)
    requires
        ends_in_eof(tokens),
        0 <= state.cursor,
        tokens_fit(tokens, state.identifiers.len()),
    ensures
        follows(tokens, state, spec_parse_return(tokens, state)),
    decreases remaining(tokens, state.cursor), 4nat,
{
    let after = state.advance();
    if token_at(tokens, state.cursor).kind == TokenKindModel::Operator(Operator::Return) && !(
    token_at(tokens, after.cursor).kind is EOI) {
        lemma_expression_follows(tokens, after);
        let value = spec_parse_expression(tokens, after);
        let parse = spec_parse_return(tokens, state);
        if value.result == ParsingResult::Other {
            lemma_recover_extends(tokens, value.state, return_reason());
        }
        if value.result != ParsingResult::Error {
            lemma_extends_transitive(after, value.state, parse.state);
        }
        lemma_extends_transitive(state, after, parse.state);
    }
}

/// A statement is parsed as every construct is: it extends what was there;
/// where it ends in `Other` it has read no token and found no error; and
/// else it has read at least one token.
pub proof fn lemma_statement_follows(tokens: Seq<TokenModel>, state: ParseState)
    requires
        ends_in_eof(tokens),
        0 <= state.cursor,
        tokens_fit(tokens, state.identifiers.len()),
    ensures
        follows(tokens, state, spec_parse_statement(tokens, state)),
    decreases remaining(tokens, state.cursor), 5nat,
{
    lemma_declaration_follows(tokens, state);
    let declaration = spec_parse_declaration(tokens, state);
    let parse = spec_parse_statement(tokens, state);
    if declaration.result == ParsingResult::Other {
        assert(declaration.state.at(state.cursor) == declaration.state);
        lemma_expression_follows(tokens, declaration.state);
        let expression = spec_parse_expression(tokens, declaration.state);
        if expression.result == ParsingResult::Other {
            assert(expression.state.at(state.cursor) == expression.state);
            lemma_return_follows(tokens, expression.state);
            let ret = spec_parse_return(tokens, expression.state);
            lemma_extends_transitive(expression.state, ret.state, parse.state);
        }
        lemma_extends_transitive(declaration.state, expression.state, parse.state);
        lemma_extends_transitive(state, declaration.state, parse.state);
    }
}

/// Parsing the statements of a file extends what was there, keeps the
/// statements found before at the top of the file, and reads every token
/// up to the end-of-file token.
pub proof fn lemma_statements_follow(
    tokens: Seq<TokenModel>,
    state: ParseState,
    root_nodes: Seq<usize>,
)
    requires
        ends_in_eof(tokens),
        0 <= state.cursor,
        tokens_fit(tokens, state.identifiers.len()),
    ensures
        ({
            let parsed = spec_parse_statements(tokens, state, root_nodes);
            &&& extends(state, parsed.state)
            &&& root_nodes.is_prefix_of(parsed.root_nodes)
            &&& !can_read(tokens, parsed.state.cursor)
        }),
    decreases remaining(tokens, state.cursor),
{
    if can_read(tokens, state.cursor) {
        lemma_statement_follows(tokens, state);
        let statement = spec_parse_statement(tokens, state);
        let next = match statement.result {
            ParsingResult::Parsed => statement.state,
            ParsingResult::Error => statement.state.at(
                next_terminator(tokens, statement.state.cursor) + 1,
            ),
            ParsingResult::Other => recover(
                tokens,
                statement.state.at(state.cursor),
                unparsed_reason(),
            ),
        };
        let roots = if statement.result == ParsingResult::Parsed {
            root_nodes.push((statement.state.nodes.len() - 1) as usize)
        } else {
            root_nodes
        };
        match statement.result {
            ParsingResult::Parsed => {},
            ParsingResult::Error => {
                lemma_next_terminator(tokens, statement.state.cursor);
            },
            ParsingResult::Other => {
                assert(statement.state.at(state.cursor) == statement.state);
                lemma_recover_extends(tokens, statement.state, unparsed_reason());
            },
        }
        lemma_extends_transitive(state, statement.state, next);
        lemma_statements_follow(tokens, next, roots);
        let parsed = spec_parse_statements(tokens, next, roots);
        lemma_extends_transitive(state, next, parsed.state);
        assert(root_nodes.is_prefix_of(parsed.root_nodes)) by {
            assert forall|i: int| 0 <= i < root_nodes.len() implies root_nodes[i]
                == parsed.root_nodes[i] by {
                assert(roots[i] == parsed.root_nodes[i]);
            }
        }
    }
}

/// The tree of a scanned file keeps the identifier table of the scan, in
/// length and in names, and keeps the errors of the scan before its own.
/// After a lexical error it has no node.
pub proof fn lemma_file_keeps_scan(lexed: LexModel)
    requires
        tokens_fit(lexed.tokens, lexed.identifiers.len()),
    ensures
        spec_parse_file(lexed).identifiers.len() == lexed.identifiers.len(),
        forall|i: int|
            0 <= i < lexed.identifiers.len() ==> (#[trigger] spec_parse_file(
                lexed,
            ).identifiers[i]).name == lexed.identifiers[i].name,
        lexed.errors.is_prefix_of(spec_parse_file(lexed).errors),
        lexed.errors.len() > 0 ==> spec_parse_file(lexed).nodes.len() == 0 && spec_parse_file(
            lexed,
        ).errors == lexed.errors,
{
    if lexed.errors.len() == 0 {
        lemma_statements_follow(
            lexed.tokens,
            ParseState {
                cursor: 0,
                nodes: Seq::empty(),
                identifiers: lexed.identifiers,
                errors: lexed.errors,
            },
            Seq::empty(),
        );
    }
}

} // verus!
