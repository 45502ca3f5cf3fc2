use vstd::prelude::*;
use crate::common::identifier::{IdentifierModel, TypeStateModel};
use crate::common::operator::Operator;
use crate::common::position::FileSpan;
use crate::common::syntax_error::SyntaxErrorModel;
use crate::lexer::token::{TokenKindModel, TokenModel};
use crate::parser::ast_node::{
    AstNodeKindModel,
    AstNodeModel,
    ExpressionModel,
    ParsingResult,
    Statement,
};

verus! {

/// What a parse has reached: the place of the cursor in the tokens, and
/// the nodes, the identifier table and the errors gathered so far.
pub struct ParseState {
    pub cursor: int,
    pub nodes: Seq<AstNodeModel>,
    pub identifiers: Seq<IdentifierModel>,
    pub errors: Seq<SyntaxErrorModel>,
}

/// How an attempt to parse a construct ends, and what the parse has
/// reached then.
pub struct Parse {
    pub result: ParsingResult,
    pub state: ParseState,
}

/// Whether the tokens end in the end-of-file token.
pub open spec fn ends_in_eof(tokens: Seq<TokenModel>) -> bool {
    tokens.len() > 0 && tokens.last().kind is EOF
}

/// The token at `index`, and the last token for every index outside the
/// sequence.
pub open spec fn token_at(tokens: Seq<TokenModel>, index: int) -> TokenModel {
    if 0 <= index < tokens.len() {
        tokens[index]
    } else {
        tokens.last()
    }
}

/// How many tokens stand at or after `cursor`.
pub open spec fn remaining(tokens: Seq<TokenModel>, cursor: int) -> nat {
    if cursor < tokens.len() {
        (tokens.len() - cursor) as nat
    } else {
        0
    }
}

/// Whether a token other than the last is under the cursor.
pub open spec fn can_read(tokens: Seq<TokenModel>, cursor: int) -> bool {
    cursor < tokens.len() - 1
}

/// The place of the first statement terminator at or after `from`: a `;`
/// or the end of the file. From the last token on, every place holds the
/// end of the file.
pub open spec fn next_terminator(tokens: Seq<TokenModel>, from: int) -> int
    decreases remaining(tokens, from),
{
    if from >= tokens.len() - 1 || from < 0 {
        from
    } else if tokens[from].kind.is_terminator() {
        from
    } else {
        next_terminator(tokens, from + 1)
    }
}

impl ParseState {
    /// The same state with the cursor at `cursor`.
    pub open spec fn at(self, cursor: int) -> ParseState {
        ParseState { cursor, ..self }
    }

    /// The same state with the cursor one token further.
    pub open spec fn advance(self) -> ParseState {
        self.at(self.cursor + 1)
    }

    /// The same state with `node` appended.
    pub open spec fn with_node(self, node: AstNodeModel) -> ParseState {
        ParseState { nodes: self.nodes.push(node), ..self }
    }

    /// The same state with `error` appended.
    pub open spec fn with_error(self, error: SyntaxErrorModel) -> ParseState {
        ParseState { errors: self.errors.push(error), ..self }
    }
}

/// Why a declaration without a value is refused.
pub open spec fn declaration_reason() -> Seq<char> {
    "expected a value after operator :="@
}

/// Why a return statement without a value and without `;` is refused.
pub open spec fn return_reason() -> Seq<char> {
    "expected ; or a value after return keyword"@
}

/// Why a token that starts no statement is refused.
pub open spec fn unparsed_reason() -> Seq<char> {
    "cannot parse this node"@
}

/// Why a block that the file ends in is refused.
pub open spec fn scope_end_reason() -> Seq<char> {
    "missing scope end }"@
}

/// Why an expression is refused that goes on with `found` after `last`.
pub open spec fn expression_reason(last: TokenKindModel, found: TokenKindModel) -> Seq<char> {
    "Unexpected token encountered while trying to parse expression. Expected one of(;, function call, function body, operator) after "@
        + last.text() + " but found "@ + found.text()
}

/// Why a function call is refused that has `found` in the place of its
/// callee.
pub open spec fn call_reason(found: TokenKindModel) -> Seq<char> {
    "Expected an expression after operator -> in function call expression but found "@
        + found.text() + "."@
}

/// What giving up a statement leaves behind: the token under the cursor is
/// read, then every token up to the next terminator, then the terminator;
/// and an error with `reason` is added that spans from the first token
/// read to the terminator.
pub open spec fn recover(tokens: Seq<TokenModel>, state: ParseState, reason: Seq<char>)
    -> ParseState {
    let first = token_at(tokens, state.cursor);
    let stop = next_terminator(tokens, state.cursor + 1);
    let last = token_at(tokens, stop);
    state.at(stop + 1).with_error(
        SyntaxErrorModel {
            position: FileSpan::spec_combine(first.position, last.position),
            reason,
        },
    )
}

/// An identifier expression: one identifier token, which becomes a node
/// with the token's index and span.
pub open spec fn spec_parse_identifier(tokens: Seq<TokenModel>, state: ParseState) -> Parse {
    let token = token_at(tokens, state.cursor);
    match token.kind {
        TokenKindModel::Identifier { index } => Parse {
            result: ParsingResult::Parsed,
            state: state.advance().with_node(AstNodeModel::identifier(index, token.position)),
        },
        _ => Parse { result: ParsingResult::Other, state },
    }
}

/// A literal expression: one literal token, which becomes a node with the
/// token's literal and span.
pub open spec fn spec_parse_literal(tokens: Seq<TokenModel>, state: ParseState) -> Parse {
    let token = token_at(tokens, state.cursor);
    match token.kind {
        TokenKindModel::Literal(literal) => Parse {
            result: ParsingResult::Parsed,
            state: state.advance().with_node(AstNodeModel::literal(literal, token.position)),
        },
        _ => Parse { result: ParsingResult::Other, state },
    }
}

/// An expression of one token: an identifier or a literal.
pub open spec fn spec_parse_single_token_exp(tokens: Seq<TokenModel>, state: ParseState)
    -> Parse {
    let identifier = spec_parse_identifier(tokens, state);
    if identifier.result == ParsingResult::Parsed {
        identifier
    } else {
        spec_parse_literal(tokens, state)
    }
}

/// A function call: `->` and an identifier. Its node spans from the
/// operator to the identifier. Any other token after `->` is an error at
/// that token.
pub open spec fn spec_parse_function_call(tokens: Seq<TokenModel>, state: ParseState) -> Parse {
    let operator = token_at(tokens, state.cursor);
    if operator.kind == TokenKindModel::Operator(Operator::Into) {
        let callee = spec_parse_identifier(tokens, state.advance());
        if callee.result == ParsingResult::Parsed {
            Parse {
                result: ParsingResult::Parsed,
                state: callee.state.with_node(
                    AstNodeModel::function_call(
                        FileSpan::spec_combine(operator.position, callee.state.nodes.last().position),
                    ),
                ),
            }
        } else {
            let found = token_at(tokens, callee.state.cursor);
            Parse {
                result: ParsingResult::Error,
                state: callee.state.with_error(
                    SyntaxErrorModel::from_token(found, Some(call_reason(found.kind))),
                ),
            }
        }
    } else {
        Parse { result: ParsingResult::Other, state }
    }
}

/// What may follow the left side of an expression.
pub open spec fn spec_parse_right_side(tokens: Seq<TokenModel>, state: ParseState) -> Parse {
    let call = spec_parse_function_call(tokens, state);
    if call.result == ParsingResult::Parsed {
        call
    } else {
        Parse { result: ParsingResult::Other, state: call.state }
    }
}

/// The right sides of an expression, one after the other. The expression
/// is complete when a `;` follows a right side. Where no right side can be
/// parsed, the expression is refused with an error at the token after the
/// cursor.
pub open spec fn spec_parse_right_sides(tokens: Seq<TokenModel>, state: ParseState) -> Parse
    decreases remaining(tokens, state.cursor),
    when ends_in_eof(tokens)
{
    let right = spec_parse_right_side(tokens, state);
    if right.result == ParsingResult::Parsed {
        if token_at(tokens, right.state.cursor).kind is EOI {
            Parse { result: ParsingResult::Parsed, state: right.state }
        } else {
            spec_parse_right_sides(tokens, right.state)
        }
    } else {
        let last = token_at(tokens, right.state.cursor);
        let found = token_at(tokens, right.state.cursor + 1);
        Parse {
            result: ParsingResult::Error,
            state: right.state.with_error(
                SyntaxErrorModel::from_token(found, Some(expression_reason(last.kind, found.kind))),
            ),
        }
    }
}

/// Whether an expression may start with a token of this kind.
pub open spec fn starts_expression(kind: TokenKindModel) -> bool {
    kind is Identifier || kind is Literal || kind is OpenCurly || kind == TokenKindModel::Operator(
        Operator::Into,
    )
}

/// After a statement that was parsed, one `;` is read if it stands there.
pub open spec fn finish_statement(tokens: Seq<TokenModel>, state: ParseState) -> Parse {
    Parse {
        result: ParsingResult::Parsed,
        state: if token_at(tokens, state.cursor).kind is EOI {
            state.advance()
        } else {
            state
        },
    }
}

/// What a declaration adds once its value is parsed, the value's node
/// being the last. Where the value is a literal, the identifier at `index`
/// of the table gets the literal's type. The declaration's node is
/// appended: it refers to the identifier's node `ident_node`, and spans
/// from `position`, the identifier's span, to the value's. The identifier
/// gets the index of the declaration's node.
pub open spec fn declare(state: ParseState, ident_node: usize, index: usize, position: FileSpan)
    -> ParseState {
    let value = state.nodes.last();
    let entry = state.identifiers[index as int];
    ParseState {
        nodes: state.nodes.push(
            AstNodeModel::declaration(ident_node, FileSpan::spec_combine(position, value.position)),
        ),
        identifiers: state.identifiers.update(
            index as int,
            IdentifierModel {
                name: entry.name,
                type_state: match value.kind {
                    AstNodeKindModel::Expression(ExpressionModel::Literal(literal)) => {
                        TypeStateModel::Valid(literal.llc_type)
                    },
                    _ => entry.type_state,
                },
                declaration_idx: state.nodes.len() as usize,
            },
        ),
        ..state
    }
}

/// A block: `{`, statements, `}`.
pub open spec fn spec_parse_block(tokens: Seq<TokenModel>, state: ParseState) -> Parse
    decreases remaining(tokens, state.cursor), 1nat,
    when ends_in_eof(tokens)
{
    let open = token_at(tokens, state.cursor);
    if open.kind is OpenCurly {
        spec_parse_block_body(tokens, state.advance(), open.position)
    } else {
        Parse { result: ParsingResult::Other, state }
    }
}

/// The rest of a block whose `{` has the span `begin`. At `}` the block's
/// node is appended, which spans from `{` to `}`. Where only the end of
/// the file is left, the block is refused with an error there. Anything
/// else is parsed as a statement: one that is parsed or refused has read
/// at least one token, and the block goes on behind it; where no statement
/// starts, the tokens up to the next terminator are given up, and the
/// block goes on behind them.
pub open spec fn spec_parse_block_body(tokens: Seq<TokenModel>, state: ParseState, begin: FileSpan)
    -> Parse
    decreases remaining(tokens, state.cursor), 7nat,
    when ends_in_eof(tokens)
{
    let token = token_at(tokens, state.cursor);
    if !can_read(tokens, state.cursor) {
        Parse {
            result: ParsingResult::Error,
            state: state.with_error(SyntaxErrorModel::from_token(token, Some(scope_end_reason()))),
        }
    } else if token.kind is CloseCurly {
        Parse {
            result: ParsingResult::Parsed,
            state: state.advance().with_node(
                AstNodeModel::block(FileSpan::spec_combine(begin, token.position)),
            ),
        }
    } else {
        let next = block_step(tokens, state);
        if next.cursor > state.cursor {
            spec_parse_block_body(tokens, next, begin)
        } else {
            Parse { result: ParsingResult::Error, state: next }
        }
    }
}

/// What a block has reached after the statement at the cursor: what the
/// statement has reached where it is parsed or refused, and what giving up
/// the tokens up to the next terminator leaves where no statement starts.
pub open spec fn block_step(tokens: Seq<TokenModel>, state: ParseState) -> ParseState
    decreases remaining(tokens, state.cursor), 6nat,
    when ends_in_eof(tokens)
{
    let statement = spec_parse_statement(tokens, state);
    if statement.result == ParsingResult::Other {
        recover(tokens, statement.state.at(state.cursor), unparsed_reason())
    } else {
        statement.state
    }
}

/// The left side of an expression: an expression of one token, or a block.
/// A block that is refused leaves its error and no left side.
pub open spec fn spec_parse_left_side(tokens: Seq<TokenModel>, state: ParseState) -> Parse
    decreases remaining(tokens, state.cursor), 2nat,
    when ends_in_eof(tokens)
{
    let single = spec_parse_single_token_exp(tokens, state);
    if single.result == ParsingResult::Parsed {
        single
    } else {
        let block = spec_parse_block(tokens, state);
        if block.result == ParsingResult::Parsed {
            block
        } else {
            Parse { result: ParsingResult::Other, state: block.state }
        }
    }
}

/// An expression: it starts with an identifier, a literal, `{` or `->`,
/// has a left side or none, and then right sides up to a `;`. With a left
/// side that a `;` follows it is complete at once.
pub open spec fn spec_parse_expression(tokens: Seq<TokenModel>, state: ParseState) -> Parse
    decreases remaining(tokens, state.cursor), 3nat,
    when ends_in_eof(tokens)
{
    if !starts_expression(token_at(tokens, state.cursor).kind) {
        Parse { result: ParsingResult::Other, state }
    } else {
        let left = spec_parse_left_side(tokens, state);
        if left.result == ParsingResult::Parsed && token_at(tokens, left.state.cursor).kind is EOI {
            Parse { result: ParsingResult::Parsed, state: left.state }
        } else {
            spec_parse_right_sides(tokens, left.state)
        }
    }
}

/// A declaration: an identifier, `:=` and an expression. The identifier's
/// node is appended in any case; where no `:=` follows, no declaration
/// starts here, and the cursor goes back. Where no expression follows
/// `:=`, the statement is given up.
pub open spec fn spec_parse_declaration(tokens: Seq<TokenModel>, state: ParseState) -> Parse
    decreases remaining(tokens, state.cursor), 4nat,
    when ends_in_eof(tokens)
{
    let name = token_at(tokens, state.cursor);
    let identifier = spec_parse_identifier(tokens, state);
    if identifier.result != ParsingResult::Parsed {
        Parse { result: ParsingResult::Other, state }
    } else if token_at(tokens, identifier.state.cursor).kind != TokenKindModel::Operator(
        Operator::Declassignment,
    ) {
        Parse { result: ParsingResult::Other, state: identifier.state.at(state.cursor) }
    } else {
        let value = spec_parse_expression(tokens, identifier.state.advance());
        if value.result == ParsingResult::Parsed {
            Parse {
                result: ParsingResult::Parsed,
                state: declare(
                    value.state,
                    state.nodes.len() as usize,
                    name.kind->Identifier_index,
                    name.position,
                ),
            }
        } else if value.result == ParsingResult::Error {
            value
        } else {
            Parse {
                result: ParsingResult::Error,
                state: recover(tokens, value.state, declaration_reason()),
            }
        }
    }
}

/// A return statement: `=>`, then `;` or an expression. Its node spans
/// `=>` alone where `;` follows at once, else from `=>` to the last token
/// of the expression. Where neither follows, the statement is given up.
pub open spec fn spec_parse_return(tokens: Seq<TokenModel>, state: ParseState) -> Parse
    decreases remaining(tokens, state.cursor), 4nat,
    when ends_in_eof(tokens)
{
    let operator = token_at(tokens, state.cursor);
    let after = state.advance();
    if operator.kind != TokenKindModel::Operator(Operator::Return) {
        Parse { result: ParsingResult::Other, state }
    } else if token_at(tokens, after.cursor).kind is EOI {
        Parse {
            result: ParsingResult::Parsed,
            state: after.advance().with_node(AstNodeModel::return_statement(operator.position)),
        }
    } else {
        let value = spec_parse_expression(tokens, after);
        if value.result == ParsingResult::Parsed {
            Parse {
                result: ParsingResult::Parsed,
                state: value.state.with_node(
                    AstNodeModel::return_statement(
                        FileSpan::spec_combine(
                            operator.position,
                            token_at(tokens, value.state.cursor - 1).position,
                        ),
                    ),
                ),
            }
        } else if value.result == ParsingResult::Error {
            value
        } else {
            Parse { result: ParsingResult::Error, state: recover(tokens, value.state, return_reason()) }
        }
    }
}

/// A statement: a declaration, or else an expression, or else a return
/// statement, each tried where the statement starts. The first that is
/// parsed or refused decides. After a statement that was parsed, one `;`
/// is read if it stands there.
pub open spec fn spec_parse_statement(tokens: Seq<TokenModel>, state: ParseState) -> Parse
    decreases remaining(tokens, state.cursor), 5nat,
    when ends_in_eof(tokens)
{
    let declaration = spec_parse_declaration(tokens, state);
    if declaration.result == ParsingResult::Parsed {
        finish_statement(tokens, declaration.state)
    } else if declaration.result == ParsingResult::Error {
        declaration
    } else {
        let expression = spec_parse_expression(tokens, declaration.state.at(state.cursor));
        if expression.result == ParsingResult::Parsed {
            finish_statement(tokens, expression.state)
        } else if expression.result == ParsingResult::Error {
            expression
        } else {
            let ret = spec_parse_return(tokens, expression.state.at(state.cursor));
            if ret.result == ParsingResult::Parsed {
                finish_statement(tokens, ret.state)
            } else {
                ret
            }
        }
    }
}

/// What parsing the statements of a file has reached, and the indices of
/// the nodes of the statements that were parsed.
pub struct FileParse {
    pub state: ParseState,
    pub root_nodes: Seq<usize>,
}

/// The statements of a file, one after the other, up to the end-of-file
/// token. A statement that is parsed adds the index of its node, the last
/// one, to `root_nodes`. After a statement that is refused, the tokens up
/// to the next terminator and the terminator are passed over. Where no
/// statement starts, the tokens up to the next terminator are given up.
/// Each of the three reads at least one token.
pub open spec fn spec_parse_statements(
    tokens: Seq<TokenModel>,
    state: ParseState,
    root_nodes: Seq<usize>,
) -> FileParse
    decreases remaining(tokens, state.cursor),
    when ends_in_eof(tokens)
{
    if !can_read(tokens, state.cursor) {
        FileParse { state, root_nodes }
    } else {
        let statement = spec_parse_statement(tokens, state);
        let next = match statement.result {
            ParsingResult::Parsed => statement.state,
            ParsingResult::Error => statement.state.at(
                next_terminator(tokens, statement.state.cursor) + 1,
            ),
            ParsingResult::Other => recover(
                tokens,
                statement.state.at(state.cursor),
                unparsed_reason(),
            ),
        };
        let roots = if statement.result == ParsingResult::Parsed {
            root_nodes.push((statement.state.nodes.len() - 1) as usize)
        } else {
            root_nodes
        };
        if next.cursor > state.cursor {
            spec_parse_statements(tokens, next, roots)
        } else {
            FileParse { state: next, root_nodes: roots }
        }
    }
}

/// What every step of a parse keeps: the cursor does not go back; nodes
/// and errors are only appended; the identifier table keeps its length and
/// its names.
pub open spec fn extends(before: ParseState, after: ParseState) -> bool {
    &&& before.cursor <= after.cursor
    &&& before.nodes.is_prefix_of(after.nodes)
    &&& before.errors.is_prefix_of(after.errors)
    &&& after.identifiers.len() == before.identifiers.len()
    &&& forall|i: int|
        0 <= i < before.identifiers.len() ==> (#[trigger] after.identifiers[i]).name
            == before.identifiers[i].name
}

/// What holds of every attempt to parse a construct, from `before` to
/// `parse`. An attempt that ends in `Other` has read no token and found no
/// error. Any other attempt has read at least one token. An attempt that
/// ends in `Parsed` has appended at least one node, whose node is the
/// last. No attempt leaves the cursor further than two places behind the
/// end-of-file token, where it did not start further.
pub open spec fn follows(tokens: Seq<TokenModel>, before: ParseState, parse: Parse) -> bool {
    &&& extends(before, parse.state)
    &&& before.cursor <= tokens.len() + 1 ==> parse.state.cursor <= tokens.len() + 1
    &&& parse.result == ParsingResult::Other ==> parse.state.cursor == before.cursor
        && parse.state.errors == before.errors
    &&& parse.result != ParsingResult::Other ==> parse.state.cursor > before.cursor
    &&& parse.result == ParsingResult::Parsed ==> parse.state.nodes.len() > before.nodes.len()
}

/// Whether the node at `at` refers to what stands before it: an
/// identifier to an entry of a table of `table_len` identifiers, and a
/// declaration to an earlier node, which is an identifier.
pub open spec fn node_fits(nodes: Seq<AstNodeModel>, at: int, table_len: nat) -> bool {
    match nodes[at].kind {
        AstNodeKindModel::Expression(ExpressionModel::Identifier { index }) => index < table_len,
        AstNodeKindModel::Statement(Statement::Declaration { ident_index }) => ident_index < at
            && nodes[ident_index as int].kind is Expression
            && nodes[ident_index as int].kind->Expression_0 is Identifier,
        _ => true,
    }
}

/// Whether the nodes are in order beside a table of `table_len`
/// identifiers: every node refers to what stands before it.
pub open spec fn arena_wf(nodes: Seq<AstNodeModel>, table_len: nat) -> bool {
    forall|at: int| 0 <= at < nodes.len() ==> node_fits(nodes, at, table_len)
}

/// Appending a node that refers to what stands before it keeps the nodes
/// in order.
pub proof fn lemma_push_keeps_arena(nodes: Seq<AstNodeModel>, node: AstNodeModel, table_len: nat)
    requires
        arena_wf(nodes, table_len),
        node_fits(nodes.push(node), nodes.len() as int, table_len),
    ensures
        arena_wf(nodes.push(node), table_len),
{
    let after = nodes.push(node);
    assert forall|at: int| 0 <= at < after.len() implies node_fits(after, at, table_len) by {
        if at < nodes.len() {
            assert(node_fits(nodes, at, table_len));
            assert(after[at] == nodes[at]);
        }
    }
}

/// Whether `token` can be parsed beside a table of `table_len`
/// identifiers: its kind has a written form, and where it is an identifier
/// its index is one of the table.
pub open spec fn token_fits(token: TokenModel, table_len: nat) -> bool {
    &&& token.kind.printable()
    &&& token.kind matches TokenKindModel::Identifier { index } ==> index < table_len
}

/// Whether the tokens can be parsed beside a table of `table_len`
/// identifiers: they end in the end-of-file token, and each of them fits
/// the table.
pub open spec fn tokens_fit(tokens: Seq<TokenModel>, table_len: nat) -> bool {
    &&& ends_in_eof(tokens)
    &&& forall|i: int| 0 <= i < tokens.len() ==> token_fits(#[trigger] tokens[i], table_len)
}

/// The next terminator is looked for forwards only; it stands within the
/// tokens where the search starts there; and no terminator stands between
/// the start and it.
pub proof fn lemma_next_terminator(tokens: Seq<TokenModel>, from: int)
    requires
        ends_in_eof(tokens),
        0 <= from,
    ensures
        from <= next_terminator(tokens, from),
        from < tokens.len() ==> next_terminator(tokens, from) < tokens.len(),
        token_at(tokens, next_terminator(tokens, from)).kind.is_terminator(),
        forall|i: int|
            from <= i < next_terminator(tokens, from) ==> !(#[trigger] token_at(
                tokens,
                i,
            )).kind.is_terminator(),
    decreases remaining(tokens, from),
{
    if from < tokens.len() - 1 && !tokens[from].kind.is_terminator() {
        lemma_next_terminator(tokens, from + 1);
    }
}

/// The first terminator at or after `from` is the next terminator.
pub proof fn lemma_first_terminator(tokens: Seq<TokenModel>, from: int, stop: int)
    requires
        ends_in_eof(tokens),
        0 <= from <= stop,
        token_at(tokens, stop).kind.is_terminator(),
        forall|i: int| from <= i < stop ==> !(#[trigger] token_at(tokens, i)).kind.is_terminator(),
    ensures
        stop == next_terminator(tokens, from),
{
    lemma_next_terminator(tokens, from);
    let next = next_terminator(tokens, from);
    if next < stop {
        assert(!token_at(tokens, next).kind.is_terminator());
    }
    if stop < next {
        assert(!token_at(tokens, stop).kind.is_terminator());
    }
}

} // verus!
