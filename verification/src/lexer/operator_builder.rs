use vstd::prelude::*;
use crate::common::operator::{
    parse_operator,
    parse_pair_operator,
    spec_pair_operator,
    spec_parse_operator,
    Operator,
};
use crate::lexer::file_stream::FileLine;
use crate::lexer::token::{token_models, Token, TokenKind, TokenKindModel, TokenModel};

verus! {

/// What stands at a place of a line, read as operators: nothing, one
/// operator (of one character or of two), or two operators of one
/// character each.
#[derive(Debug, PartialEq, Eq, Clone, Copy, Structural)]
pub enum OperatorScan {
    Nothing,
    One(Operator),
    Two(Operator, Operator),
}

/// The one-character operator at `pos`, if the line has a character there
/// and it is one.
pub open spec fn operator_at(content: Seq<char>, pos: int) -> Option<Operator> {
    if 0 <= pos < content.len() {
        spec_parse_operator(content[pos])
    } else {
        None
    }
}

/// The operators that start at `pos`. Two operator characters in a row
/// are one operator where the two spell one, else two operators.
pub open spec fn spec_get_operator(content: Seq<char>, pos: int) -> OperatorScan {
    match operator_at(content, pos) {
        None => OperatorScan::Nothing,
        Some(first) => match operator_at(content, pos + 1) {
            None => OperatorScan::One(first),
            Some(second) => match spec_pair_operator(content[pos], content[pos + 1]) {
                Some(both) => OperatorScan::One(both),
                None => OperatorScan::Two(first, second),
            },
        },
    }
}

/// Where the cursor stands after the operators at `pos` were read: behind
/// every operator character read, two at most.
pub open spec fn operator_end(content: Seq<char>, pos: int) -> int {
    if operator_at(content, pos) is None {
        pos
    } else if operator_at(content, pos + 1) is None {
        pos + 1
    } else {
        pos + 2
    }
}

/// The tokens for what was read, on the line `number`, the cursor standing
/// at `end` after the read. Rows count from one. One operator ends at the
/// column `end`, and starts one column earlier where it is composite; two
/// operators fill the columns `end` and `end + 1`.
pub open spec fn operator_tokens(scan: OperatorScan, number: usize, end: int) -> Seq<TokenModel> {
    let row = (number + 1) as usize;
    match scan {
        OperatorScan::Nothing => Seq::empty(),
        OperatorScan::One(op) => seq![
            TokenModel::on_row(
                TokenKindModel::Operator(op),
                row,
                if op.spec_is_composite() {
                    (end - 1) as usize
                } else {
                    end as usize
                },
                end as usize,
            ),
        ],
        OperatorScan::Two(first, second) => seq![
            TokenModel::on_row(TokenKindModel::Operator(first), row, end as usize, end as usize),
            TokenModel::on_row(
                TokenKindModel::Operator(second),
                row,
                (end + 1) as usize,
                (end + 1) as usize,
            ),
        ],
    }
}

/// Reads the operators under the cursor and moves the cursor past them.
/// Where no operator stands there, the cursor stays.
pub fn get_operator(line: &mut FileLine) -> (scan: OperatorScan)
    requires
        old(line).wf(),
    ensures
        final(line).wf(),
        final(line).number == old(line).number,
        final(line).content == old(line).content,
        scan == spec_get_operator(old(line).content@, old(line).current_index as int),
        final(line).current_index == operator_end(
            old(line).content@,
            old(line).current_index as int,
        ),
{
    let first_char = match line.get_next() {
        Some(c) => c,
        None => {
            return OperatorScan::Nothing;
        },
    };
    let first = match parse_operator(first_char) {
        Some(op) => op,
        None => {
            line.backtrack(1);
            return OperatorScan::Nothing;
        },
    };
    let second_char = match line.get_next() {
        Some(c) => c,
        None => {
            return OperatorScan::One(first);
        },
    };
    let second = match parse_operator(second_char) {
        Some(op) => op,
        None => {
            line.backtrack(1);
            return OperatorScan::One(first);
        },
    };
    match parse_pair_operator(first_char, second_char) {
        Some(both) => OperatorScan::One(both),
        None => OperatorScan::Two(first, second),
    }
}

/// Reads the operators under the cursor as tokens. Declines, with the
/// cursor where it was, where no operator stands there.
pub fn build_operator(line: &mut FileLine) -> (tokens: Option<Vec<Token>>)
    requires
        old(line).wf(),
    ensures
        final(line).wf(),
        final(line).number == old(line).number,
        final(line).content == old(line).content,
        final(line).current_index == operator_end(
            old(line).content@,
            old(line).current_index as int,
        ),
        tokens is None <==> spec_get_operator(old(line).content@, old(line).current_index as int)
            == OperatorScan::Nothing,
        tokens matches Some(found) ==> token_models(found@) == operator_tokens(
            spec_get_operator(old(line).content@, old(line).current_index as int),
            old(line).number,
            final(line).current_index as int,
        ),
{
    let mut result: Vec<Token> = Vec::new();
    match get_operator(line) {
        OperatorScan::Nothing => {
            return None;
        },
        OperatorScan::One(op) => {
            let start = if op.is_composite() {
                line.current_index - 1
            } else {
                line.current_index
            };
            result.push(
                Token::new(TokenKind::Operator(op), line.number + 1, start, line.current_index),
            );
        },
        OperatorScan::Two(first, second) => {
            result.push(
                Token::single_char(
                    TokenKind::Operator(first),
                    line.number + 1,
                    line.current_index,
                ),
            );
            result.push(
                Token::single_char(
                    TokenKind::Operator(second),
                    line.number + 1,
                    line.current_index + 1,
                ),
            );
        },
    };
    assert(token_models(result@) =~= operator_tokens(
        spec_get_operator(old(line).content@, old(line).current_index as int),
        old(line).number,
        line.current_index as int,
    ));
    Some(result)
}

} // verus!
