use vstd::prelude::*;
use vstd::string::StringExecFns;
use crate::common::literal::{LiteralModel, LiteralValue};
use crate::common::position::{FilePosition, FileSpan};
use crate::common::syntax_error::{error_models, SyntaxError, SyntaxErrorModel};
use crate::common::text::{is_numeric, numeric, push_char};
use crate::lexer::file_stream::FileLine;
use crate::lexer::token::{Token, TokenKind, TokenKindModel, TokenModel};
use crate::type_system::llc_type::{Type, TypeModel};

verus! {

/// How an attempt to read a literal ends: no literal stands there and
/// nothing was read; a literal was read, up to `end`; or the literal is
/// malformed, which was found out at `end`.
pub enum LiteralScan {
    Declined,
    Found { token: TokenModel, end: int },
    Failed { error: SyntaxErrorModel, end: int },
}

/// Whether `literal`, `line` and `errors` are what the attempt `scan`
/// leaves behind, when it started with the line `before` and the errors
/// `errors_before`. A declined attempt leaves all as it was. A found
/// literal is handed out and the cursor stands behind it. A failed attempt
/// hands out nothing, leaves the cursor where it failed and adds its error.
pub open spec fn literal_outcome(
    scan: LiteralScan,
    literal: Option<Token>,
    before: FileLine,
    line: FileLine,
    errors_before: Seq<SyntaxError>,
    errors: Seq<SyntaxError>,
) -> bool {
    &&& line.number == before.number
    &&& line.content == before.content
    &&& match scan {
        LiteralScan::Declined => {
            &&& literal is None
            &&& line.current_index == before.current_index
            &&& errors == errors_before
        },
        LiteralScan::Found { token, end } => {
            &&& literal matches Some(found)
            &&& found@ == token
            &&& line.current_index == end
            &&& errors == errors_before
        },
        LiteralScan::Failed { error, end } => {
            &&& literal is None
            &&& line.current_index == end
            &&& error_models(errors) == error_models(errors_before).push(error)
        },
    }
}

/// The index of the first `"` at or after `pos`, or the length of the line
/// where there is none.
pub open spec fn quote_end(content: Seq<char>, pos: int) -> int
    decreases content.len() - pos,
{
    if pos < 0 || pos >= content.len() {
        content.len() as int
    } else if content[pos] == '"' {
        pos
    } else {
        quote_end(content, pos + 1)
    }
}

/// A string literal at `pos` on the line `number`: a `"`, at least one
/// character that is no `"`, and a `"`. Its value is what stands between
/// the two. Its span starts at the column of the opening `"` and is as
/// wide as the value.
pub open spec fn spec_build_literal_str(content: Seq<char>, pos: int, number: usize)
    -> LiteralScan {
    let close = quote_end(content, pos + 1);
    if 0 <= pos < content.len() && content[pos] == '"' && pos + 1 < close < content.len() {
        LiteralScan::Found {
            token: TokenModel::on_row(
                TokenKindModel::Literal(
                    LiteralModel {
                        llc_type: TypeModel::String,
                        value: content.subrange(pos + 1, close),
                    },
                ),
                (number + 1) as usize,
                (pos + 1) as usize,
                (close - 1) as usize,
            ),
            end: close + 1,
        }
    } else {
        LiteralScan::Declined
    }
}

/// What reading a number has gathered when it stops at `end`: the text,
/// whether a decimal point is in it, whether a digit is in it, and whether
/// it stopped at a second decimal point.
pub struct NumberScan {
    pub end: int,
    pub text: Seq<char>,
    pub float: bool,
    pub digits: bool,
    pub failed: bool,
}

/// Reads on from `pos`, with `text`, `float` and `digits` gathered so far.
/// A digit and a first `.` join the text; a `_` is passed over; a second
/// `.` is read and fails the number; any other character, and the end of
/// the line, ends the number.
pub open spec fn number_scan(
    content: Seq<char>,
    pos: int,
    text: Seq<char>,
    float: bool,
    digits: bool,
) -> NumberScan
    decreases content.len() - pos,
{
    if pos < 0 || pos >= content.len() {
        NumberScan { end: pos, text, float, digits, failed: false }
    } else if content[pos] == '.' {
        if float {
            NumberScan { end: pos + 1, text, float, digits, failed: true }
        } else {
            number_scan(content, pos + 1, text.push('.'), true, digits)
        }
    } else if content[pos] == '_' {
        number_scan(content, pos + 1, text, float, digits)
    } else if numeric(content[pos]) {
        number_scan(content, pos + 1, text.push(content[pos]), float, true)
    } else {
        NumberScan { end: pos, text, float, digits, failed: false }
    }
}

/// The text of the error for a second decimal point.
pub open spec fn second_point_reason() -> Seq<char> {
    "floating point literal cannot contain more than one decimal point"@
}

/// A numeric literal at `pos` on the line `number`. With a second decimal
/// point it fails, with an error of no width. Without a digit there is no
/// literal. Else the literal is a float where a decimal point is in it and
/// an integer where none is, signed and of 32 bits either way; its span
/// starts at the column of its first character and is as wide as its text.
pub open spec fn spec_build_literal_num(content: Seq<char>, pos: int, number: usize)
    -> LiteralScan {
    let scan = number_scan(content, pos, Seq::empty(), false, false);
    if scan.failed {
        let place = FilePosition { row: number, col: (scan.end + 1) as usize };
        LiteralScan::Failed {
            error: SyntaxErrorModel {
                position: FileSpan { begin: place, end: place },
                reason: second_point_reason(),
            },
            end: scan.end,
        }
    } else if scan.digits {
        LiteralScan::Found {
            token: TokenModel::on_row(
                TokenKindModel::Literal(
                    LiteralModel {
                        llc_type: if scan.float {
                            TypeModel::Float { signed: true, size: 32 }
                        } else {
                            TypeModel::Integer { signed: true, size: 32 }
                        },
                        value: scan.text,
                    },
                ),
                (number + 1) as usize,
                (pos + 1) as usize,
                (pos + scan.text.len()) as usize,
            ),
            end: scan.end,
        }
    } else {
        LiteralScan::Declined
    }
}

/// A literal at `pos`: a string literal, or else a numeric one.
pub open spec fn spec_build_literal(content: Seq<char>, pos: int, number: usize) -> LiteralScan {
    match spec_build_literal_str(content, pos, number) {
        LiteralScan::Found { token, end } => LiteralScan::Found { token, end },
        _ => spec_build_literal_num(content, pos, number),
    }
}

/// A number never reads backwards, never past the end of the line, and
/// never gathers more characters than it read.
pub proof fn lemma_number_scan_bounds(
    content: Seq<char>,
    pos: int,
    text: Seq<char>,
    float: bool,
    digits: bool,
)
    requires
        0 <= pos <= content.len(),
    ensures
        ({
            let scan = number_scan(content, pos, text, float, digits);
            &&& pos <= scan.end <= content.len()
            &&& text.len() <= scan.text.len() <= text.len() + (scan.end - pos)
            &&& scan.failed ==> scan.end > pos
            &&& scan.digits && !digits ==> scan.end > pos
        }),
    decreases content.len() - pos,
{
    if pos < content.len() {
        if content[pos] == '.' {
            if !float {
                lemma_number_scan_bounds(content, pos + 1, text.push('.'), true, digits);
            }
        } else if content[pos] == '_' {
            lemma_number_scan_bounds(content, pos + 1, text, float, digits);
        } else if numeric(content[pos]) {
            lemma_number_scan_bounds(content, pos + 1, text.push(content[pos]), float, true);
        }
    }
}

/// The closing quote is looked for forwards only, and within the line.
pub proof fn lemma_quote_end_bounds(content: Seq<char>, pos: int)
    requires
        0 <= pos <= content.len(),
    ensures
        pos <= quote_end(content, pos) <= content.len(),
    decreases content.len() - pos,
{
    if pos < content.len() && content[pos] != '"' {
        lemma_quote_end_bounds(content, pos + 1);
    }
}

/// Reads a string literal under the cursor. Declines, with the cursor
/// where it was, where none stands there: without an opening quote,
/// without a closing quote on the line, or with nothing between the two.
pub fn build_literal_str(line: &mut FileLine) -> (literal: Option<Token>)
    requires
        old(line).wf(),
    ensures
        final(line).wf(),
        literal_outcome(
            spec_build_literal_str(
                old(line).content@,
                old(line).current_index as int,
                old(line).number,
            ),
            literal,
            *old(line),
            *final(line),
            Seq::empty(),
            Seq::empty(),
        ),
{
    let start = line.current_index;
    match line.get_next() {
        Some(c) => {
            if c != '"' {
                line.backtrack(1);
                return None;
            }
        },
        None => {
            return None;
        },
    }
    let mut lit = String::new();
    let mut closed = false;
    loop
        invariant_except_break
            !closed,
            lit@ == line.content@.subrange(start + 1, line.current_index as int),
        invariant
            line.wf(),
            line.number == old(line).number,
            line.content == old(line).content,
            start == old(line).current_index,
            start + 1 <= line.current_index <= line.content.len(),
            quote_end(line.content@, start + 1) == if closed {
                line.current_index - 1
            } else {
                quote_end(line.content@, line.current_index as int)
            },
        ensures
            closed ==> lit@ == line.content@.subrange(start + 1, line.current_index - 1),
            !closed ==> line.current_index == line.content.len(),
        decreases line.content.len() - line.current_index,
    {
        match line.get_next() {
            Some(c) => {
                if c == '"' {
                    closed = true;
                    break ;
                }
                let ghost before = lit@;
                push_char(&mut lit, c);
                assert(lit@ =~= line.content@.subrange(start + 1, line.current_index as int));
            },
            None => {
                break ;
            },
        }
    }
    if closed && line.current_index - start > 2 {
        let literal = LiteralValue { llc_type: Type::String, value: lit };
        Some(
            Token::new(TokenKind::Literal(literal), line.number + 1, start + 1, line.current_index - 2),
        )
    } else {
        line.current_index = start;
        None
    }
}

/// Reads a numeric literal under the cursor. Declines, with the cursor
/// where it was, where no digit stands there. At a second decimal point it
/// gives the literal up: the cursor stays behind that point, and an error
/// is added to `errors`.
pub fn build_literal_num(line: &mut FileLine, errors: &mut Vec<SyntaxError>) -> (literal: Option<
    Token,
>)
    requires
        old(line).wf(),
    ensures
        final(line).wf(),
        literal_outcome(
            spec_build_literal_num(
                old(line).content@,
                old(line).current_index as int,
                old(line).number,
            ),
            literal,
            *old(line),
            *final(line),
            old(errors)@,
            final(errors)@,
        ),
{
    let start = line.current_index;
    let mut lit = String::new();
    let mut count: usize = 0;
    let mut has_decimal = false;
    let mut has_digit = false;
    let ghost whole = number_scan(line.content@, start as int, Seq::empty(), false, false);
    loop
        invariant
            line.wf(),
            line.number == old(line).number,
            line.content == old(line).content,
            start == old(line).current_index,
            start <= line.current_index <= line.content.len(),
            *errors == *old(errors),
            count == lit@.len(),
            count <= line.current_index - start,
            whole == number_scan(line.content@, start as int, Seq::empty(), false, false),
            whole == number_scan(
                line.content@,
                line.current_index as int,
                lit@,
                has_decimal,
                has_digit,
            ),
        ensures
            !whole.failed,
            whole.end == line.current_index,
            whole.text == lit@,
            whole.float == has_decimal,
            whole.digits == has_digit,
        decreases line.content.len() - line.current_index,
    {
        match line.get_next() {
            Some(c) => {
                if c == '.' {
                    if has_decimal {
                        let place = FilePosition::new(line.number, line.current_index + 1);
                        let ghost before = error_models(errors@);
                        errors.push(
                            SyntaxError {
                                position: FileSpan::new(place, place),
                                reason: String::from_str(
                                    "floating point literal cannot contain more than one decimal point",
                                ),
                            },
                        );
                        assert(error_models(errors@) =~= before.push(
                            SyntaxErrorModel {
                                position: FileSpan { begin: place, end: place },
                                reason: second_point_reason(),
                            },
                        ));
                        return None;
                    }
                    has_decimal = true;
                    push_char(&mut lit, c);
                    count += 1;
                } else if c == '_' {
                } else if is_numeric(c) {
                    has_digit = true;
                    push_char(&mut lit, c);
                    count += 1;
                } else {
                    line.backtrack(1);
                    break ;
                }
            },
            None => {
                break ;
            },
        }
    }
    if has_digit {
        let llc_type = if has_decimal {
            Type::Float { signed: true, size: 32 }
        } else {
            Type::Integer { signed: true, size: 32 }
        };
        let literal = LiteralValue { llc_type, value: lit };
        Some(Token::new(TokenKind::Literal(literal), line.number + 1, start + 1, start + count))
    } else {
        line.current_index = start;
        None
    }
}

/// Reads a literal under the cursor: a string literal, or else a numeric
/// one.
pub fn build_literal(line: &mut FileLine, errors: &mut Vec<SyntaxError>) -> (literal: Option<Token>)
    requires
        old(line).wf(),
    ensures
        final(line).wf(),
        literal_outcome(
            spec_build_literal(
                old(line).content@,
                old(line).current_index as int,
                old(line).number,
            ),
            literal,
            *old(line),
            *final(line),
            old(errors)@,
            final(errors)@,
        ),
{
    if let Some(token) = build_literal_str(line) {
        return Some(token);
    }
    build_literal_num(line, errors)
}

} // verus!
