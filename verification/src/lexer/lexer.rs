use vstd::prelude::*;
use vstd::string::StringExecFns;
use crate::common::identifier::{
    identifier_models,
    lemma_intern_keeps_distinct,
    names_distinct,
    Identifier,
    IdentifierModel,
};
use crate::common::position::FileSpan;
use crate::common::syntax_error::{error_models, SyntaxError, SyntaxErrorModel};
use crate::common::text::{char_to_string, is_whitespace, whitespace};
use crate::lexer::file_stream::{line_texts, split_lines, FileLine, FileStream};
use crate::lexer::identifier_builder::{
    build_identifier,
    lemma_word_end_bounds,
    spec_build_identifier,
    table_after_word,
    word_at,
    word_end,
};
use crate::lexer::literal_builder::{
    build_literal,
    lemma_number_scan_bounds,
    lemma_quote_end_bounds,
    spec_build_literal,
    LiteralScan,
};
use crate::lexer::operator_builder::{
    build_operator,
    operator_end,
    operator_tokens,
    spec_get_operator,
    OperatorScan,
};
use crate::lexer::token::{token_models, Token, TokenKind, TokenKindModel, TokenModel};
use crate::lexer::token_stream::TokenStream;

verus! {

/// What scanning a file gives: its tokens, the identifier table they
/// refer to, and the lexical errors.
#[derive(Debug)]
pub struct LexedFile {
    pub file_name: String,
    pub stream: TokenStream,
    pub errors: Vec<SyntaxError>,
    pub identifiers: Vec<Identifier>,
}

/// What a scan has gathered: tokens, identifier table, errors.
pub struct LexModel {
    pub tokens: Seq<TokenModel>,
    pub identifiers: Seq<IdentifierModel>,
    pub errors: Seq<SyntaxErrorModel>,
}

impl View for LexedFile {
    type V = LexModel;

    open spec fn view(&self) -> LexModel {
        LexModel {
            tokens: token_models(self.stream.tokens@),
            identifiers: identifier_models(self.identifiers@),
            errors: error_models(self.errors@),
        }
    }
}

/// Whether `token` may stand in a scan before its end, beside a table of
/// `table_len` identifiers: it is no end-of-file token, its kind has a
/// written form, and where it is an identifier its index is one of the
/// table.
pub open spec fn token_in_table(token: TokenModel, table_len: nat) -> bool {
    &&& !(token.kind is EOF)
    &&& token.kind.printable()
    &&& token.kind matches TokenKindModel::Identifier { index } ==> index < table_len
}

/// The characters that the span covers in the lines of a file, for a span
/// within one row: those of the row's line from the first column to the
/// last. An identifier's row is the index of its line, and columns count
/// from one.
pub open spec fn spelling(lines: Seq<Seq<char>>, position: FileSpan) -> Seq<char> {
    lines[position.begin.row as int].subrange(position.begin.col - 1, position.end.col as int)
}

/// Whether `token`, where it is an identifier, carries the index of the
/// entry of the table that is named as the token is spelled in `lines`.
pub open spec fn token_spelled(
    token: TokenModel,
    identifiers: Seq<IdentifierModel>,
    lines: Seq<Seq<char>>,
) -> bool {
    token.kind matches TokenKindModel::Identifier { index } ==> {
        &&& index < identifiers.len()
        &&& token.position.begin.row < lines.len()
        &&& identifiers[index as int].name == spelling(lines, token.position)
    }
}

impl LexModel {
    /// The scan that has gathered nothing yet.
    pub open spec fn empty() -> LexModel {
        LexModel { tokens: Seq::empty(), identifiers: Seq::empty(), errors: Seq::empty() }
    }

    /// What holds of a scan of `lines` at every step: no name stands twice
    /// in the table, every token may stand beside the table, and every
    /// identifier token carries the index of the entry that is named as
    /// the token is spelled.
    pub open spec fn sound(self, lines: Seq<Seq<char>>) -> bool {
        &&& names_distinct(self.identifiers)
        &&& forall|i: int|
            0 <= i < self.tokens.len() ==> token_in_table(
                #[trigger] self.tokens[i],
                self.identifiers.len(),
            ) && token_spelled(self.tokens[i], self.identifiers, lines)
    }

    /// What holds of a finished scan of `lines`: the tokens end in the
    /// end-of-file token, which stands nowhere else; no name stands twice
    /// in the table; every identifier token carries the index of the entry
    /// that is named as the token is spelled; and every token has a
    /// written form.
    pub open spec fn complete(self, lines: Seq<Seq<char>>) -> bool {
        &&& self.tokens.len() > 0
        &&& self.tokens.last().kind is EOF
        &&& names_distinct(self.identifiers)
        &&& forall|i: int|
            0 <= i < self.tokens.len() - 1 ==> token_in_table(
                #[trigger] self.tokens[i],
                self.identifiers.len(),
            ) && token_spelled(self.tokens[i], self.identifiers, lines)
    }
}

/// In a finished scan, two identifier tokens that are spelled alike carry
/// the same index.
pub proof fn lemma_same_spelling_same_index(
    scan: LexModel,
    lines: Seq<Seq<char>>,
    first: int,
    second: int,
)
    requires
        scan.complete(lines),
        0 <= first < scan.tokens.len(),
        0 <= second < scan.tokens.len(),
        scan.tokens[first].kind is Identifier,
        scan.tokens[second].kind is Identifier,
        spelling(lines, scan.tokens[first].position) == spelling(
            lines,
            scan.tokens[second].position,
        ),
    ensures
        scan.tokens[first].kind == scan.tokens[second].kind,
{
    let a = scan.tokens[first].kind->Identifier_index;
    let b = scan.tokens[second].kind->Identifier_index;
    assert(token_spelled(scan.tokens[first], scan.identifiers, lines));
    assert(token_spelled(scan.tokens[second], scan.identifiers, lines));
    assert(scan.identifiers[a as int].name == scan.identifiers[b as int].name);
}

/// Whether a comment starts at `pos`: two `/` in a row.
pub open spec fn comment_at(content: Seq<char>, pos: int) -> bool {
    0 <= pos && pos + 1 < content.len() && content[pos] == '/' && content[pos + 1] == '/'
}

/// The index of the first character at or after `pos` that is no white
/// space, or the length of the line where there is none.
pub open spec fn whitespace_end(content: Seq<char>, pos: int) -> int
    decreases content.len() - pos,
{
    if pos < 0 || pos >= content.len() {
        pos
    } else if whitespace(content[pos]) {
        whitespace_end(content, pos + 1)
    } else {
        pos
    }
}

/// The kind of the punctuation mark `c`, if it is one.
pub open spec fn punctuation(c: char) -> Option<TokenKindModel> {
    if c == '{' {
        Some(TokenKindModel::OpenCurly)
    } else if c == '}' {
        Some(TokenKindModel::CloseCurly)
    } else if c == '(' {
        Some(TokenKindModel::OpenParen)
    } else if c == ')' {
        Some(TokenKindModel::CloseParen)
    } else if c == ',' {
        Some(TokenKindModel::Comma)
    } else if c == ';' {
        Some(TokenKindModel::EOI)
    } else {
        None
    }
}

/// The token for the punctuation mark at `pos` on the line `number`, if
/// one stands there. Rows count from one, and so do columns.
pub open spec fn spec_build_single_char_token(content: Seq<char>, pos: int, number: usize)
    -> Option<TokenModel> {
    if 0 <= pos < content.len() {
        match punctuation(content[pos]) {
            Some(kind) => Some(
                TokenModel::on_row(kind, (number + 1) as usize, (pos + 1) as usize, (pos + 1) as usize),
            ),
            None => None,
        }
    } else {
        None
    }
}

/// The token that marks the character at `pos` as one that starts nothing
/// the language knows. Its row is the line's number.
pub open spec fn undefined_token(content: Seq<char>, pos: int, number: usize) -> TokenModel {
    TokenModel::on_row(
        TokenKindModel::Undefined(seq![content[pos]]),
        number,
        (pos + 1) as usize,
        (pos + 1) as usize,
    )
}

/// The error that goes with an undefined token: it shows the token.
pub open spec fn undefined_error(token: TokenModel) -> SyntaxErrorModel {
    SyntaxErrorModel::from_token(token, Some("Undefined token. "@ + token.text()))
}

/// One step of a scan: where the cursor stands after it, and what the scan
/// has gathered then.
pub struct ScanStep {
    pub end: int,
    pub state: LexModel,
}

/// The step of the scan at `pos`, which holds a character. The first of
/// these that applies is taken: a comment, which ends the line; white
/// space, which is passed over; operators; a literal, found or failed; a
/// keyword or an identifier; a punctuation mark. Where none applies, the
/// character is passed over and recorded as an undefined token and an
/// error.
pub open spec fn scan_step(content: Seq<char>, number: usize, pos: int, state: LexModel)
    -> ScanStep {
    if comment_at(content, pos) {
        ScanStep { end: content.len() as int, state }
    } else if whitespace(content[pos]) {
        ScanStep { end: whitespace_end(content, pos), state }
    } else if spec_get_operator(content, pos) != OperatorScan::Nothing {
        let end = operator_end(content, pos);
        ScanStep {
            end,
            state: LexModel {
                tokens: state.tokens + operator_tokens(
                    spec_get_operator(content, pos),
                    number,
                    end,
                ),
                ..state
            },
        }
    } else {
        match spec_build_literal(content, pos, number) {
            LiteralScan::Found { token, end } => ScanStep {
                end,
                state: LexModel { tokens: state.tokens.push(token), ..state },
            },
            LiteralScan::Failed { error, end } => ScanStep {
                end,
                state: LexModel { errors: state.errors.push(error), ..state },
            },
            LiteralScan::Declined => match spec_build_identifier(
                content,
                pos,
                number,
                state.identifiers,
            ) {
                Some(token) => ScanStep {
                    end: word_end(content, pos),
                    state: LexModel {
                        tokens: state.tokens.push(token),
                        identifiers: table_after_word(content, pos, state.identifiers),
                        ..state
                    },
                },
                None => match spec_build_single_char_token(content, pos, number) {
                    Some(token) => ScanStep {
                        end: pos + 1,
                        state: LexModel { tokens: state.tokens.push(token), ..state },
                    },
                    None => ScanStep {
                        end: pos + 1,
                        state: LexModel {
                            tokens: state.tokens.push(undefined_token(content, pos, number)),
                            errors: state.errors.push(
                                undefined_error(undefined_token(content, pos, number)),
                            ),
                            ..state
                        },
                    },
                },
            },
        }
    }
}

/// White space is passed over forwards only, and within the line.
pub proof fn lemma_whitespace_end_bounds(content: Seq<char>, pos: int)
    requires
        0 <= pos <= content.len(),
    ensures
        pos <= whitespace_end(content, pos) <= content.len(),
    decreases content.len() - pos,
{
    if pos < content.len() && whitespace(content[pos]) {
        lemma_whitespace_end_bounds(content, pos + 1);
    }
}

/// Every step of a scan reads at least one character, stays within the
/// line, and gathers no more tokens than it reads characters.
pub proof fn lemma_scan_step_advances(content: Seq<char>, number: usize, pos: int, state: LexModel)
    requires
        0 <= pos < content.len(),
    ensures
        pos < scan_step(content, number, pos, state).end <= content.len(),
        scan_step(content, number, pos, state).state.tokens.len() <= state.tokens.len()
            + scan_step(content, number, pos, state).end - pos,
{
    lemma_whitespace_end_bounds(content, pos + 1);
    lemma_quote_end_bounds(content, pos + 1);
    lemma_number_scan_bounds(content, pos, Seq::empty(), false, false);
    lemma_word_end_bounds(content, pos);
}

/// A step of the scan of a line of `lines` keeps a sound scan sound, as
/// long as the line and the identifier table are short enough for every
/// column and every index to be a `usize`.
pub proof fn lemma_scan_step_keeps_sound(
    content: Seq<char>,
    number: usize,
    pos: int,
    state: LexModel,
    lines: Seq<Seq<char>>,
)
    requires
        0 <= pos < content.len() <= usize::MAX,
        number < lines.len(),
        lines[number as int] == content,
        state.sound(lines),
        scan_step(content, number, pos, state).state.identifiers.len() <= usize::MAX,
    ensures
        scan_step(content, number, pos, state).state.sound(lines),
{
    let after = scan_step(content, number, pos, state).state;
    lemma_intern_keeps_distinct(state.identifiers, word_at(content, pos));
    lemma_word_end_bounds(content, pos);
    assert forall|i: int| 0 <= i < after.tokens.len() implies token_in_table(
        #[trigger] after.tokens[i],
        after.identifiers.len(),
    ) && token_spelled(after.tokens[i], after.identifiers, lines) by {
        if i < state.tokens.len() {
            assert(after.tokens[i] == state.tokens[i]);
            assert(token_in_table(state.tokens[i], state.identifiers.len()));
            assert(token_spelled(state.tokens[i], state.identifiers, lines));
        }
    }
}

/// The scan of a line from `pos` to its end, step by step.
pub open spec fn scan_line(content: Seq<char>, number: usize, pos: int, state: LexModel)
    -> LexModel
    decreases content.len() - pos,
{
    if pos < 0 || pos >= content.len() {
        state
    } else {
        proof {
            lemma_scan_step_advances(content, number, pos, state);
        }
        let step = scan_step(content, number, pos, state);
        scan_line(content, number, step.end, step.state)
    }
}

/// The scan of the first `upto` lines, each from its start, the line at
/// index `i` under the number `i`.
pub open spec fn scan_lines(lines: Seq<Seq<char>>, upto: nat) -> LexModel
    decreases upto,
{
    if upto == 0 {
        LexModel::empty()
    } else {
        scan_line(
            lines[upto - 1],
            (upto - 1) as usize,
            0,
            scan_lines(lines, (upto - 1) as nat),
        )
    }
}

/// The number of characters in the first `upto` lines.
pub open spec fn total_length(lines: Seq<Seq<char>>, upto: nat) -> nat
    decreases upto,
{
    if upto == 0 || upto > lines.len() {
        0
    } else {
        total_length(lines, (upto - 1) as nat) + lines[upto - 1].len()
    }
}

/// The number of characters in the first lines of a file depends on those
/// lines alone.
pub proof fn lemma_total_length_of_prefix(
    first: Seq<Seq<char>>,
    second: Seq<Seq<char>>,
    upto: nat,
)
    requires
        upto <= first.len(),
        upto <= second.len(),
        forall|i: int| 0 <= i < upto ==> first[i] == second[i],
    ensures
        total_length(first, upto) == total_length(second, upto),
    decreases upto,
{
    if upto > 0 {
        lemma_total_length_of_prefix(first, second, (upto - 1) as nat);
    }
}

/// The lines of a text hold all its characters but the line breaks, of
/// which there is one between each two lines.
pub proof fn lemma_split_lines_length(text: Seq<char>)
    ensures
        split_lines(text).len() > 0,
        total_length(split_lines(text), split_lines(text).len()) + split_lines(text).len()
            == text.len() + 1,
    decreases text.len(),
{
    let lines = split_lines(text);
    if text.len() == 0 {
        assert(total_length(lines, 0) == 0);
        assert(total_length(lines, 1) == total_length(lines, 0) + lines[0].len());
    } else {
        let before = split_lines(text.drop_last());
        let count = before.len();
        lemma_split_lines_length(text.drop_last());
        if text.last() == '\n' {
            lemma_total_length_of_prefix(lines, before, count);
            assert(total_length(lines, count + 1) == total_length(lines, count)
                + lines[count as int].len());
        } else {
            lemma_total_length_of_prefix(lines, before, (count - 1) as nat);
            assert(total_length(lines, count) == total_length(lines, (count - 1) as nat)
                + lines[count - 1].len());
            assert(total_length(before, count) == total_length(before, (count - 1) as nat)
                + before[count - 1].len());
        }
    }
}

/// The end-of-file token of a file with these lines: its row is the number
/// of lines, its column the one behind the last character of the last
/// line.
pub open spec fn end_of_file_token(lines: Seq<Seq<char>>) -> TokenModel {
    TokenModel::on_row(
        TokenKindModel::EOF,
        lines.len() as usize,
        (lines.last().len() + 1) as usize,
        (lines.last().len() + 1) as usize,
    )
}

/// The scan of a whole text: its lines one after the other, then the
/// end-of-file token.
pub open spec fn spec_get_tokens(text: Seq<char>) -> LexModel {
    let lines = split_lines(text);
    let scanned = scan_lines(lines, lines.len());
    LexModel { tokens: scanned.tokens.push(end_of_file_token(lines)), ..scanned }
}

/// Reads a comment under the cursor: from two `/` in a row to the end of
/// the line. Declines, with the cursor where it was, where none starts
/// there.
pub fn is_comment_line(line: &mut FileLine) -> (comment: bool)
    requires
        old(line).wf(),
    ensures
        final(line).wf(),
        final(line).number == old(line).number,
        final(line).content == old(line).content,
        comment == comment_at(old(line).content@, old(line).current_index as int),
        final(line).current_index == if comment {
            old(line).content.len()
        } else {
            old(line).current_index
        },
{
    let start = line.current_index;
    let first = match line.get_next() {
        None => false,
        Some(c) => c == '/',
    };
    let second = match line.get_next() {
        None => false,
        Some(c) => c == '/',
    };
    if !(first && second) {
        line.current_index = start;
        return false;
    }
    loop
        invariant
            line.wf(),
            line.number == old(line).number,
            line.content == old(line).content,
        ensures
            line.current_index == line.content.len(),
        decreases line.content.len() - line.current_index,
    {
        match line.get_next() {
            Some(_) => {},
            None => {
                break ;
            },
        }
    }
    true
}

/// Passes over the white space under the cursor. Returns whether there was
/// any.
pub fn eat_white_spaces(line: &mut FileLine) -> (eaten: bool)
    requires
        old(line).wf(),
    ensures
        final(line).wf(),
        final(line).number == old(line).number,
        final(line).content == old(line).content,
        final(line).current_index == whitespace_end(
            old(line).content@,
            old(line).current_index as int,
        ),
        eaten == (final(line).current_index > old(line).current_index),
    decreases old(line).content.len() - old(line).current_index,
{
    match line.get_next() {
        Some(c) => {
            if !is_whitespace(c) {
                line.backtrack(1);
                return false;
            }
            proof {
                lemma_whitespace_end_bounds(line.content@, line.current_index as int);
            }
            eat_white_spaces(line);
            true
        },
        None => false,
    }
}

/// Reads a punctuation mark under the cursor. Declines, with the cursor
/// where it was, where none stands there.
pub fn build_single_char_token(line: &mut FileLine) -> (token: Option<Token>)
    requires
        old(line).wf(),
    ensures
        final(line).wf(),
        final(line).number == old(line).number,
        final(line).content == old(line).content,
        token is Some <==> spec_build_single_char_token(
            old(line).content@,
            old(line).current_index as int,
            old(line).number,
        ) is Some,
        token matches Some(found) ==> Some(found@) == spec_build_single_char_token(
            old(line).content@,
            old(line).current_index as int,
            old(line).number,
        ),
        final(line).current_index == if token is Some {
            old(line).current_index + 1
        } else {
            old(line).current_index as int
        },
{
    if let Some(c) = line.get_next() {
        let kind = if c == '{' {
            TokenKind::OpenCurly
        } else if c == '}' {
            TokenKind::CloseCurly
        } else if c == '(' {
            TokenKind::OpenParen
        } else if c == ')' {
            TokenKind::CloseParen
        } else if c == ',' {
            TokenKind::Comma
        } else if c == ';' {
            TokenKind::EOI
        } else {
            line.backtrack(1);
            return None;
        };
        return Some(Token::single_char(kind, line.number + 1, line.current_index));
    }
    None
}

/// What a scan holds in its three vectors.
pub open spec fn gathered(
    tokens: Seq<Token>,
    identifiers: Seq<Identifier>,
    errors: Seq<SyntaxError>,
) -> LexModel {
    LexModel {
        tokens: token_models(tokens),
        identifiers: identifier_models(identifiers),
        errors: error_models(errors),
    }
}

/// Makes one step of the scan at the cursor, which stands on a character.
pub fn scan_next(
    line: &mut FileLine,
    tokens: &mut Vec<Token>,
    identifiers: &mut Vec<Identifier>,
    errors: &mut Vec<SyntaxError>,
)
    requires
        old(line).wf(),
        old(line).current_index < old(line).content.len(),
    ensures
        final(line).wf(),
        final(line).number == old(line).number,
        final(line).content == old(line).content,
        (ScanStep {
            end: final(line).current_index as int,
            state: gathered(final(tokens)@, final(identifiers)@, final(errors)@),
        }) == scan_step(
            old(line).content@,
            old(line).number,
            old(line).current_index as int,
            gathered(old(tokens)@, old(identifiers)@, old(errors)@),
        ),
        forall|lines: Seq<Seq<char>>|
            old(line).number < lines.len() && lines[old(line).number as int] == old(line).content@ && #[trigger] gathered(
                old(tokens)@,
                old(identifiers)@,
                old(errors)@,
            ).sound(lines) ==> gathered(final(tokens)@, final(identifiers)@, final(errors)@).sound(
                lines,
            ),
        final(line).current_index > old(line).current_index,
        final(tokens)@.len() <= old(tokens)@.len() + final(line).current_index - old(line).current_index,
{
    let ghost content = line.content@;
    let ghost pos = line.current_index as int;
    let ghost before = gathered(tokens@, identifiers@, errors@);
    let ghost count = tokens@.len();
    step_at_cursor(line, tokens, identifiers, errors);
    let entries = identifiers.len();
    proof {
        lemma_scan_step_advances(content, line.number, pos, before);
        assert(token_models(tokens@).len() == tokens@.len());
        assert(before.tokens.len() == count);
        assert forall|lines: Seq<Seq<char>>|
            line.number < lines.len() && lines[line.number as int] == content
                && #[trigger] before.sound(lines) implies gathered(
            tokens@,
            identifiers@,
            errors@,
        ).sound(lines) by {
            assert(identifier_models(identifiers@).len() == entries);
            lemma_scan_step_keeps_sound(content, line.number, pos, before, lines);
        }
    }
}

/// Makes one step of the scan at the cursor, which stands on a character.
fn step_at_cursor(
    line: &mut FileLine,
    tokens: &mut Vec<Token>,
    identifiers: &mut Vec<Identifier>,
    errors: &mut Vec<SyntaxError>,
)
    requires
        old(line).wf(),
        old(line).current_index < old(line).content.len(),
    ensures
        final(line).wf(),
        final(line).number == old(line).number,
        final(line).content == old(line).content,
        (ScanStep {
            end: final(line).current_index as int,
            state: gathered(final(tokens)@, final(identifiers)@, final(errors)@),
        }) == scan_step(
            old(line).content@,
            old(line).number,
            old(line).current_index as int,
            gathered(old(tokens)@, old(identifiers)@, old(errors)@),
        ),
{
    let ghost content = line.content@;
    let ghost pos = line.current_index as int;
    let ghost before = gathered(tokens@, identifiers@, errors@);
    proof {
        lemma_whitespace_end_bounds(content, pos + 1);
        lemma_number_scan_bounds(content, pos, Seq::empty(), false, false);
        lemma_quote_end_bounds(content, pos + 1);
        lemma_word_end_bounds(content, pos);
    }
    if is_comment_line(line) {
        return ;
    }
    if eat_white_spaces(line) {
        return ;
    }
    if let Some(mut operators) = build_operator(line) {
        tokens.append(&mut operators);
        assert(token_models(tokens@) =~= before.tokens + operator_tokens(
            spec_get_operator(content, pos),
            line.number,
            line.current_index as int,
        ));
        return ;
    }
    let start = line.current_index;
    match build_literal(line, errors) {
        Some(token) => {
            tokens.push(token);
            assert(token_models(tokens@) =~= before.tokens.push(token@));
            return ;
        },
        None => {
            if line.current_index != start {
                return ;
            }
        },
    }
    if let Some(token) = build_identifier(line, identifiers) {
        tokens.push(token);
        assert(token_models(tokens@) =~= before.tokens.push(token@));
        return ;
    }
    if let Some(token) = build_single_char_token(line) {
        tokens.push(token);
        assert(token_models(tokens@) =~= before.tokens.push(token@));
        return ;
    }
    if let Some(c) = line.get_next() {
        let token = Token::single_char(
            TokenKind::Undefined(char_to_string(c)),
            line.number,
            line.current_index,
        );
        let mut reason = String::from_str("Undefined token. ");
        reason.append(token.to_string().as_str());
        let error = SyntaxError::from_token(&token, Some(reason.as_str()));
        tokens.push(token);
        errors.push(error);
        assert(token_models(tokens@) =~= before.tokens.push(token@));
        assert(error_models(errors@) =~= before.errors.push(error@));
    }
}

/// Scans the rest of the line, from the cursor to the end.
pub fn scan_rest_of_line(
    line: &mut FileLine,
    tokens: &mut Vec<Token>,
    identifiers: &mut Vec<Identifier>,
    errors: &mut Vec<SyntaxError>,
)
    requires
        old(line).wf(),
    ensures
        final(line).wf(),
        final(line).number == old(line).number,
        final(line).content == old(line).content,
        final(line).current_index == old(line).content.len(),
        gathered(final(tokens)@, final(identifiers)@, final(errors)@) == scan_line(
            old(line).content@,
            old(line).number,
            old(line).current_index as int,
            gathered(old(tokens)@, old(identifiers)@, old(errors)@),
        ),
        forall|lines: Seq<Seq<char>>|
            old(line).number < lines.len() && lines[old(line).number as int] == old(line).content@ && #[trigger] gathered(
                old(tokens)@,
                old(identifiers)@,
                old(errors)@,
            ).sound(lines) ==> gathered(final(tokens)@, final(identifiers)@, final(errors)@).sound(
                lines,
            ),
        final(tokens)@.len() <= old(tokens)@.len() + old(line).content.len() - old(line).current_index,
{
    while line.can_read()
        invariant
            line.wf(),
            old(line).current_index <= line.current_index,
            tokens@.len() <= old(tokens)@.len() + line.current_index - old(line).current_index,
            forall|lines: Seq<Seq<char>>|
                line.number < lines.len() && lines[line.number as int] == line.content@
                    && #[trigger] gathered(
                    old(tokens)@,
                    old(identifiers)@,
                    old(errors)@,
                ).sound(lines) ==> gathered(tokens@, identifiers@, errors@).sound(lines),
            line.number == old(line).number,
            line.content == old(line).content,
            scan_line(
                line.content@,
                line.number,
                line.current_index as int,
                gathered(tokens@, identifiers@, errors@),
            ) == scan_line(
                old(line).content@,
                old(line).number,
                old(line).current_index as int,
                gathered(old(tokens)@, old(identifiers)@, old(errors)@),
            ),
        decreases line.content.len() - line.current_index,
    {
        proof {
            lemma_scan_step_advances(
                line.content@,
                line.number,
                line.current_index as int,
                gathered(tokens@, identifiers@, errors@),
            );
        }
        scan_next(line, tokens, identifiers, errors);
    }
}

/// Scans `content`, the text of the file `file_name`: line after line,
/// from the first character to the last, and then the end-of-file token.
/// Every character is read, whatever errors are met.
pub fn get_tokens(file_name: &str, content: &str) -> (lexed: LexedFile)
    requires
        content@.len() < usize::MAX,
    ensures
        lexed@ == spec_get_tokens(content@),
        lexed@.complete(split_lines(content@)),
        lexed.file_name@ == file_name@,
        lexed.stream.cursor() == 0,
        lexed.stream.ends_in_eof(),
        lexed@.tokens.len() <= content@.len() + 1,
{
    let mut file = FileStream::new(content);
    let mut tokens: Vec<Token> = Vec::new();
    let mut identifiers: Vec<Identifier> = Vec::new();
    let mut errors: Vec<SyntaxError> = Vec::new();
    let mut last_row: usize = 0;
    let mut last_col: usize = 0;
    let ghost lines = split_lines(content@);
    assert(gathered(tokens@, identifiers@, errors@) == LexModel::empty()) by {
        assert(token_models(tokens@) =~= Seq::empty());
        assert(identifier_models(identifiers@) =~= Seq::empty());
        assert(error_models(errors@) =~= Seq::empty());
    }
    loop
        invariant
            file.wf(),
            lines == split_lines(content@),
            line_texts(file.lines()) == lines,
            file.cursor() <= lines.len(),
            forall|i: int|
                file.cursor() <= i < file.lines().len() ==> (#[trigger] file.lines()[i]).current_index
                    == 0,
            gathered(tokens@, identifiers@, errors@) == scan_lines(lines, file.cursor()),
            gathered(tokens@, identifiers@, errors@).sound(lines),
            tokens@.len() <= total_length(lines, file.cursor()),
            file.cursor() > 0 ==> last_row == file.cursor() && last_col == lines[file.cursor() - 1].len()
                + 1,
        ensures
            file.cursor() == lines.len(),
            lines.len() > 0,
            gathered(tokens@, identifiers@, errors@) == scan_lines(lines, lines.len()),
            gathered(tokens@, identifiers@, errors@).sound(lines),
            tokens@.len() <= total_length(lines, lines.len()),
            last_row == lines.len(),
            last_col == lines.last().len() + 1,
        decreases lines.len() - file.cursor(),
    {
        let ghost at = file.cursor() as int;
        let ghost before = file.lines();
        assert(line_texts(before).len() == before.len());
        match file.get_next() {
            Some(line) => {
                assert(line.content@ == lines[at]) by {
                    assert(line_texts(before)[at] == before[at].content@);
                }
                scan_rest_of_line(line, &mut tokens, &mut identifiers, &mut errors);
                last_row = line.number + 1;
                last_col = line.current_index + 1;
            },
            None => {
                proof {
                    lemma_split_lines_length(content@);
                }
                break ;
            },
        }
        assert(line_texts(file.lines()) =~= lines);
    }
    proof {
        lemma_split_lines_length(content@);
    }
    tokens.push(Token::single_char(TokenKind::EOF, last_row, last_col));
    assert(token_models(tokens@) =~= scan_lines(lines, lines.len()).tokens.push(
        end_of_file_token(lines),
    ));
    LexedFile {
        file_name: String::from_str(file_name),
        stream: TokenStream::new(tokens),
        errors,
        identifiers,
    }
}

} // verus!
