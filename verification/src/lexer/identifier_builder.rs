use vstd::prelude::*;
use crate::common::identifier::{
    identifier_models,
    intern,
    interned_index,
    interned_table,
    Identifier,
    IdentifierModel,
};
use crate::common::keyword::{parse_keyword, spec_parse_keyword};
use crate::common::text::{alphabetic, is_alphabetic, push_char};
use crate::lexer::file_stream::FileLine;
use crate::lexer::token::{Token, TokenKind, TokenKindModel, TokenModel};

verus! {

/// Whether `c` may stand in a word: a letter or `_`.
pub open spec fn word_char(c: char) -> bool {
    alphabetic(c) || c == '_'
}

/// The index of the first character at or after `pos` that may not stand
/// in a word, or the length of the line where there is none.
pub open spec fn word_end(content: Seq<char>, pos: int) -> int
    decreases content.len() - pos,
{
    if pos < 0 || pos >= content.len() {
        pos
    } else if word_char(content[pos]) {
        word_end(content, pos + 1)
    } else {
        pos
    }
}

/// The word that starts at `pos`: the longest run of word characters.
pub open spec fn word_at(content: Seq<char>, pos: int) -> Seq<char> {
    content.subrange(pos, word_end(content, pos))
}

/// The token for the word at `pos` on the line `number`, if a word stands
/// there: a keyword where the word is one, else an identifier under the
/// index that interning the word in `table` gives. Its span is the word's
/// columns; its row is the line's number.
pub open spec fn spec_build_identifier(
    content: Seq<char>,
    pos: int,
    number: usize,
    table: Seq<IdentifierModel>,
) -> Option<TokenModel> {
    let end = word_end(content, pos);
    let word = word_at(content, pos);
    if end <= pos {
        None
    } else {
        Some(
            TokenModel::on_row(
                match spec_parse_keyword(word) {
                    Some(keyword) => TokenKindModel::Keyword(keyword),
                    None => TokenKindModel::Identifier {
                        index: interned_index(table, word) as usize,
                    },
                },
                number,
                (pos + 1) as usize,
                end as usize,
            ),
        )
    }
}

/// The identifier table after the word at `pos` was read: with the word
/// interned where it is an identifier, else as it was.
pub open spec fn table_after_word(content: Seq<char>, pos: int, table: Seq<IdentifierModel>)
    -> Seq<IdentifierModel> {
    let word = word_at(content, pos);
    if word_end(content, pos) <= pos || spec_parse_keyword(word) is Some {
        table
    } else {
        interned_table(table, word)
    }
}

/// A word is read forwards only, and within the line.
pub proof fn lemma_word_end_bounds(content: Seq<char>, pos: int)
    requires
        0 <= pos <= content.len(),
    ensures
        pos <= word_end(content, pos) <= content.len(),
    decreases content.len() - pos,
{
    if pos < content.len() && word_char(content[pos]) {
        lemma_word_end_bounds(content, pos + 1);
    }
}

/// Reads the word under the cursor as a keyword or as an identifier, which
/// it interns in `identifiers`. Declines, with the cursor and the table as
/// they were, where no word stands there.
pub fn build_identifier(line: &mut FileLine, identifiers: &mut Vec<Identifier>) -> (token: Option<
    Token,
>)
    requires
        old(line).wf(),
    ensures
        final(line).wf(),
        final(line).number == old(line).number,
        final(line).content == old(line).content,
        final(line).current_index == word_end(old(line).content@, old(line).current_index as int),
        token is Some <==> spec_build_identifier(
            old(line).content@,
            old(line).current_index as int,
            old(line).number,
            identifier_models(old(identifiers)@),
        ) is Some,
        token matches Some(found) ==> Some(found@) == spec_build_identifier(
            old(line).content@,
            old(line).current_index as int,
            old(line).number,
            identifier_models(old(identifiers)@),
        ),
        identifier_models(final(identifiers)@) == table_after_word(
            old(line).content@,
            old(line).current_index as int,
            identifier_models(old(identifiers)@),
        ),
{
    let start = line.current_index;
    let mut word = String::new();
    loop
        invariant
            line.wf(),
            line.number == old(line).number,
            line.content == old(line).content,
            start == old(line).current_index,
            start <= line.current_index <= line.content.len(),
            word@ == line.content@.subrange(start as int, line.current_index as int),
            word_end(line.content@, start as int) == word_end(
                line.content@,
                line.current_index as int,
            ),
        ensures
            line.current_index == word_end(line.content@, start as int),
        decreases line.content.len() - line.current_index,
    {
        match line.get_next() {
            Some(c) => {
                if is_alphabetic(c) || c == '_' {
                    push_char(&mut word, c);
                    assert(word@ =~= line.content@.subrange(
                        start as int,
                        line.current_index as int,
                    ));
                } else {
                    line.backtrack(1);
                    break ;
                }
            },
            None => {
                break ;
            },
        }
    }
    if line.current_index == start {
        return None;
    }
    if let Some(keyword) = parse_keyword(word.as_str()) {
        return Some(
            Token::new(TokenKind::Keyword(keyword), line.number, start + 1, line.current_index),
        );
    }
    let index = intern(identifiers, word.as_str());
    Some(Token::new(TokenKind::Identifier { index }, line.number, start + 1, line.current_index))
}

} // verus!
