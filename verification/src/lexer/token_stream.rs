use vstd::prelude::*;
use crate::lexer::token::Token;

verus! {

/// A sequence of tokens with a read cursor, which moves forwards only.
/// Behind the last token every place holds the end-of-file token.
#[derive(Debug)]
pub struct TokenStream {
    pub tokens: Vec<Token>,
    pub current_index: usize,
}

impl TokenStream {
    /// The index of the token that is read next.
    pub open spec fn cursor(&self) -> int {
        self.current_index as int
    }

    /// Whether the sequence ends in the end-of-file token.
    pub open spec fn ends_in_eof(&self) -> bool {
        self.tokens.len() > 0 && self.tokens@.last()@.kind is EOF
    }

    /// The token at `index`, and the last token for every index outside
    /// the sequence.
    pub open spec fn token_at(&self, index: int) -> Token {
        if 0 <= index < self.tokens.len() {
            self.tokens@[index]
        } else {
            self.tokens@.last()
        }
    }

    /// The token under the cursor.
    pub open spec fn current(&self) -> Token {
        self.token_at(self.cursor())
    }

    /// A stream over `tokens` with its cursor on the first.
    pub fn new(tokens: Vec<Token>) -> (stream: Self)
        ensures
            stream.tokens == tokens,
            stream.cursor() == 0,
    {
        TokenStream { tokens, current_index: 0 }
    }

    /// The token at `index`, and the end-of-file token for every index
    /// behind the sequence.
    pub fn get(&self, index: usize) -> (token: &Token)
        requires
            index < self.tokens.len() || self.ends_in_eof(),
        ensures
            *token == self.token_at(index as int),
    {
        if index < self.tokens.len() {
            &self.tokens[index]
        } else {
            &self.tokens[self.tokens.len() - 1]
        }
    }

    /// Whether a token other than the last is under the cursor.
    pub fn can_read(&self) -> (b: bool)
        requires
            self.tokens.len() > 0,
        ensures
            b == (self.cursor() < self.tokens.len() - 1),
    {
        self.current_index < self.tokens.len() - 1
    }

    /// The token `offset` places from the cursor, backwards where `offset`
    /// is negative. Every place outside the sequence holds the
    /// end-of-file token.
    pub fn peek(&self, offset: isize) -> (token: &Token)
        requires
            0 <= self.cursor() + offset < self.tokens.len() || self.ends_in_eof(),
        ensures
            *token == self.token_at(self.cursor() + offset),
    {
        let index: i128 = self.current_index as i128 + offset as i128;
        if 0 <= index && index < self.tokens.len() as i128 {
            &self.tokens[index as usize]
        } else {
            &self.tokens[self.tokens.len() - 1]
        }
    }

    /// Moves the cursor on by one and returns the token it stood on.
    pub fn take(&mut self) -> (token: &Token)
        requires
            0 <= old(self).cursor() < old(self).tokens.len() || old(self).ends_in_eof(),
            old(self).cursor() < usize::MAX,
        ensures
            final(self).tokens == old(self).tokens,
            final(self).cursor() == old(self).cursor() + 1,
            *token == old(self).current(),
    {
        let at = self.current_index;
        self.current_index += 1;
        if at < self.tokens.len() {
            &self.tokens[at]
        } else {
            &self.tokens[self.tokens.len() - 1]
        }
    }

    /// Shows the token under the cursor to `compare`. Where `compare`
    /// gives a value, moves the cursor on by one and returns the value;
    /// else leaves the cursor and returns nothing.
    pub fn take_if<T>(&mut self, compare: impl Fn(&Token) -> Option<T>) -> (taken: Option<T>)
        requires
            0 <= old(self).cursor() < old(self).tokens.len() || old(self).ends_in_eof(),
            old(self).cursor() < usize::MAX,
            call_requires(compare, (&old(self).current(),)),
        ensures
            final(self).tokens == old(self).tokens,
            call_ensures(compare, (&old(self).current(),), taken),
            final(self).cursor() == if taken is Some {
                old(self).cursor() + 1
            } else {
                old(self).cursor()
            },
    {
        let taken = compare(self.peek(0));
        if taken.is_some() {
            self.skip(1);
        }
        taken
    }

    /// Moves the cursor on by `count`.
    pub fn skip(&mut self, count: usize)
        requires
            old(self).cursor() + count <= usize::MAX,
        ensures
            final(self).tokens == old(self).tokens,
            final(self).cursor() == old(self).cursor() + count,
    {
        self.current_index += count;
    }

    /// Shows the token under the cursor to `compare`. Where `compare`
    /// accepts it, moves the cursor on by one.
    pub fn skip_if(&mut self, compare: impl Fn(&Token) -> bool) -> (skipped: bool)
        requires
            0 <= old(self).cursor() < old(self).tokens.len() || old(self).ends_in_eof(),
            old(self).cursor() < usize::MAX,
            call_requires(compare, (&old(self).current(),)),
        ensures
            final(self).tokens == old(self).tokens,
            call_ensures(compare, (&old(self).current(),), skipped),
            final(self).cursor() == if skipped {
                old(self).cursor() + 1
            } else {
                old(self).cursor()
            },
    {
        if compare(self.peek(0)) {
            self.skip(1);
            return true;
        }
        false
    }

    /// Whether a search from the cursor on ends at `stop`: `compare`
    /// rejects every token from the cursor up to `stop` and accepts the
    /// one at `stop`.
    pub open spec fn search_ends<F: Fn(&Token) -> bool>(&self, compare: F, stop: int) -> bool {
        &&& self.cursor() <= stop
        &&& forall|i: int|
            self.cursor() <= i < stop ==> call_ensures(compare, (&#[trigger] self.token_at(i),), false)
        &&& call_ensures(compare, (&self.token_at(stop),), true)
    }

    /// Moves the cursor on to the first token that `compare` accepts, and
    /// one further where `inclusive` is set. `compare` has to accept the
    /// end-of-file token, with which every search ends.
    pub fn skip_until<F: Fn(&Token) -> bool>(&mut self, compare: F, inclusive: bool)
        requires
            old(self).ends_in_eof(),
            old(self).cursor() < usize::MAX,
            forall|i: int|
                old(self).cursor() <= i ==> call_requires(
                    compare,
                    (&#[trigger] old(self).token_at(i),),
                ),
            forall|accepted: bool|
                call_ensures(compare, (&old(self).tokens@.last(),), accepted) ==> accepted,
        ensures
            final(self).tokens == old(self).tokens,
            exists|stop: int|
                {
                    &&& #[trigger] old(self).search_ends(compare, stop)
                    &&& final(self).cursor() == if inclusive {
                        stop + 1
                    } else {
                        stop
                    }
                },
    {
        loop
            invariant
                self.ends_in_eof(),
                self.tokens == old(self).tokens,
                old(self).cursor() <= self.cursor() < usize::MAX,
                forall|i: int|
                    old(self).cursor() <= i ==> call_requires(
                        compare,
                        (&#[trigger] old(self).token_at(i),),
                    ),
                forall|accepted: bool|
                    call_ensures(compare, (&self.tokens@.last(),), accepted) ==> accepted,
                forall|i: int|
                    old(self).cursor() <= i < self.cursor() ==> call_ensures(
                        compare,
                        (&#[trigger] old(self).token_at(i),),
                        false,
                    ),
            ensures
                call_ensures(compare, (&old(self).token_at(self.cursor()),), true),
            decreases self.tokens.len() - self.cursor(),
        {
            assert(self.token_at(self.cursor()) == old(self).token_at(self.cursor()));
            if compare(self.peek(0)) {
                break ;
            }
            self.skip(1);
        }
        assert(old(self).search_ends(compare, self.cursor()));
        if inclusive {
            self.skip(1);
        }
    }
}

} // verus!
