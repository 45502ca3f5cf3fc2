use vstd::prelude::*;
use vstd::string::StringExecFns;
use crate::common::keyword::Keyword;
use crate::common::literal::{LiteralModel, LiteralValue};
use crate::common::operator::Operator;
use crate::common::position::{FilePosition, FileSpan};
use crate::common::text::{decimal, number_to_string};

verus! {

/// What a token is: its kind says which, and carries what it holds.
/// An identifier is held by its index in the identifier table, never by
/// its name.
#[derive(Debug, PartialEq, Eq)]
pub enum TokenKind {
    Null,
    Undefined(String),
    Literal(LiteralValue),
    Operator(Operator),
    Identifier { index: usize },
    Keyword(Keyword),
    OpenParen,
    CloseParen,
    OpenCurly,
    CloseCurly,
    Comma,
    EOI,
    EOF,
}

/// What a `TokenKind` is.
pub enum TokenKindModel {
    Null,
    Undefined(Seq<char>),
    Literal(LiteralModel),
    Operator(Operator),
    Identifier { index: usize },
    Keyword(Keyword),
    OpenParen,
    CloseParen,
    OpenCurly,
    CloseCurly,
    Comma,
    EOI,
    EOF,
}

impl TokenKindModel {
    /// Whether the kind has a written form: every kind has one but a
    /// literal whose type has none.
    pub open spec fn printable(self) -> bool {
        self matches TokenKindModel::Literal(literal) ==> literal.llc_type.printable()
    }

    /// The form in which diagnostics show the kind.
    pub open spec fn text(self) -> Seq<char> {
        match self {
            TokenKindModel::Null => "Null token"@,
            TokenKindModel::Undefined(t) => "Undefined: "@ + t,
            TokenKindModel::Literal(literal) => "Literal value: "@ + literal.text(),
            TokenKindModel::Operator(op) => "Operator: "@ + op.name(),
            TokenKindModel::Identifier { index } => "Identifier: "@ + decimal(index as nat),
            TokenKindModel::Keyword(k) => "Keyword: "@ + k.text(),
            TokenKindModel::OpenParen => "Opening parenthesis"@,
            TokenKindModel::CloseParen => "Closing parenthesis"@,
            TokenKindModel::OpenCurly => "Opening curly brace"@,
            TokenKindModel::CloseCurly => "Closing curly brace"@,
            TokenKindModel::Comma => "Comma"@,
            TokenKindModel::EOI => "End of instruction"@,
            TokenKindModel::EOF => "End of file"@,
        }
    }

    /// Whether the kind ends a statement: the terminator `;` or the end of
    /// the file.
    pub open spec fn is_terminator(self) -> bool {
        self is EOI || self is EOF
    }
}

impl View for TokenKind {
    type V = TokenKindModel;

    open spec fn view(&self) -> TokenKindModel {
        match self {
            TokenKind::Null => TokenKindModel::Null,
            TokenKind::Undefined(t) => TokenKindModel::Undefined(t@),
            TokenKind::Literal(literal) => TokenKindModel::Literal(literal@),
            TokenKind::Operator(op) => TokenKindModel::Operator(*op),
            TokenKind::Identifier { index } => TokenKindModel::Identifier { index: *index },
            TokenKind::Keyword(k) => TokenKindModel::Keyword(*k),
            TokenKind::OpenParen => TokenKindModel::OpenParen,
            TokenKind::CloseParen => TokenKindModel::CloseParen,
            TokenKind::OpenCurly => TokenKindModel::OpenCurly,
            TokenKind::CloseCurly => TokenKindModel::CloseCurly,
            TokenKind::Comma => TokenKindModel::Comma,
            TokenKind::EOI => TokenKindModel::EOI,
            TokenKind::EOF => TokenKindModel::EOF,
        }
    }
}

impl Default for TokenKind {
    fn default() -> (kind: TokenKind)
        ensures
            kind@ == TokenKindModel::Null,
    {
        TokenKind::Null
    }
}

impl Clone for TokenKind {
    fn clone(&self) -> (copy: TokenKind)
        ensures
            copy@ == self@,
    {
        match self {
            TokenKind::Null => TokenKind::Null,
            TokenKind::Undefined(t) => TokenKind::Undefined(t.clone()),
            TokenKind::Literal(literal) => TokenKind::Literal(literal.clone()),
            TokenKind::Operator(op) => TokenKind::Operator(*op),
            TokenKind::Identifier { index } => TokenKind::Identifier { index: *index },
            TokenKind::Keyword(k) => TokenKind::Keyword(*k),
            TokenKind::OpenParen => TokenKind::OpenParen,
            TokenKind::CloseParen => TokenKind::CloseParen,
            TokenKind::OpenCurly => TokenKind::OpenCurly,
            TokenKind::CloseCurly => TokenKind::CloseCurly,
            TokenKind::Comma => TokenKind::Comma,
            TokenKind::EOI => TokenKind::EOI,
            TokenKind::EOF => TokenKind::EOF,
        }
    }
}

impl TokenKind {
    /// The form in which diagnostics show the kind.
    pub fn to_string(&self) -> (s: String)
        requires
            self@.printable(),
        ensures
            s@ == self@.text(),
    {
        match self {
            TokenKind::Null => String::from_str("Null token"),
            TokenKind::Undefined(t) => {
                let mut s = String::from_str("Undefined: ");
                s.append(t.as_str());
                s
            },
            TokenKind::Literal(literal) => {
                let mut s = String::from_str("Literal value: ");
                s.append(literal.to_string().as_str());
                s
            },
            TokenKind::Operator(op) => {
                let mut s = String::from_str("Operator: ");
                s.append(op.to_string().as_str());
                s
            },
            TokenKind::Identifier { index } => {
                let mut s = String::from_str("Identifier: ");
                s.append(number_to_string(*index).as_str());
                s
            },
            TokenKind::Keyword(k) => {
                let mut s = String::from_str("Keyword: ");
                s.append(k.to_string().as_str());
                s
            },
            TokenKind::OpenParen => String::from_str("Opening parenthesis"),
            TokenKind::CloseParen => String::from_str("Closing parenthesis"),
            TokenKind::OpenCurly => String::from_str("Opening curly brace"),
            TokenKind::CloseCurly => String::from_str("Closing curly brace"),
            TokenKind::Comma => String::from_str("Comma"),
            TokenKind::EOI => String::from_str("End of instruction"),
            TokenKind::EOF => String::from_str("End of file"),
        }
    }

    /// Whether the kind is the statement terminator `;`.
    pub fn is_end_of_instruction(&self) -> (b: bool)
        ensures
            b == (self@ is EOI),
    {
        match self {
            TokenKind::EOI => true,
            _ => false,
        }
    }

    /// Whether the kind is the operator `operator`.
    pub fn is_operator(&self, operator: Operator) -> (b: bool)
        ensures
            b == (self@ == TokenKindModel::Operator(operator)),
    {
        match self {
            TokenKind::Operator(own) => *own == operator,
            _ => false,
        }
    }

    /// Whether the kind ends a statement.
    pub fn is_terminator(&self) -> (b: bool)
        ensures
            b == self@.is_terminator(),
    {
        match self {
            TokenKind::EOI => true,
            TokenKind::EOF => true,
            _ => false,
        }
    }
}

/// A token: what it is and where it stands.
#[derive(Debug, PartialEq, Eq)]
pub struct Token {
    pub kind: TokenKind,
    pub position: FileSpan,
}

/// What a `Token` is.
pub struct TokenModel {
    pub kind: TokenKindModel,
    pub position: FileSpan,
}

impl TokenModel {
    /// The token of kind `kind` that stands on `row`, from column
    /// `start_col` to column `end_col`.
    pub open spec fn on_row(kind: TokenKindModel, row: usize, start_col: usize, end_col: usize)
        -> TokenModel {
        TokenModel { kind, position: FileSpan::on_row(row, start_col, end_col) }
    }

    /// The form in which diagnostics show the token: its span, its kind,
    /// a full stop and a line break.
    pub open spec fn text(self) -> Seq<char> {
        self.position.text() + ": "@ + self.kind.text() + ".\n"@
    }
}

impl View for Token {
    type V = TokenModel;

    open spec fn view(&self) -> TokenModel {
        TokenModel { kind: self.kind@, position: self.position }
    }
}

impl Clone for Token {
    fn clone(&self) -> (copy: Token)
        ensures
            copy@ == self@,
    {
        Token { kind: self.kind.clone(), position: self.position }
    }
}

impl Token {
    /// The token of kind `kind` on `row`, from `start_col` to `end_col`.
    pub fn new(kind: TokenKind, row: usize, start_col: usize, end_col: usize) -> (token: Self)
        ensures
            token.kind == kind,
            token@ == TokenModel::on_row(kind@, row, start_col, end_col),
    {
        Self {
            kind,
            position: FileSpan::new(
                FilePosition::new(row, start_col),
                FilePosition::new(row, end_col),
            ),
        }
    }

    /// The token of kind `kind` that fills the one column `col` of `row`.
    pub fn single_char(kind: TokenKind, row: usize, col: usize) -> (token: Self)
        ensures
            token.kind == kind,
            token@ == TokenModel::on_row(kind@, row, col, col),
    {
        Self::new(kind, row, col, col)
    }

    /// The form in which diagnostics show the token.
    pub fn to_string(&self) -> (s: String)
        requires
            self@.kind.printable(),
        ensures
            s@ == self@.text(),
    {
        let mut s = self.position.to_string();
        s.append(": ");
        s.append(self.kind.to_string().as_str());
        s.append(".\n");
        s
    }
}

/// The tokens of a sequence, each by its model.
pub open spec fn token_models(tokens: Seq<Token>) -> Seq<TokenModel> {
    tokens.map_values(|token: Token| token@)
}

} // verus!
