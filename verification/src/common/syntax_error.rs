use vstd::prelude::*;
use vstd::string::StringExecFns;
use crate::common::position::FileSpan;
use crate::common::text::{decimal, number_to_string};
use crate::lexer::token::{Token, TokenModel};

verus! {

/// A construct that could not be built: where it is, and why.
#[derive(Debug, PartialEq, Eq)]
pub struct SyntaxError {
    pub position: FileSpan,
    pub reason: String,
}

/// The errors that compiling a file can give.
#[derive(Debug, PartialEq, Eq)]
pub enum CompileError {
    Syntax(SyntaxError),
}

/// What a `SyntaxError` is.
pub struct SyntaxErrorModel {
    pub position: FileSpan,
    pub reason: Seq<char>,
}

impl SyntaxErrorModel {
    /// The line that reports the error. A span within one row is shown by
    /// its row and its two columns, a span over several rows by its two
    /// positions.
    pub open spec fn text(self) -> Seq<char> {
        if self.position.begin.row == self.position.end.row {
            "At line "@ + decimal(self.position.begin.row as nat) + ", col "@ + decimal(
                self.position.begin.col as nat,
            ) + ":"@ + decimal(self.position.end.col as nat) + ". "@ + self.reason
        } else {
            "from "@ + self.position.begin.text() + ". to "@ + self.position.end.text() + ". "@
                + self.reason
        }
    }

    /// The error at `token`, with `reason` after the words `SyntaxError: `,
    /// or with the token's kind where no reason is given.
    pub open spec fn from_token(token: TokenModel, reason: Option<Seq<char>>) -> SyntaxErrorModel {
        SyntaxErrorModel {
            position: token.position,
            reason: match reason {
                Some(text) => "SyntaxError: "@ + text,
                None => "SyntaxError. "@ + token.kind.text(),
            },
        }
    }

    /// The error from where `first` begins to where `last` ends, with
    /// `reason` after the words `SyntaxError: `, or with the two tokens'
    /// kinds where no reason is given.
    pub open spec fn from_tokens(first: TokenModel, last: TokenModel, reason: Option<Seq<char>>)
        -> SyntaxErrorModel {
        SyntaxErrorModel {
            position: FileSpan::spec_combine(first.position, last.position),
            reason: match reason {
                Some(text) => "SyntaxError: "@ + text,
                None => "SyntaxError. from "@ + first.kind.text() + ", to "@ + last.kind.text(),
            },
        }
    }
}

impl View for SyntaxError {
    type V = SyntaxErrorModel;

    open spec fn view(&self) -> SyntaxErrorModel {
        SyntaxErrorModel { position: self.position, reason: self.reason@ }
    }
}

impl View for CompileError {
    type V = SyntaxErrorModel;

    open spec fn view(&self) -> SyntaxErrorModel {
        match self {
            CompileError::Syntax(error) => error@,
        }
    }
}

impl Clone for SyntaxError {
    fn clone(&self) -> (copy: SyntaxError)
        ensures
            copy@ == self@,
    {
        SyntaxError { position: self.position, reason: self.reason.clone() }
    }
}

impl SyntaxError {
    /// The line that reports the error.
    pub fn to_string(&self) -> (s: String)
        ensures
            s@ == self@.text(),
    {
        if self.position.begin.row == self.position.end.row {
            let mut s = String::from_str("At line ");
            s.append(number_to_string(self.position.begin.row).as_str());
            s.append(", col ");
            s.append(number_to_string(self.position.begin.col).as_str());
            s.append(":");
            s.append(number_to_string(self.position.end.col).as_str());
            s.append(". ");
            s.append(self.reason.as_str());
            s
        } else {
            let mut s = String::from_str("from ");
            s.append(self.position.begin.to_string().as_str());
            s.append(". to ");
            s.append(self.position.end.to_string().as_str());
            s.append(". ");
            s.append(self.reason.as_str());
            s
        }
    }

    /// The error at `token`. Without a reason, the token's kind is the
    /// reason, so the kind must have a written form.
    pub fn from_token(token: &Token, reason: Option<&str>) -> (error: Self)
        requires
            reason is None ==> token@.kind.printable(),
        ensures
            error@ == SyntaxErrorModel::from_token(
                token@,
                match reason {
                    Some(text) => Some(text@),
                    None => None,
                },
            ),
    {
        let text = match reason {
            Some(text) => {
                let mut s = String::from_str("SyntaxError: ");
                s.append(text);
                s
            },
            None => {
                let mut s = String::from_str("SyntaxError. ");
                s.append(token.kind.to_string().as_str());
                s
            },
        };
        SyntaxError { position: token.position, reason: text }
    }

    /// The error from where `first` begins to where `last` ends. Without a
    /// reason, the two tokens' kinds are the reason, so both must have a
    /// written form.
    pub fn from_tokens(first: &Token, last: &Token, reason: Option<&str>) -> (error: Self)
        requires
            reason is None ==> first@.kind.printable() && last@.kind.printable(),
        ensures
            error@ == SyntaxErrorModel::from_tokens(
                first@,
                last@,
                match reason {
                    Some(text) => Some(text@),
                    None => None,
                },
            ),
    {
        let text = match reason {
            Some(text) => {
                let mut s = String::from_str("SyntaxError: ");
                s.append(text);
                s
            },
            None => {
                let mut s = String::from_str("SyntaxError. from ");
                s.append(first.kind.to_string().as_str());
                s.append(", to ");
                s.append(last.kind.to_string().as_str());
                s
            },
        };
        SyntaxError { position: FileSpan::combine(&first.position, &last.position), reason: text }
    }
}

impl CompileError {
    /// The line that reports the error.
    pub fn to_string(&self) -> (s: String)
        ensures
            s@ == self@.text(),
    {
        match self {
            CompileError::Syntax(error) => error.to_string(),
        }
    }
}

/// The errors of a sequence, each by its model.
pub open spec fn error_models(errors: Seq<SyntaxError>) -> Seq<SyntaxErrorModel> {
    errors.map_values(|error: SyntaxError| error@)
}

} // verus!
