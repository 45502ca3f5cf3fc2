use vstd::prelude::*;
use vstd::string::StringExecFns;
use crate::common::text::same_text;

verus! {

/// The reserved words of the language.
#[derive(Clone, Copy, Debug, PartialEq, Eq, Structural)]
pub enum Keyword {
    Use,
}

impl Keyword {
    /// The spelling of the keyword in source text.
    pub open spec fn text(self) -> Seq<char> {
        match self {
            Keyword::Use => "use"@,
        }
    }

    /// The spelling of the keyword in source text.
    pub fn to_string(&self) -> (s: String)
        ensures
            s@ == self.text(),
    {
        match self {
            Keyword::Use => String::from_str("use"),
        }
    }
}

/// The keyword that `s` spells, if it spells one.
pub open spec fn spec_parse_keyword(s: Seq<char>) -> Option<Keyword> {
    if s == Keyword::Use.text() {
        Some(Keyword::Use)
    } else {
        None
    }
}

/// Looks `s` up in the table of keywords.
pub fn parse_keyword(s: &str) -> (keyword: Option<Keyword>)
    ensures
        keyword == spec_parse_keyword(s@),
{
    if same_text(s, "use") {
        Some(Keyword::Use)
    } else {
        None
    }
}

} // verus!
