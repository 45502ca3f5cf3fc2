use vstd::prelude::*;
use vstd::string::StringExecFns;
use vstd::string::StrSliceExecFns;

verus! {

/// The operators of the language: ten of one character, five of two.
#[derive(Copy, Clone, Debug, PartialEq, Eq, Structural)]
pub enum Operator {
    Discard,
    Minus,
    Plus,
    Times,
    Divide,
    Modulus,
    Assignment,
    Declaration,
    Declassignment,
    GreaterThan,
    LessThan,
    Equality,
    Into,
    Return,
    NameSpaceNav,
}

impl Operator {
    /// The name under which the operator is shown in diagnostics.
    pub open spec fn name(self) -> Seq<char> {
        match self {
            Operator::Discard => "Discard"@,
            Operator::Minus => "Minus"@,
            Operator::Plus => "Plus"@,
            Operator::Times => "Times"@,
            Operator::Divide => "Divide"@,
            Operator::Modulus => "Modulus"@,
            Operator::Assignment => "Assignment"@,
            Operator::Declaration => "Declaration"@,
            Operator::Declassignment => "Declassignment"@,
            Operator::GreaterThan => "GreaterThan"@,
            Operator::LessThan => "LessThan"@,
            Operator::Equality => "Equality"@,
            Operator::Into => "Into"@,
            Operator::Return => "Return"@,
            Operator::NameSpaceNav => "NameSpaceNav"@,
        }
    }

    /// The name under which the operator is shown in diagnostics.
    pub fn to_string(&self) -> (s: String)
        ensures
            s@ == self.name(),
    {
        match self {
            Operator::Discard => String::from_str("Discard"),
            Operator::Minus => String::from_str("Minus"),
            Operator::Plus => String::from_str("Plus"),
            Operator::Times => String::from_str("Times"),
            Operator::Divide => String::from_str("Divide"),
            Operator::Modulus => String::from_str("Modulus"),
            Operator::Assignment => String::from_str("Assignment"),
            Operator::Declaration => String::from_str("Declaration"),
            Operator::Declassignment => String::from_str("Declassignment"),
            Operator::GreaterThan => String::from_str("GreaterThan"),
            Operator::LessThan => String::from_str("LessThan"),
            Operator::Equality => String::from_str("Equality"),
            Operator::Into => String::from_str("Into"),
            Operator::Return => String::from_str("Return"),
            Operator::NameSpaceNav => String::from_str("NameSpaceNav"),
        }
    }

    /// Whether the operator counts as two columns wide when its span is
    /// computed. The five two-character operators do, and so do `<` and `>`.
    pub open spec fn spec_is_composite(&self) -> bool {
        *self == Operator::Declassignment || *self == Operator::NameSpaceNav || *self
            == Operator::Return || *self == Operator::Into || *self == Operator::LessThan || *self
            == Operator::Equality || *self == Operator::GreaterThan
    }

    #[verifier::when_used_as_spec(spec_is_composite)]
    pub fn is_composite(&self) -> (composite: bool)
        ensures
            composite == self.spec_is_composite(),
    {
        match self {
            Operator::Declassignment
            | Operator::NameSpaceNav
            | Operator::Return
            | Operator::Into
            | Operator::LessThan
            | Operator::Equality
            | Operator::GreaterThan => true,
            _ => false,
        }
    }
}

/// The operator that the single character `c` stands for, if any.
pub open spec fn spec_parse_operator(c: char) -> Option<Operator> {
    if c == '-' {
        Some(Operator::Minus)
    } else if c == '+' {
        Some(Operator::Plus)
    } else if c == '/' {
        Some(Operator::Divide)
    } else if c == '*' {
        Some(Operator::Times)
    } else if c == '%' {
        Some(Operator::Modulus)
    } else if c == '=' {
        Some(Operator::Assignment)
    } else if c == ':' {
        Some(Operator::Declaration)
    } else if c == '>' {
        Some(Operator::GreaterThan)
    } else if c == '<' {
        Some(Operator::LessThan)
    } else if c == '_' {
        Some(Operator::Discard)
    } else {
        None
    }
}

/// The operator that the two characters `first`, `second` spell together,
/// if any: `->`, `=>`, `==`, `:=` or `::`.
pub open spec fn spec_pair_operator(first: char, second: char) -> Option<Operator> {
    if first == '-' && second == '>' {
        Some(Operator::Into)
    } else if first == '=' && second == '>' {
        Some(Operator::Return)
    } else if first == '=' && second == '=' {
        Some(Operator::Equality)
    } else if first == ':' && second == '=' {
        Some(Operator::Declassignment)
    } else if first == ':' && second == ':' {
        Some(Operator::NameSpaceNav)
    } else {
        None
    }
}

/// The two-character operator that `s` spells, if any.
pub open spec fn spec_parse_comp_operator(s: Seq<char>) -> Option<Operator> {
    if s.len() == 2 {
        spec_pair_operator(s[0], s[1])
    } else {
        None
    }
}

/// Looks `c` up in the table of one-character operators.
pub fn parse_operator(c: char) -> (operator: Option<Operator>)
    ensures
        operator == spec_parse_operator(c),
{
    if c == '-' {
        Some(Operator::Minus)
    } else if c == '+' {
        Some(Operator::Plus)
    } else if c == '/' {
        Some(Operator::Divide)
    } else if c == '*' {
        Some(Operator::Times)
    } else if c == '%' {
        Some(Operator::Modulus)
    } else if c == '=' {
        Some(Operator::Assignment)
    } else if c == ':' {
        Some(Operator::Declaration)
    } else if c == '>' {
        Some(Operator::GreaterThan)
    } else if c == '<' {
        Some(Operator::LessThan)
    } else if c == '_' {
        Some(Operator::Discard)
    } else {
        None
    }
}

/// Looks the pair of characters up in the table of two-character operators.
pub fn parse_pair_operator(first: char, second: char) -> (operator: Option<Operator>)
    ensures
        operator == spec_pair_operator(first, second),
{
    if first == '-' && second == '>' {
        Some(Operator::Into)
    } else if first == '=' && second == '>' {
        Some(Operator::Return)
    } else if first == '=' && second == '=' {
        Some(Operator::Equality)
    } else if first == ':' && second == '=' {
        Some(Operator::Declassignment)
    } else if first == ':' && second == ':' {
        Some(Operator::NameSpaceNav)
    } else {
        None
    }
}

/// Looks `s` up in the table of two-character operators.
pub fn parse_comp_operator(s: &str) -> (operator: Option<Operator>)
    ensures
        operator == spec_parse_comp_operator(s@),
{
    if s.unicode_len() == 2 {
        parse_pair_operator(s.get_char(0), s.get_char(1))
    } else {
        None
    }
}

/// Every two-character operator is composite, and both of its characters
/// are operators on their own.
pub proof fn lemma_pair_operator_is_composite(first: char, second: char)
    requires
        spec_pair_operator(first, second) is Some,
    ensures
        spec_pair_operator(first, second)->0.spec_is_composite(),
        spec_parse_operator(first) is Some,
        spec_parse_operator(second) is Some,
{
}

} // verus!
