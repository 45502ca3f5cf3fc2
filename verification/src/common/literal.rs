use vstd::prelude::*;
use vstd::string::StringExecFns;
use crate::type_system::llc_type::{Type, TypeModel};

verus! {

/// A literal of the source text: its type and its text as it was written,
/// without digit separators.
#[derive(Debug, PartialEq, Eq)]
pub struct LiteralValue {
    pub llc_type: Type,
    pub value: String,
}

/// What a `LiteralValue` is: a type and a sequence of characters.
pub struct LiteralModel {
    pub llc_type: TypeModel,
    pub value: Seq<char>,
}

impl LiteralModel {
    /// The form in which diagnostics show the literal.
    pub open spec fn text(self) -> Seq<char> {
        "Literal "@ + self.llc_type.text() + " ("@ + self.value + ")"@
    }
}

impl View for LiteralValue {
    type V = LiteralModel;

    open spec fn view(&self) -> LiteralModel {
        LiteralModel { llc_type: self.llc_type@, value: self.value@ }
    }
}

impl Clone for LiteralValue {
    fn clone(&self) -> (copy: LiteralValue)
        ensures
            copy@ == self@,
    {
        LiteralValue { llc_type: self.llc_type.clone(), value: self.value.clone() }
    }
}

impl LiteralValue {
    /// The form in which diagnostics show the literal.
    pub fn to_string(&self) -> (s: String)
        requires
            self@.llc_type.printable(),
        ensures
            s@ == self@.text(),
    {
        let mut s = String::from_str("Literal ");
        s.append(self.llc_type.to_string().as_str());
        s.append(" (");
        s.append(self.value.as_str());
        s.append(")");
        s
    }
}

} // verus!
