use vstd::prelude::*;
use vstd::string::StringExecFns;
use crate::common::text::{decimal, number_to_string};

verus! {

/// The type of a value of the language.
#[derive(Debug, PartialEq, Eq)]
pub enum Type {
    String,
    Char,
    Float { signed: bool, size: usize },
    Integer { signed: bool, size: usize },
    Block { input: Option<Vec<Type>>, output: Option<Box<Type>> },
}

/// What a `Type` is, with its parameter list as a sequence.
pub enum TypeModel {
    String,
    Char,
    Float { signed: bool, size: usize },
    Integer { signed: bool, size: usize },
    Block { input: Option<Seq<TypeModel>>, output: Option<Box<TypeModel>> },
}

impl TypeModel {
    /// Whether the type has a written form: every type has one but a block
    /// with a declared result.
    pub open spec fn printable(self) -> bool {
        !(self matches TypeModel::Block { output: Some(_), .. })
    }

    /// The written form of the type: `char`, `string`, `s` or `u` for the
    /// sign, then `f` or `i` and the size, or the shape of a block.
    pub open spec fn text(self) -> Seq<char> {
        match self {
            TypeModel::Char => "char"@,
            TypeModel::String => "string"@,
            TypeModel::Float { signed, size } => (if signed {
                "s"@
            } else {
                "u"@
            }) + "f"@ + decimal(size as nat),
            TypeModel::Integer { signed, size } => (if signed {
                "s"@
            } else {
                "u"@
            }) + "i"@ + decimal(size as nat),
            TypeModel::Block { input, output } => (if input is Some {
                ""@
            } else {
                "()"@
            }) + " -> "@ + "{}"@,
        }
    }
}

impl Type {
    /// The written form of the type.
    pub fn to_string(&self) -> (s: String)
        requires
            self@.printable(),
        ensures
            s@ == self@.text(),
    {
        match self {
            Type::Char => String::from_str("char"),
            Type::String => String::from_str("string"),
            Type::Float { signed, size } => {
                let mut s = if *signed {
                    String::from_str("s")
                } else {
                    String::from_str("u")
                };
                s.append("f");
                s.append(number_to_string(*size).as_str());
                s
            },
            Type::Integer { signed, size } => {
                let mut s = if *signed {
                    String::from_str("s")
                } else {
                    String::from_str("u")
                };
                s.append("i");
                s.append(number_to_string(*size).as_str());
                s
            },
            Type::Block { input, output } => {
                let mut s = match input {
                    Some(_) => String::from_str(""),
                    None => String::from_str("()"),
                };
                s.append(" -> ");
                s.append("{}");
                s
            },
        }
    }

    /// The mathematical value of this type.
    pub open spec fn model(&self) -> TypeModel
        decreases self,
    {
        match self {
            Type::String => TypeModel::String,
            Type::Char => TypeModel::Char,
            Type::Float { signed, size } => TypeModel::Float { signed: *signed, size: *size },
            Type::Integer { signed, size } => TypeModel::Integer { signed: *signed, size: *size },
            Type::Block { input, output } => TypeModel::Block {
                input: match input {
                    Some(params) => Some(
                        Seq::new(
                            params@.len(),
                            |i: int|
                                if 0 <= i < params@.len() {
                                    params@[i].model()
                                } else {
                                    TypeModel::Char
                                },
                        ),
                    ),
                    None => None,
                },
                output: match output {
                    Some(ret) => Some(Box::new(ret.model())),
                    None => None,
                },
            },
        }
    }
}

impl View for Type {
    type V = TypeModel;

    open spec fn view(&self) -> TypeModel {
        self.model()
    }
}

impl Clone for Type {
    fn clone(&self) -> (copy: Type)
        ensures
            copy@ == self@,
        decreases self,
    {
        match self {
            Type::String => Type::String,
            Type::Char => Type::Char,
            Type::Float { signed, size } => Type::Float { signed: *signed, size: *size },
            Type::Integer { signed, size } => Type::Integer { signed: *signed, size: *size },
            Type::Block { input, output } => {
                let input_copy = match input {
                    Some(params) => {
                        let mut copies: Vec<Type> = Vec::new();
                        let mut i: usize = 0;
                        while i < params.len()
                            invariant
                                i <= params.len(),
                                copies.len() == i,
                                forall|k: int| 0 <= k < i ==> copies@[k]@ == params@[k]@,
                                decreases_to!(self => params),
                            decreases params.len() - i,
                        {
                            let c = params[i].clone();
                            copies.push(c);
                            i += 1;
                        }
                        Some(copies)
                    },
                    None => None,
                };
                let output_copy = match output {
                    Some(ret) => Some(Box::new((**ret).clone())),
                    None => None,
                };
                let copy = Type::Block { input: input_copy, output: output_copy };
                proof {
                    if input is Some {
                        assert(copy@->input->0 =~= self@->input->0);
                    }
                }
                copy
            },
        }
    }
}

} // verus!
