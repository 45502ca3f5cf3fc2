use vstd::prelude::*;
use crate::ccg::ast::func_call;
use crate::ccg::ast::func_def;
use crate::ccg::ast::var_assign;
use crate::ccg::ast::var_decl;
use crate::ccg::ast::var_declassign;
use crate::ccg::file::file_writer::FileWriter;

verus! {

/// A statement of the target language.
#[derive(Debug)]
pub enum AstNode {
    VarDeclaration(var_decl::Data),
    VarAssignment(var_assign::Data),
    VarDeclAssignment(var_declassign::Data),
    FuncDefinition(func_def::Data),
}

/// An expression of the target language.
#[derive(Debug)]
pub enum Expression {
    Variable(String),
    Litteral(String),
    FunctionCall(func_call::Data),
}

impl Expression {
    /// The expression as it is written.
    pub open spec fn text(&self) -> Seq<char>
        decreases self, 0nat,
    {
        match self {
            Expression::Variable(id) => id@,
            Expression::Litteral(value) => value@,
            Expression::FunctionCall(data) => data.text(),
        }
    }

    /// Writes the expression.
    pub fn emit<'a>(&self, writer: &'a mut FileWriter) -> (written: &'a mut FileWriter)
        ensures
            written.content@ == old(writer).content@ + self.text(),
            written.indentation_lvl == old(writer).indentation_lvl,
            *final(writer) == *final(written),
        decreases self,
    {
        match self {
            Expression::Variable(id) => writer.append_str(id.as_str()),
            Expression::Litteral(value) => writer.append_str(value.as_str()),
            Expression::FunctionCall(data) => data.emit(writer),
        }
    }
}

impl AstNode {
    /// Whether the statement can be written at the depth `level`: no
    /// function definition in it stands deeper than the deepest level of
    /// indentation.
    pub open spec fn fits(&self, level: nat) -> bool
        decreases self, 0nat,
    {
        match self {
            AstNode::FuncDefinition(data) => data.fits(level),
            _ => true,
        }
    }

    /// Whether the statement can be written at the depth `level`.
    pub fn can_emit(&self, level: u8) -> (fits: bool)
        ensures
            fits == self.fits(level as nat),
        decreases self,
    {
        match self {
            AstNode::FuncDefinition(data) => data.can_emit(level),
            _ => true,
        }
    }

    /// The statement as it is written at the depth `level`.
    pub open spec fn text(&self, level: nat) -> Seq<char>
        decreases self, 0nat,
    {
        match self {
            AstNode::VarAssignment(data) => data.text(),
            AstNode::VarDeclaration(data) => data.text(),
            AstNode::VarDeclAssignment(data) => data.text(),
            AstNode::FuncDefinition(data) => data.text(level),
        }
    }

    /// Writes the statement.
    pub fn emit<'a>(&self, writer: &'a mut FileWriter) -> (written: &'a mut FileWriter)
        requires
            self.fits(old(writer).indentation_lvl as nat),
        ensures
            written.content@ == old(writer).content@ + self.text(
                old(writer).indentation_lvl as nat,
            ),
            written.indentation_lvl == old(writer).indentation_lvl,
            *final(writer) == *final(written),
        decreases self,
    {
        match self {
            AstNode::VarAssignment(data) => data.emit(writer),
            AstNode::VarDeclaration(data) => data.emit(writer),
            AstNode::VarDeclAssignment(data) => data.emit(writer),
            AstNode::FuncDefinition(data) => data.emit(writer),
        }
    }
}

} // verus!
