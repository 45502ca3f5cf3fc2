use vstd::prelude::*;
use vstd::string::StringExecFns;
use crate::common::literal::{LiteralModel, LiteralValue};
use crate::common::position::FileSpan;
use crate::common::text::{decimal, number_to_string};

verus! {

/// How an attempt to parse a construct ends. `Parsed`: the construct was
/// built and its node appended. `Error`: the construct started but is
/// malformed. `Other`: no such construct starts here, and no token was
/// read.
#[derive(Debug, Clone, Copy, PartialEq, Eq, Structural)]
pub enum ParsingResult {
    Parsed,
    Error,
    Other,
}

/// The statements. A declaration refers to the node of the identifier it
/// declares by that node's index.
#[derive(Debug, Clone, Copy, PartialEq, Eq, Structural)]
pub enum Statement {
    Declaration { ident_index: usize },
    Expression { exp_id: usize },
    Return,
}

/// The expressions. An identifier is held by its index in the identifier
/// table.
#[derive(Debug, PartialEq, Eq)]
pub enum Expression {
    Identifier { index: usize },
    Literal(LiteralValue),
    Block,
    FunctionCall,
}

/// What an `Expression` is.
pub enum ExpressionModel {
    Identifier { index: usize },
    Literal(LiteralModel),
    Block,
    FunctionCall,
}

/// What a node is: an expression or a statement.
#[derive(Debug, PartialEq, Eq)]
pub enum AstNodeKind {
    Expression(Expression),
    Statement(Statement),
}

/// What an `AstNodeKind` is.
pub enum AstNodeKindModel {
    Expression(ExpressionModel),
    Statement(Statement),
}

/// A node of the syntax tree. Nodes stand in one sequence and refer to
/// each other by index only.
#[derive(Debug, PartialEq, Eq)]
pub struct AstNode {
    pub kind: AstNodeKind,
    pub position: FileSpan,
}

/// What an `AstNode` is.
pub struct AstNodeModel {
    pub kind: AstNodeKindModel,
    pub position: FileSpan,
}

impl View for Expression {
    type V = ExpressionModel;

    open spec fn view(&self) -> ExpressionModel {
        match self {
            Expression::Identifier { index } => ExpressionModel::Identifier { index: *index },
            Expression::Literal(literal) => ExpressionModel::Literal(literal@),
            Expression::Block => ExpressionModel::Block,
            Expression::FunctionCall => ExpressionModel::FunctionCall,
        }
    }
}

impl View for AstNodeKind {
    type V = AstNodeKindModel;

    open spec fn view(&self) -> AstNodeKindModel {
        match self {
            AstNodeKind::Expression(expression) => AstNodeKindModel::Expression(expression@),
            AstNodeKind::Statement(statement) => AstNodeKindModel::Statement(*statement),
        }
    }
}

impl View for AstNode {
    type V = AstNodeModel;

    open spec fn view(&self) -> AstNodeModel {
        AstNodeModel { kind: self.kind@, position: self.position }
    }
}

impl AstNodeModel {
    /// The node of an identifier expression.
    pub open spec fn identifier(index: usize, position: FileSpan) -> AstNodeModel {
        AstNodeModel {
            kind: AstNodeKindModel::Expression(ExpressionModel::Identifier { index }),
            position,
        }
    }

    /// The node of a literal expression.
    pub open spec fn literal(literal: LiteralModel, position: FileSpan) -> AstNodeModel {
        AstNodeModel { kind: AstNodeKindModel::Expression(ExpressionModel::Literal(literal)), position }
    }

    /// The node of a block.
    pub open spec fn block(position: FileSpan) -> AstNodeModel {
        AstNodeModel { kind: AstNodeKindModel::Expression(ExpressionModel::Block), position }
    }

    /// The node of a function call.
    pub open spec fn function_call(position: FileSpan) -> AstNodeModel {
        AstNodeModel { kind: AstNodeKindModel::Expression(ExpressionModel::FunctionCall), position }
    }

    /// The node of a declaration of the identifier whose node has the
    /// index `ident_index`.
    pub open spec fn declaration(ident_index: usize, position: FileSpan) -> AstNodeModel {
        AstNodeModel {
            kind: AstNodeKindModel::Statement(Statement::Declaration { ident_index }),
            position,
        }
    }

    /// The node of a return statement.
    pub open spec fn return_statement(position: FileSpan) -> AstNodeModel {
        AstNodeModel { kind: AstNodeKindModel::Statement(Statement::Return), position }
    }

    /// The name under which the node is shown.
    pub open spec fn text(self) -> Seq<char> {
        match self.kind {
            AstNodeKindModel::Statement(Statement::Declaration { .. }) => "Declaration"@,
            AstNodeKindModel::Statement(Statement::Expression { .. }) => "ExpressionStatement"@,
            AstNodeKindModel::Statement(Statement::Return) => "Return"@,
            AstNodeKindModel::Expression(ExpressionModel::Block) => "BlockExpression"@,
            AstNodeKindModel::Expression(ExpressionModel::FunctionCall) => "FunctionCall"@,
            AstNodeKindModel::Expression(ExpressionModel::Identifier { index }) => "Identifier("@
                + decimal(index as nat) + ")"@,
            AstNodeKindModel::Expression(ExpressionModel::Literal(literal)) => "Literal("@
                + literal.value + ")"@,
        }
    }
}

impl AstNode {
    /// The name under which the node is shown.
    pub fn to_string(&self) -> (s: String)
        ensures
            s@ == self@.text(),
    {
        match &self.kind {
            AstNodeKind::Statement(Statement::Declaration { .. }) => String::from_str(
                "Declaration",
            ),
            AstNodeKind::Statement(Statement::Expression { .. }) => String::from_str(
                "ExpressionStatement",
            ),
            AstNodeKind::Statement(Statement::Return) => String::from_str("Return"),
            AstNodeKind::Expression(Expression::Block) => String::from_str("BlockExpression"),
            AstNodeKind::Expression(Expression::FunctionCall) => String::from_str("FunctionCall"),
            AstNodeKind::Expression(Expression::Identifier { index }) => {
                let mut s = String::from_str("Identifier(");
                s.append(number_to_string(*index).as_str());
                s.append(")");
                s
            },
            AstNodeKind::Expression(Expression::Literal(literal)) => {
                let mut s = String::from_str("Literal(");
                s.append(literal.value.as_str());
                s.append(")");
                s
            },
        }
    }
}

/// The nodes of a sequence, each by its model.
pub open spec fn node_models(nodes: Seq<AstNode>) -> Seq<AstNodeModel> {
    nodes.map_values(|node: AstNode| node@)
}

} // verus!
