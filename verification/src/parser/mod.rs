pub mod ast_node;
pub mod block;
pub mod declaration;
pub mod expression;
pub mod function_call;
pub mod identifier;
pub mod laws;
pub mod literal;
pub mod parser;
pub mod parser_buffer;
pub mod return_stmt;
pub mod rules;
pub mod statement;
pub mod use_directive;
