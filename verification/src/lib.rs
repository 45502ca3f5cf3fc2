pub mod ccg;
pub mod common;
pub mod lexer;
pub mod parser;
pub mod type_system;
