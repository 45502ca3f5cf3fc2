pub mod ast;
pub mod file;
