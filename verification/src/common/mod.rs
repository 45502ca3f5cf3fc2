pub mod identifier;
pub mod keyword;
pub mod literal;
pub mod operator;
pub mod position;
pub mod syntax_error;
pub mod text;
