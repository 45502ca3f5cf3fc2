pub mod file_stream;
pub mod identifier_builder;
pub mod lexer;
pub mod literal_builder;
pub mod operator_builder;
pub mod token;
pub mod token_stream;
