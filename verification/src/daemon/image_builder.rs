pub mod builder;
pub mod parser;
