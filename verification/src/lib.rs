pub mod codegen;
pub mod token;
pub mod tokenizer;
