//! A small interpreter for a SQL-like language over an in-memory table store.
//!
//! A line of text is split into tokens, the tokens are parsed into one of four
//! statements, and the statement is executed against the tables held by a
//! [`vm::VirtualMachine`].

pub mod errors;
pub mod parser;
pub mod repl;
pub mod storage;
pub mod text;
pub mod tokenizer;
pub mod vm;
