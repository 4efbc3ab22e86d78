//! Parsing of one line of chat-client command input into a typed command.
//!
//! `tokenize` splits the line, `aliases` resolves literal tokens to canonical
//! families and actions, `parser` matches the tokens against the command
//! table, and `command` holds the result type and its usage texts. `laws`
//! states properties of the grammar as a whole.

pub mod aliases;
pub mod command;
pub mod laws;
pub mod parser;
pub mod tokenize;

pub use command::Command;
pub use parser::parse_command;
