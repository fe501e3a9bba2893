//! Console helpers: colors and the ANSI escape sequence parser.

pub mod color;
pub mod escape_parser;
