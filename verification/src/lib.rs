pub mod change;
pub mod document;
pub mod path;
pub mod strings;
pub mod syntax_kind;
pub mod text;
pub mod sibling_token;
pub mod lexer;
pub mod location;
pub mod message;
pub mod nested;
pub mod node_range;
pub mod parser;
pub mod statement_start;
pub mod statement;
pub mod source;
pub mod statement_lexer;
pub mod statement_parser;
pub mod source_file;
pub mod analyse;
pub mod commands;
pub mod cli;
pub mod query_node;
