pub mod ast;
pub mod call_node;
pub mod docblock;
pub mod document;
pub mod format;
pub mod hug;
pub mod layout;
pub mod misc;
pub mod operator;
pub mod parens;
pub mod printer;
pub mod state;
pub mod type_error;
pub mod type_token;
pub mod unary;
