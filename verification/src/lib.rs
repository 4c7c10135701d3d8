//! Dodolang: a small expression-oriented language with scalar, vector and
//! matrix declarations, assignment, integer arithmetic and printing.
//!
//! The pipeline is: source text -> [`lexer::Lexer`] -> tokens ->
//! [`parser::Parser`] -> statements -> [`interpreter::Interpreter`], which
//! executes the statements against a mutable [`environment::Environment`]
//! and collects the lines a `print` statement emits.
pub mod ast;
pub mod environment;
pub mod error_types;
pub mod expr;
pub mod interpreter;
pub mod laws;
pub mod lexer;
pub mod numbers;
pub mod parser;
pub mod simple;
pub mod stmt;
pub mod token;

pub use ast::Program;
pub use environment::Environment;
pub use error_types::DodoParseError;
pub use error_types::DodoRuntimeError;
pub use expr::Expr;
pub use expr::ExprView;
pub use interpreter::Interpreter;
pub use lexer::Lexer;
pub use parser::Parser;
pub use stmt::Stmt;
pub use stmt::StmtView;
pub use token::Token;
pub use token::TokenType;
pub use token::TokenView;
pub use token::identifier;
