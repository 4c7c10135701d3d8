//! A lightweight variant of the lexer whose tokens are bare kinds without
//! the text they were read from, for uses where only the shape of the
//! input matters.

pub mod lexer;
pub mod token;
