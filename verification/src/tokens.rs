//! Commands on tokens.

pub mod generate_token;
