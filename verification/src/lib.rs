//! Decision logic of a command-line client for a hosted secrets platform:
//! short-identifier resolution, settlement of remote replies, and the rules
//! that guard the editing of a team.

pub mod text;
pub mod resolver;
pub mod auth;
pub mod executor;
pub mod teams;
pub mod tokens;
pub mod report;
pub mod failure;
