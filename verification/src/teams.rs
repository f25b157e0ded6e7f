//! Commands on teams.

pub mod edit;
pub mod session;
