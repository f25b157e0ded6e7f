//! The failures that end an invocation, and the exit code of each.

use vstd::prelude::*;
use vstd::string::*;
use crate::auth::AuthError;
use crate::executor::ExecuteError;
use crate::resolver::{resolve_error_text, ResolveError};
use crate::teams::edit::{edit_error_text, EditError};

verus! {

/// Every failure that ends an invocation.
#[derive(Debug)]
pub enum Failure {
    /// No token to authorize with.
    Auth(AuthError),
    /// The identifier fragment did not resolve.
    Resolve(ResolveError),
    /// The edit was refused or could not be finished.
    Edit(EditError),
    /// A remote operation failed.
    Execute(ExecuteError),
}

/// The message for a missing token.
pub open spec fn auth_error_text() -> Seq<char> {
    "Authorization error. No access token was given or stored."@
}

/// The line that a failure is reported with.
pub open spec fn failure_text(failure: Failure) -> Seq<char> {
    match failure {
        Failure::Auth(_) => auth_error_text(),
        Failure::Resolve(error) => resolve_error_text(error),
        Failure::Edit(error) => edit_error_text(error),
        Failure::Execute(error) => error.message@,
    }
}

/// The exit code of an invocation with the given end.
pub open spec fn exit_code_of(end: Result<(), Failure>) -> u8 {
    if end.is_ok() {
        0u8
    } else {
        1u8
    }
}

impl Failure {
    /// The line that the failure is reported with.
    pub fn message(&self) -> (text: String)
        ensures
            text@ == failure_text(*self),
    {
        match self {
            Failure::Auth(_) => String::from_str(
                "Authorization error. No access token was given or stored.",
            ),
            Failure::Resolve(error) => error.message(),
            Failure::Edit(error) => String::from_str(error.message()),
            Failure::Execute(error) => error.message.clone(),
        }
    }
}

/// The exit code of an invocation: 0 where all of it succeeded, 1 for every
/// failure.
pub fn exit_code(end: &Result<(), Failure>) -> (code: u8)
    ensures
        code == exit_code_of(*end),
{
    match end {
        Ok(_) => 0,
        Err(_) => 1,
    }
}

} // verus!
