//! Settlement of one remote operation: from what the transport brought back
//! to the typed data, or to the failure that ends the invocation.

use vstd::prelude::*;
use vstd::string::*;
use crate::text::views;

verus! {

/// A remote operation as it goes over the wire: the operation's text and
/// name, which are fixed, and the variables of one call.
#[derive(Debug)]
pub struct QueryBody<V> {
    pub variables: V,
    pub query: &'static str,
    pub operation_name: &'static str,
}

/// The decoded body of a response: the operation's data, and the errors that
/// the server reports for the operation.
pub struct Payload<T> {
    pub data: Option<T>,
    pub errors: Vec<String>,
}

/// What one round trip brought back.
pub enum Reply<T> {
    /// The request could not be sent, or no response arrived.
    Unreachable,
    /// A response arrived. `body` is `None` where it could not be decoded
    /// into the expected shape.
    Answered { status: u16, body: Option<Payload<T>> },
}

/// The ways in which a remote operation fails.
#[derive(Clone, Copy, Debug, PartialEq, Eq, Structural)]
pub enum Fault {
    /// The transport failed.
    Transport,
    /// The response's status is not a success status.
    Status,
    /// The body could not be decoded, or holds no data.
    Decode,
    /// The server reports errors for the operation.
    Server,
}

/// A failed remote operation: its cause, the caller's message for it, and the
/// server's own error texts where the server reported any.
#[derive(Debug)]
pub struct ExecuteError {
    pub fault: Fault,
    pub message: String,
    pub details: Vec<String>,
}

/// Whether `status` is a success status.
pub open spec fn is_success(status: u16) -> bool {
    200 <= status < 300
}

/// The fault of `reply`, or `None` where the operation succeeded. A reply is
/// a success only as a whole: a success status, a decoded body, no server
/// error and data.
pub open spec fn fault_of<T>(reply: Reply<T>) -> Option<Fault> {
    match reply {
        Reply::Unreachable => Some(Fault::Transport),
        Reply::Answered { status, body } => if !is_success(status) {
            Some(Fault::Status)
        } else {
            match body {
                None => Some(Fault::Decode),
                Some(payload) => if payload.errors@.len() > 0 {
                    Some(Fault::Server)
                } else if payload.data.is_none() {
                    Some(Fault::Decode)
                } else {
                    None
                },
            }
        },
    }
}

/// The server's error texts in `reply`, where its fault is `Fault::Server`.
pub open spec fn server_errors<T>(reply: Reply<T>) -> Seq<Seq<char>> {
    match reply {
        Reply::Answered { status, body: Some(payload) } => if is_success(status) {
            views(payload.errors@)
        } else {
            Seq::empty()
        },
        _ => Seq::empty(),
    }
}

/// The data of `reply`, where it has no fault.
pub open spec fn data_of<T>(reply: Reply<T>) -> Option<T> {
    match reply {
        Reply::Answered { status, body: Some(payload) } => payload.data,
        _ => None,
    }
}

/// Settles one remote operation. Data is returned only where the reply has
/// no fault; every fault becomes an error that carries `error_message`.
pub fn settle<T>(reply: Reply<T>, error_message: &str) -> (outcome: Result<T, ExecuteError>)
    ensures
        match fault_of(reply) {
            None => outcome matches Ok(data) && data_of(reply) == Some(data),
            Some(fault) => outcome matches Err(error) && error.fault == fault && error.message@
                == error_message@ && views(error.details@) == server_errors(reply),
        },
{
    let ghost whole = reply;
    match reply {
        Reply::Unreachable => Err(failure(Fault::Transport, error_message)),
        Reply::Answered { status, body } => {
            if status < 200 || status >= 300 {
                let error = failure(Fault::Status, error_message);
                assert(views(error.details@) =~= server_errors(whole));
                return Err(error);
            }
            match body {
                None => Err(failure(Fault::Decode, error_message)),
                Some(payload) => {
                    if payload.errors.len() > 0 {
                        Err(
                            ExecuteError {
                                fault: Fault::Server,
                                message: String::from_str(error_message),
                                details: payload.errors,
                            },
                        )
                    } else {
                        assert(views(payload.errors@) =~= Seq::<Seq<char>>::empty());
                        match payload.data {
                            Some(data) => Ok(data),
                            None => Err(failure(Fault::Decode, error_message)),
                        }
                    }
                },
            }
        },
    }
}

/// An error of the given cause with no server texts.
fn failure(fault: Fault, error_message: &str) -> (error: ExecuteError)
    ensures
        error.fault == fault,
        error.message@ == error_message@,
        error.details@.len() == 0,
        views(error.details@) =~= Seq::<Seq<char>>::empty(),
{
    ExecuteError { fault, message: String::from_str(error_message), details: Vec::new() }
}

} // verus!
