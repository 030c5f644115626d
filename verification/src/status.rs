//! How outcomes are shown to an HTTP client: the status code of each.

use crate::records::Error;
use vstd::prelude::*;

verus! {

/// The operations that are offered to clients.
#[derive(Clone, Copy, Debug, PartialEq, Eq, Structural)]
pub enum Operation {
    /// Create a user.
    AddUser,
    /// Fetch a user by id.
    GetUser,
    /// Log in as a user.
    Login,
    /// Ask who is logged in.
    UserStatus,
    /// Subscribe the logged-in user to a feed.
    Subscribe,
}

/// The status code of an operation that succeeded: 201 where it created
/// something, 200 else.
pub open spec fn success_code(op: Operation) -> u16 {
    match op {
        Operation::AddUser | Operation::Subscribe => 201,
        Operation::GetUser | Operation::Login | Operation::UserStatus => 200,
    }
}

/// The status code of an error: 404 for what was not found, 400 for what the
/// client may not or cannot ask, 500 for failures on this side.
pub open spec fn error_code(e: Error) -> u16 {
    match e {
        Error::NotFound => 404,
        Error::Unauthorized | Error::InvalidUrl => 400,
        Error::DbError | Error::Transport | Error::Parse => 500,
    }
}

/// The status code with which a successful operation is answered.
pub fn success_status(op: Operation) -> (code: u16)
    ensures
        code == success_code(op),
{
    match op {
        Operation::AddUser => 201,
        Operation::Subscribe => 201,
        _ => 200,
    }
}

/// The status code with which an error is answered.
pub fn error_status(e: Error) -> (code: u16)
    ensures
        code == error_code(e),
{
    match e {
        Error::NotFound => 404,
        Error::Unauthorized => 400,
        Error::InvalidUrl => 400,
        _ => 500,
    }
}

} // verus!
