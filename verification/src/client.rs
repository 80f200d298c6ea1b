//! A client of the service.
use crate::{CompileRequest, CompileResponse, CompilerError};
use vstd::prelude::*;

verus! {

/// How long a compilation may take, in seconds.
pub const COMPILE_DEADLINE_SECS: u64 = 120;

/// A client that talks to the service through the connection `T`.
#[derive(Clone)]
pub struct CompilerClient<T> {
    client: T,
}

/// A call of the service.
#[derive(Debug, Clone, PartialEq, Eq)]
pub struct Call {
    pub request: CompileRequest,
    /// How long the call may take, in seconds.
    pub deadline_secs: u64,
}

impl<T> View for CompilerClient<T> {
    type V = T;

    closed spec fn view(&self) -> T {
        self.client
    }
}

impl<T> CompilerClient<T> {
    /// A client for a connection that was made, if it was.
    pub fn connect<E>(connection: Result<T, E>) -> (r: Result<CompilerClient<T>, E>)
        ensures
            match connection {
                Ok(connection) => r matches Ok(client) && client@ == connection,
                Err(error) => r == Err::<CompilerClient<T>, E>(error),
            },
    {
        match connection {
            Ok(connection) => Ok(Self::raw_connect(connection)),
            Err(error) => Err(error),
        }
    }

    /// A client for a connection.
    pub fn raw_connect(connection: T) -> (client: CompilerClient<T>)
        ensures
            client@ == connection,
    {
        CompilerClient { client: connection }
    }

    /// The connection.
    pub fn connection(&self) -> (connection: &T)
        ensures
            *connection == self@,
    {
        &self.client
    }

    /// The call that has `code` compiled.
    pub fn compile(&self, code: &str) -> (call: Call)
        ensures
            call.request.code@ == code@,
            call.deadline_secs == COMPILE_DEADLINE_SECS,
    {
        Call {
            request: CompileRequest { code: code.to_owned() },
            deadline_secs: COMPILE_DEADLINE_SECS,
        }
    }

    /// What the reply to a call means; where the call itself failed, `reply` is
    /// the text of that error.
    pub fn compiled(reply: Result<Result<CompileResponse, CompilerError>, String>) -> (r: Result<
        CompileResponse,
        CompilerError,
    >)
        ensures
            r == match reply {
                Ok(answer) => answer,
                Err(error) => Err(CompilerError::IoError(error)),
            },
    {
        match reply {
            Ok(answer) => answer,
            Err(error) => Err(CompilerError::IoError(error)),
        }
    }
}

/// A client talks through the connection that was made, and a failure to connect is passed
/// on.
pub proof fn client_talks_through_its_connection<T, E>(
    connection: Result<T, E>,
    r: Result<CompilerClient<T>, E>,
)
    requires
        call_ensures(CompilerClient::<T>::connect::<E>, (connection,), r),
    ensures
        match connection {
            Ok(connection) => r matches Ok(client) && client@ == connection,
            Err(error) => r matches Err(told) && told == error,
        },
{
}

/// A call carries the whole code and may take two minutes.
pub proof fn calls_carry_the_code<T>(client: CompilerClient<T>, code: &str, call: Call)
    requires
        call_ensures(CompilerClient::<T>::compile, (&client, code), call),
    ensures
        call.request.code@ == code@,
        call.deadline_secs == 120,
{
}

} // verus!
