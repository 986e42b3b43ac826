//! What the HTTP routes decide: which operation a query asks for, and
//! under which status an outcome is reported.

use vstd::prelude::*;

use crate::error::{GatewayError, RegisterError};
use crate::exchange::{Operation, OperationView};

verus! {

/// The parameters of a search for sessions, as they come in the query
/// string. A search goes either by registration code or by a pair of
/// times.
#[derive(Debug, Clone, PartialEq, Eq)]
pub struct SessionsQuery {
    pub start_time: Option<String>,
    pub end_time: Option<String>,
    pub registration_code: Option<u64>,
}

impl SessionsQuery {
    /// Whether the query names exactly one way to search: a code and no
    /// time, or both times and no code.
    pub open spec fn valid(&self) -> bool {
        ||| self.registration_code is Some && self.start_time is None && self.end_time is None
        ||| self.registration_code is None && self.start_time is Some && self.end_time is Some
    }

    /// The search that a valid query asks for.
    pub open spec fn lookup(&self) -> OperationView
        recommends
            self.valid(),
    {
        match self.registration_code {
            Some(registration_code) => OperationView::SessionsFromCode { registration_code },
            None => OperationView::SessionsFromDate {
                start_time: self.start_time->0@,
                end_time: self.end_time->0@,
            },
        }
    }

    /// The two times, where both are given.
    pub fn start_end_times(&self) -> (times: Option<(&str, &str)>)
        ensures
            times is Some <==> self.start_time is Some && self.end_time is Some,
            times matches Some(pair) ==> pair.0@ == self.start_time->0@ && pair.1@
                == self.end_time->0@,
    {
        match (&self.start_time, &self.end_time) {
            (Some(start_time), Some(end_time)) => Some((start_time.as_str(), end_time.as_str())),
            _ => None,
        }
    }

    /// The registration code, where one is given.
    pub fn registration_code(&self) -> (code: Option<u64>)
        ensures
            code == self.registration_code,
    {
        self.registration_code
    }

    /// Whether the query names exactly one way to search. A code beside a
    /// time is refused, and so is a query that names nothing.
    pub fn is_valid(&self) -> (valid: bool)
        ensures
            valid == self.valid(),
            self.registration_code is Some && (self.start_time is Some || self.end_time is Some)
                ==> !valid,
            self.registration_code is None && self.start_time is None && self.end_time is None
                ==> !valid,
    {
        (self.registration_code.is_some() && self.start_time.is_none() && self.end_time.is_none())
            || (self.registration_code.is_none() && self.start_end_times().is_some())
    }
}

/// The status of a request that was served.
pub const OK: u16 = 200;

/// The status of a request that the caller got wrong.
pub const BAD_REQUEST: u16 = 400;

/// The status of a request that failed on the gateway's side.
pub const INTERNAL_SERVER_ERROR: u16 = 500;

/// The body that reports a session's expiry.
#[derive(Debug, Clone, PartialEq, Eq)]
pub struct ExpiryResponse {
    pub expiry: String,
}

/// What the expiry route answers: the body that holds the expiry as
/// upstream wrote it, or the status of the failure.
pub fn expiry(outcome: Result<String, GatewayError>) -> (answer: Result<ExpiryResponse, u16>)
    ensures
        match outcome {
            Ok(expires) => answer matches Ok(body) && body.expiry == expires,
            Err(error) => answer == Err::<ExpiryResponse, u16>(error.spec_status()),
        },
{
    match outcome {
        Ok(expires) => Ok(ExpiryResponse { expiry: expires }),
        Err(error) => Err(error.status()),
    }
}

/// The search that the sessions route runs for a query. A query that
/// names both a code and a time, or neither, is refused.
pub fn sessions(query: &SessionsQuery) -> (operation: Result<Operation, GatewayError>)
    ensures
        match operation {
            Ok(operation) => query.valid() && operation@ == query.lookup(),
            Err(error) => !query.valid() && error == GatewayError::ValidationError,
        },
        query.registration_code is Some && (query.start_time is Some || query.end_time is Some)
            ==> operation == Err::<Operation, GatewayError>(GatewayError::ValidationError),
        query.registration_code is None && query.start_time is None && query.end_time is None
            ==> operation == Err::<Operation, GatewayError>(GatewayError::ValidationError),
{
    if !query.is_valid() {
        return Err(GatewayError::ValidationError);
    }
    if let Some(registration_code) = query.registration_code() {
        return Ok(Operation::SessionsFromCode { registration_code });
    }
    match query.start_end_times() {
        Some((start_time, end_time)) => Ok(
            Operation::SessionsFromDate {
                start_time: start_time.to_owned(),
                end_time: end_time.to_owned(),
            },
        ),
        None => Err(GatewayError::ValidationError),
    }
}

/// The status that the register route answers with.
pub fn register(outcome: Result<(), RegisterError>) -> (status: u16)
    ensures
        status == match outcome {
            Ok(_) => OK,
            Err(error) => error.spec_status(),
        },
        status == OK <==> outcome is Ok,
{
    match outcome {
        Ok(_) => OK,
        Err(error) => error.status(),
    }
}

} // verus!
