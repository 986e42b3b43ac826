//! The ways in which an operation of the gateway can fail.

use vstd::prelude::*;

use crate::routes::{BAD_REQUEST, INTERNAL_SERVER_ERROR};

verus! {

/// Why an operation did not yield its result.
#[derive(Debug, Clone, Copy, PartialEq, Eq, Structural)]
pub enum GatewayError {
    /// The identity token does not parse into header, claims and
    /// signature, or its claims name no session.
    MalformedCredential,
    /// Upstream could not be reached.
    UpstreamUnavailable,
    /// Upstream answered, but not in the shape that was awaited.
    UpstreamProtocolError,
    /// The caller's parameters are contradictory or missing.
    ValidationError,
}

impl GatewayError {
    /// The HTTP status under which the failure is reported: a client error
    /// where the caller's parameters are at fault, a server error where
    /// the credential or upstream is.
    pub open spec fn spec_status(self) -> u16 {
        if self == GatewayError::ValidationError {
            BAD_REQUEST
        } else {
            INTERNAL_SERVER_ERROR
        }
    }

    /// The HTTP status under which the failure is reported.
    pub fn status(&self) -> (code: u16)
        ensures
            code == self.spec_status(),
    {
        match self {
            GatewayError::ValidationError => BAD_REQUEST,
            _ => INTERNAL_SERVER_ERROR,
        }
    }
}

/// Why a registration did not go through.
#[derive(Debug, Clone, Copy, PartialEq, Eq, Structural)]
pub enum RegisterError {
    /// Upstream answered and turned the registration down.
    InvalidSessionDetails,
    /// No usable answer came back.
    RequestError,
}

impl RegisterError {
    /// The HTTP status under which the failure is reported: a client error
    /// where upstream turned the details down, a server error otherwise.
    pub open spec fn spec_status(self) -> u16 {
        match self {
            RegisterError::InvalidSessionDetails => BAD_REQUEST,
            RegisterError::RequestError => INTERNAL_SERVER_ERROR,
        }
    }

    /// The HTTP status under which the failure is reported.
    pub fn status(&self) -> (code: u16)
        ensures
            code == self.spec_status(),
    {
        match self {
            RegisterError::InvalidSessionDetails => BAD_REQUEST,
            RegisterError::RequestError => INTERNAL_SERVER_ERROR,
        }
    }
}

} // verus!
