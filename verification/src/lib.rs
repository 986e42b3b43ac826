//! The verified core of a small gateway in front of the MyDay scheduling
//! API.
//!
//! The library sends nothing itself. It says which requests an operation
//! takes and what upstream's replies mean; a transport around it performs
//! the requests.

pub mod client;
pub mod error;
pub mod exchange;
pub mod request;
pub mod routes;
pub mod session;
pub mod sessions;

pub use client::Client;
pub use error::{GatewayError, RegisterError};
pub use sessions::Session;
