//! Errors of the JSON-RPC server set-up.
use vstd::prelude::*;

verus! {

/// Why building or extending the JSON-RPC server failed.
#[derive(Debug, Clone, PartialEq, Eq)]
pub enum ServerError {
    /// A method of this name is registered already.
    MethodAlreadyRegistered(String),
    /// An allowed origin is not a valid HTTP header value.
    InvalidHeaderValue,
    /// Any other error that the RPC server library reports, as its message.
    RpcServer(String),
}

} // verus!
