//! Verified core of the Sui JSON-RPC server set-up, the GraphQL root query
//! decisions and the bridge error type.
pub mod bridge_error;
pub mod cors;
pub mod error;
pub mod methods;
pub mod query;
pub mod routing;
pub mod rpc_doc;
pub mod server;
