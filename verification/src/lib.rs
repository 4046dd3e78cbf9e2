//! Request/response engine of a JSON-RPC 2.0 call dispatcher.
//!
//! A server implements [`JSONRPCServer::handle`], which answers one method
//! for given parameters. The trait provides the rest: dispatching a call, a
//! request or a request text, with the rule that notifications are never
//! answered. [`get_rpc_args`] arranges the parameters of a call for a method
//! with given parameter names, and [`try_serialize`] turns what the method
//! returned into a JSON value.

pub mod args;
pub mod serialize;
pub mod server;
pub mod text;
pub mod transport;
pub mod types;
pub mod wire;

pub use args::{get_rpc_args, InvalidArgs};
pub use serde_json;
pub use serde_json::Value;
pub use serialize::try_serialize;
pub use server::JSONRPCServer;
pub use types::{
    Call, Error, ErrorCode, Failure, Id, MethodCall, Notification, Output, Params, Request,
    Response, Success, Version,
};
