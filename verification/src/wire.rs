//! The boundary to `serde_json` and `jsonrpc_core`: the outside types that
//! the engine carries, and the outside calls that it makes. Nothing in this
//! file is proved; each contract says what the outside code is taken to do.
//!
//! The wire types of `jsonrpc_core` are imported under names that begin with
//! `Wire`, since this crate has types of the same names.

use vstd::prelude::*;
use jsonrpc_core::types::{
    Call as WireCall, Error as WireError, Id as WireId, Output as WireOutput,
    Params as WireParams,
};
use serde_json::Error as JsonError;
use crate::types::{
    Call, Error, ErrorCode, Failure, Id, MethodCall, Notification, Output, Params, Request,
    RequestView, Response, ResponseView, Success, Version,
};

verus! {

/// A JSON value of `serde_json`. The engine carries such values and never
/// looks inside one.
#[verifier::external_type_specification]
#[verifier::external_body]
pub struct ExValue(serde_json::Value);

/// A JSON object of `serde_json`: a collection of values under distinct keys.
#[verifier::external_type_specification]
#[verifier::external_body]
#[verifier::reject_recursive_types(K)]
#[verifier::reject_recursive_types(V)]
pub struct ExMap<K, V>(serde_json::Map<K, V>);

/// The entries of a JSON object: the value under each of its keys.
pub uninterp spec fn map_entries(object: serde_json::Map<String, serde_json::Value>) -> Map<
    Seq<char>,
    serde_json::Value,
>;

/// `serde_json::Map::remove`: takes the entry under `key` out of the object,
/// leaves every other entry as it was, and returns the value that was under
/// `key`, or `None` where the object had no such key.
#[verifier::external_body]
pub(crate) fn map_remove(
    object: &mut serde_json::Map<String, serde_json::Value>,
    key: &str,
) -> (value: Option<serde_json::Value>)
    ensures
        map_entries(*final(object)) == map_entries(*old(object)).remove(key@),
        map_entries(*old(object)).dom().contains(key@) ==> value == Some(
            map_entries(*old(object))[key@],
        ),
        !map_entries(*old(object)).dom().contains(key@) ==> value is None,
{
    object.remove(key)
}

/// `serde_json::Map::keys` and the first step of the iterator it returns: a
/// key of the object, or `None` where the object has no entry. Which key it
/// is, where there are several, is left open.
#[verifier::external_body]
pub(crate) fn map_first_key(object: &serde_json::Map<String, serde_json::Value>) -> (key: Option<
    String,
>)
    ensures
        key matches Some(name) ==> map_entries(*object).dom().contains(name@),
        key is None ==> map_entries(*object).dom() == Set::<Seq<char>>::empty(),
{
    object.keys().next().cloned()
}

/// The error of `serde_json`.
#[verifier::external_type_specification]
#[verifier::external_body]
pub struct ExJsonError(JsonError);

/// A call as `jsonrpc_core` reads it from the wire.
#[verifier::external_type_specification]
#[verifier::external_body]
pub struct ExWireCall(WireCall);

/// Parameters as `jsonrpc_core` reads them from the wire.
#[verifier::external_type_specification]
#[verifier::external_body]
pub struct ExWireParams(WireParams);

/// An identifier as `jsonrpc_core` reads and writes it.
#[verifier::external_type_specification]
#[verifier::external_body]
pub struct ExWireId(WireId);

/// An output as `jsonrpc_core` writes it to the wire.
#[verifier::external_type_specification]
#[verifier::external_body]
pub struct ExWireOutput(WireOutput);

/// An error object as `jsonrpc_core` writes it to the wire.
#[verifier::external_type_specification]
#[verifier::external_body]
pub struct ExWireError(WireError);

/// The request that a text stands for, `None` for a text that is no request.
pub uninterp spec fn parsed_request(text: Seq<char>) -> Option<RequestView>;

/// The text that stands for a response, `None` where it has none.
pub uninterp spec fn rendered_response(response: ResponseView) -> Option<Seq<char>>;

/// Moves an identifier of `jsonrpc_core` into the identifier of this crate,
/// variant by variant.
#[verifier::external_body]
fn id_from_wire(id: WireId) -> Id {
    match id {
        WireId::Null => Id::Null,
        WireId::Num(number) => Id::Num(number),
        WireId::Str(text) => Id::Str(text),
    }
}

/// Moves parameters of `jsonrpc_core` into the parameters of this crate,
/// variant by variant.
#[verifier::external_body]
fn params_from_wire(params: WireParams) -> Params {
    match params {
        WireParams::None => Params::Absent,
        WireParams::Array(values) => Params::Array(values),
        WireParams::Map(object) => Params::Named(object),
    }
}

/// Moves a call of `jsonrpc_core` into the call of this crate, variant by
/// variant and field by field.
#[verifier::external_body]
fn call_from_wire(call: WireCall) -> Call {
    let version = |v| match v { jsonrpc_core::Version::V2 => Version::V2 };
    match call {
        WireCall::MethodCall(c) => Call::MethodCall(MethodCall {
            jsonrpc: c.jsonrpc.map(version), method: c.method,
            params: params_from_wire(c.params), id: id_from_wire(c.id),
        }),
        WireCall::Notification(n) => Call::Notification(Notification {
            jsonrpc: n.jsonrpc.map(version), method: n.method,
            params: params_from_wire(n.params),
        }),
        WireCall::Invalid { id } => Call::Invalid { id: id_from_wire(id) },
    }
}

/// `serde_json::from_str` at the request type of `jsonrpc_core`: reads a text
/// as a JSON-RPC request, a single call or a batch. The result is a function
/// of the text alone; `None` stands for a text that `serde_json` refuses.
#[verifier::external_body]
pub(crate) fn parse_request(text: &str) -> (request: Option<Request>)
    ensures
        request.deep_view() == parsed_request(text@),
{
    match serde_json::from_str::<jsonrpc_core::Request>(text) {
        Ok(jsonrpc_core::Request::Single(call)) => Some(Request::Single(call_from_wire(call))),
        Ok(jsonrpc_core::Request::Batch(calls)) => {
            Some(Request::Batch(calls.into_iter().map(call_from_wire).collect()))
        },
        Err(_) => None,
    }
}

/// Moves an identifier of this crate into the identifier of `jsonrpc_core`,
/// variant by variant.
#[verifier::external_body]
fn id_to_wire(id: Id) -> WireId {
    match id {
        Id::Null => WireId::Null,
        Id::Num(number) => WireId::Num(number),
        Id::Str(text) => WireId::Str(text),
    }
}

/// Moves an error object of this crate into the error object of
/// `jsonrpc_core`, code by code and field by field.
#[verifier::external_body]
fn error_to_wire(error: Error) -> WireError {
    let code = match error.code {
        ErrorCode::ParseError => jsonrpc_core::ErrorCode::ParseError,
        ErrorCode::InvalidRequest => jsonrpc_core::ErrorCode::InvalidRequest,
        ErrorCode::MethodNotFound => jsonrpc_core::ErrorCode::MethodNotFound,
        ErrorCode::InvalidParams => jsonrpc_core::ErrorCode::InvalidParams,
        ErrorCode::InternalError => jsonrpc_core::ErrorCode::InternalError,
        ErrorCode::ServerError(number) => jsonrpc_core::ErrorCode::ServerError(number),
    };
    WireError { code, message: error.message, data: error.data }
}

/// Moves an output of this crate into the output of `jsonrpc_core`, variant
/// by variant and field by field.
#[verifier::external_body]
fn output_to_wire(output: Output) -> WireOutput {
    let version = |v| match v { Version::V2 => jsonrpc_core::Version::V2 };
    match output {
        Output::Success(s) => WireOutput::Success(jsonrpc_core::Success {
            jsonrpc: s.jsonrpc.map(version), result: s.result, id: id_to_wire(s.id),
        }),
        Output::Failure(f) => WireOutput::Failure(jsonrpc_core::Failure {
            jsonrpc: f.jsonrpc.map(version), error: error_to_wire(f.error),
            id: id_to_wire(f.id),
        }),
    }
}

/// `serde_json::to_string` at the response type of `jsonrpc_core`: writes a
/// response as JSON text. The result is a function of the response alone;
/// `None` stands for a response that `serde_json` fails to write.
#[verifier::external_body]
pub(crate) fn render_response(response: Response) -> (text: Option<String>)
    ensures
        text.deep_view() == rendered_response(response@),
{
    let wire = match response {
        Response::Single(output) => jsonrpc_core::Response::Single(output_to_wire(output)),
        Response::Batch(outputs) => {
            jsonrpc_core::Response::Batch(outputs.into_iter().map(output_to_wire).collect())
        },
    };
    serde_json::to_string(&wire).ok()
}

/// `serde_json::to_value`: turns a value into a JSON value as its
/// `Serialize` impl directs, or fails as that impl does.
#[verifier::external_body]
pub(crate) fn to_value<T: serde::Serialize>(value: &T) -> Result<
    serde_json::Value,
    JsonError,
> {
    serde_json::to_value(value)
}

} // verus!
