//! The dispatcher on structured calls, the transport adapter and the result
//! serializer.

use easy_jsonrpc::serialize::{serialization_error, try_serialize};
use easy_jsonrpc::server::is_reserved_name;
use easy_jsonrpc::transport::{parse, parsed_or_invalid, render, rendered_or_diagnostic};
use easy_jsonrpc::{
    Call, Error, ErrorCode, Failure, Id, JSONRPCServer, MethodCall, Notification, Output, Params,
    Request, Response, Success, Value, Version,
};
use std::cell::RefCell;

/// Answers `echo` with its first parameter and `boom` with an error of its
/// own, and keeps the names of the methods that it was asked for.
struct Recorder {
    asked: RefCell<Vec<String>>,
}

impl Recorder {
    fn new() -> Recorder {
        Recorder { asked: RefCell::new(Vec::new()) }
    }
}

fn boom() -> Error {
    Error { code: ErrorCode::ServerError(42), message: "boom".to_string(), data: Some(Value::from(1)) }
}

impl JSONRPCServer for Recorder {
    fn handle(&self, method: &str, params: Params) -> Result<Value, Error> {
        self.asked.borrow_mut().push(method.to_string());
        match (method, params) {
            ("echo", Params::Array(mut values)) if !values.is_empty() => Ok(values.remove(0)),
            ("echo", _) => Ok(Value::Null),
            ("boom", _) => Err(boom()),
            _ => Err(Error::method_not_found()),
        }
    }
}

fn method_call(method: &str, value: i64, id: Id) -> Call {
    Call::MethodCall(MethodCall {
        jsonrpc: Some(Version::V2),
        method: method.to_string(),
        params: Params::Array(vec![Value::from(value)]),
        id,
    })
}

fn notification(method: &str) -> Call {
    Call::Notification(Notification {
        jsonrpc: Some(Version::V2),
        method: method.to_string(),
        params: Params::Absent,
    })
}

fn success(value: i64, id: Id) -> Output {
    Output::Success(Success { jsonrpc: Some(Version::V2), result: Value::from(value), id })
}

#[test]
fn method_call_is_answered_under_its_id_and_version() {
    let server = Recorder::new();
    assert_eq!(
        server.handle_call(method_call("echo", 5, Id::Num(9))),
        Some(success(5, Id::Num(9)))
    );
    let call = Call::MethodCall(MethodCall {
        jsonrpc: None,
        method: "echo".to_string(),
        params: Params::Array(vec![Value::from("v")]),
        id: Id::Str("abc".to_string()),
    });
    assert_eq!(
        server.handle_call(call),
        Some(Output::Success(Success {
            jsonrpc: None,
            result: Value::from("v"),
            id: Id::Str("abc".to_string()),
        }))
    );
}

#[test]
fn handler_error_becomes_failure_under_the_id() {
    let server = Recorder::new();
    assert_eq!(
        server.handle_call(method_call("boom", 0, Id::Null)),
        Some(Output::Failure(Failure { jsonrpc: Some(Version::V2), error: boom(), id: Id::Null }))
    );
}

#[test]
fn unregistered_method_is_method_not_found() {
    let server = Recorder::new();
    for name in ["", "nonexist", "Echo", "echo ", "rpc.echo"] {
        let out = server.handle_call(method_call(name, 1, Id::Num(1)));
        assert_eq!(
            out,
            Some(Output::Failure(Failure {
                jsonrpc: Some(Version::V2),
                error: Error {
                    code: ErrorCode::MethodNotFound,
                    message: "Method not found".to_string(),
                    data: None,
                },
                id: Id::Num(1),
            }))
        );
    }
}

#[test]
fn notification_is_handled_and_never_answered() {
    let server = Recorder::new();
    assert_eq!(server.handle_call(notification("echo")), None);
    assert_eq!(server.handle_call(notification("boom")), None);
    assert_eq!(server.handle_call(notification("nonexist")), None);
    assert_eq!(*server.asked.borrow(), vec!["echo", "boom", "nonexist"]);
}

#[test]
fn invalid_entry_is_invalid_request() {
    let server = Recorder::new();
    for id in [Id::Null, Id::Num(3), Id::Str("k".to_string())] {
        let expected = Output::Failure(Failure {
            jsonrpc: Some(Version::V2),
            error: Error {
                code: ErrorCode::InvalidRequest,
                message: "Invalid request".to_string(),
                data: None,
            },
            id: id.clone(),
        });
        assert_eq!(server.handle_call(Call::Invalid { id }), Some(expected));
    }
    assert!(server.asked.borrow().is_empty());
}

#[test]
fn single_request_maps_its_output() {
    let server = Recorder::new();
    assert_eq!(
        server.handle_parsed(Request::Single(method_call("echo", 1, Id::Num(1)))),
        Some(Response::Single(success(1, Id::Num(1))))
    );
    assert_eq!(server.handle_parsed(Request::Single(notification("echo"))), None);
}

#[test]
fn batch_outputs_follow_the_calls() {
    let server = Recorder::new();
    let batch = Request::Batch(vec![
        method_call("echo", 1, Id::Num(1)),
        notification("boom"),
        method_call("echo", 2, Id::Num(2)),
        Call::Invalid { id: Id::Null },
        notification("echo"),
        method_call("boom", 3, Id::Num(3)),
    ]);
    assert_eq!(
        server.handle_parsed(batch),
        Some(Response::Batch(vec![
            success(1, Id::Num(1)),
            success(2, Id::Num(2)),
            Output::invalid_request(Id::Null),
            Output::Failure(Failure { jsonrpc: Some(Version::V2), error: boom(), id: Id::Num(3) }),
        ]))
    );
    assert_eq!(*server.asked.borrow(), vec!["echo", "boom", "echo", "echo", "boom"]);
}

#[test]
fn batch_of_one_is_still_a_batch() {
    let server = Recorder::new();
    assert_eq!(
        server.handle_parsed(Request::Batch(vec![method_call("echo", 4, Id::Num(4))])),
        Some(Response::Batch(vec![success(4, Id::Num(4))]))
    );
}

#[test]
fn notifications_only_give_no_response() {
    let server = Recorder::new();
    assert_eq!(server.handle_parsed(Request::Batch(vec![])), None);
    assert_eq!(server.handle_parsed(Request::Batch(vec![notification("echo")])), None);
    assert_eq!(
        server.handle_parsed(Request::Batch(vec![
            notification("boom"),
            notification("nonexist"),
            notification("echo"),
        ])),
        None
    );
}

#[test]
fn output_from_result_wraps_both_cases() {
    assert_eq!(
        Output::from_result(Ok(Value::from(1)), Id::Num(1), Some(Version::V2)),
        success(1, Id::Num(1))
    );
    assert_eq!(
        Output::from_result(Err(boom()), Id::Str("s".to_string()), None),
        Output::Failure(Failure { jsonrpc: None, error: boom(), id: Id::Str("s".to_string()) })
    );
}

#[test]
fn error_constructors() {
    assert_eq!(
        Error::invalid_request(),
        Error { code: ErrorCode::InvalidRequest, message: "Invalid request".to_string(), data: None }
    );
    assert_eq!(
        Error::method_not_found(),
        Error { code: ErrorCode::MethodNotFound, message: "Method not found".to_string(), data: None }
    );
    assert_eq!(
        Error::invalid_params("why".to_string()),
        Error { code: ErrorCode::InvalidParams, message: "why".to_string(), data: None }
    );
    assert_eq!(Error::new(ErrorCode::ParseError).message, "Parse error");
    assert_eq!(Error::new(ErrorCode::InternalError).message, "Internal error");
    assert_eq!(Error::new(ErrorCode::InvalidParams).message, "Invalid params");
    assert_eq!(Error::new(ErrorCode::ServerError(5)).message, "Server error");
}

#[test]
fn error_codes_on_the_wire() {
    assert_eq!(ErrorCode::ParseError.code(), -32700);
    assert_eq!(ErrorCode::InvalidRequest.code(), -32600);
    assert_eq!(ErrorCode::MethodNotFound.code(), -32601);
    assert_eq!(ErrorCode::InvalidParams.code(), -32602);
    assert_eq!(ErrorCode::InternalError.code(), -32603);
    assert_eq!(ErrorCode::ServerError(8).code(), 8);
    assert_eq!(ErrorCode::ServerError(-32000).code(), -32000);
}

#[test]
fn error_codes_agree_with_the_wire_library() {
    let codes = [
        ErrorCode::ParseError,
        ErrorCode::InvalidRequest,
        ErrorCode::MethodNotFound,
        ErrorCode::InvalidParams,
        ErrorCode::InternalError,
        ErrorCode::ServerError(8),
    ];
    for code in codes {
        let wire = jsonrpc_core::ErrorCode::from(code.code());
        assert_eq!(wire.code(), code.code());
        assert_eq!(wire.description(), code.description());
    }
}

#[test]
fn parse_reads_single_calls() {
    assert_eq!(
        parse(r#"{"jsonrpc":"2.0","method":"m","params":[1,"a"],"id":"x"}"#),
        Request::Single(Call::MethodCall(MethodCall {
            jsonrpc: Some(Version::V2),
            method: "m".to_string(),
            params: Params::Array(vec![Value::from(1), Value::from("a")]),
            id: Id::Str("x".to_string()),
        }))
    );
    let mut named = serde_json::Map::new();
    named.insert("k".to_string(), Value::from(true));
    assert_eq!(
        parse(r#"{"method":"m","params":{"k":true}}"#),
        Request::Single(Call::Notification(Notification {
            jsonrpc: None,
            method: "m".to_string(),
            params: Params::Named(named),
        }))
    );
    assert_eq!(
        parse(r#"{"jsonrpc":"2.0","method":"m","id":null}"#),
        Request::Single(Call::MethodCall(MethodCall {
            jsonrpc: Some(Version::V2),
            method: "m".to_string(),
            params: Params::Absent,
            id: Id::Null,
        }))
    );
}

#[test]
fn parse_reads_batches_in_order() {
    assert_eq!(
        parse(r#"[{"method":"a","id":1},{"method":"b"},{"id":2},{"method":"c","id":3}]"#),
        Request::Batch(vec![
            Call::MethodCall(MethodCall {
                jsonrpc: None,
                method: "a".to_string(),
                params: Params::Absent,
                id: Id::Num(1),
            }),
            Call::Notification(Notification {
                jsonrpc: None,
                method: "b".to_string(),
                params: Params::Absent,
            }),
            Call::Invalid { id: Id::Num(2) },
            Call::MethodCall(MethodCall {
                jsonrpc: None,
                method: "c".to_string(),
                params: Params::Absent,
                id: Id::Num(3),
            }),
        ])
    );
}

#[test]
fn parse_degrades_to_invalid_call() {
    for text in ["", "{", "nonsense", "[1,2", "\"text\" trailing"] {
        assert_eq!(parse(text), Request::Single(Call::Invalid { id: Id::Null }));
    }
}

#[test]
fn parsed_or_invalid_chooses() {
    assert_eq!(parsed_or_invalid(None), Request::Single(Call::Invalid { id: Id::Null }));
    assert_eq!(
        parsed_or_invalid(Some(Request::Batch(vec![notification("n")]))),
        Request::Batch(vec![notification("n")])
    );
}

#[test]
fn render_writes_outputs() {
    assert_eq!(
        render(Response::Single(success(3, Id::Num(1)))),
        r#"{"jsonrpc":"2.0","result":3,"id":1}"#
    );
    assert_eq!(
        render(Response::Single(Output::Failure(Failure {
            jsonrpc: None,
            error: boom(),
            id: Id::Str("q".to_string()),
        }))),
        r#"{"error":{"code":42,"message":"boom","data":1},"id":"q"}"#
    );
    assert_eq!(
        render(Response::Batch(vec![success(1, Id::Null), Output::invalid_request(Id::Num(2))])),
        r#"[{"jsonrpc":"2.0","result":1,"id":null},{"jsonrpc":"2.0","error":{"code":-32600,"message":"Invalid request"},"id":2}]"#
    );
    assert_eq!(render(Response::Batch(vec![])), "[]");
}

#[test]
fn render_writes_every_error_code() {
    let codes = [
        (ErrorCode::ParseError, -32700),
        (ErrorCode::InvalidRequest, -32600),
        (ErrorCode::MethodNotFound, -32601),
        (ErrorCode::InvalidParams, -32602),
        (ErrorCode::InternalError, -32603),
        (ErrorCode::ServerError(8), 8),
    ];
    for (code, number) in codes {
        let text = render(Response::Single(Output::Failure(Failure {
            jsonrpc: Some(Version::V2),
            error: Error { code, message: "m".to_string(), data: None },
            id: Id::Num(1),
        })));
        assert_eq!(
            text,
            format!(r#"{{"jsonrpc":"2.0","error":{{"code":{},"message":"m"}},"id":1}}"#, number)
        );
    }
}

#[test]
fn rendered_or_diagnostic_chooses() {
    assert_eq!(rendered_or_diagnostic(Some("{}".to_string())), "{}");
    assert_eq!(rendered_or_diagnostic(None), "unexpected serialization error, this is a bug");
}

struct Unserializable;

impl serde::Serialize for Unserializable {
    fn serialize<S: serde::Serializer>(&self, _serializer: S) -> Result<S::Ok, S::Error> {
        Err(serde::ser::Error::custom("poisoned lock"))
    }
}

#[test]
fn try_serialize_gives_the_value() {
    assert_eq!(try_serialize(&5), Ok(Value::from(5)));
    assert_eq!(try_serialize(&"text"), Ok(Value::from("text")));
    assert_eq!(try_serialize(&()), Ok(Value::Null));
    assert_eq!(
        try_serialize(&vec![Some(1), None]),
        Ok(Value::Array(vec![Value::from(1), Value::Null]))
    );
}

#[test]
fn try_serialize_reports_failure_as_server_error() {
    assert_eq!(
        try_serialize(&Unserializable),
        Err(Error {
            code: ErrorCode::ServerError(8),
            message: "Error serializing response. poisoned lock".to_string(),
            data: None,
        })
    );
}

#[test]
fn serialization_error_object() {
    assert_eq!(
        serialization_error("cause"),
        Error {
            code: ErrorCode::ServerError(8),
            message: "Error serializing response. cause".to_string(),
            data: None,
        }
    );
}

#[test]
fn reserved_names_begin_with_the_prefix() {
    assert!(is_reserved_name("rpc."));
    assert!(is_reserved_name("rpc.discover"));
    assert!(!is_reserved_name("rpc"));
    assert!(!is_reserved_name("rpcx"));
    assert!(!is_reserved_name(""));
    assert!(!is_reserved_name("Rpc.x"));
    assert!(!is_reserved_name("xrpc.y"));
    assert!(!is_reserved_name("r\u{e9}c."));
}

#[test]
fn error_constructors_agree_with_the_wire_library() {
    let pairs = [
        (Error::invalid_request(), jsonrpc_core::Error::invalid_request()),
        (Error::method_not_found(), jsonrpc_core::Error::method_not_found()),
        (Error::invalid_params("m".to_string()), jsonrpc_core::Error::invalid_params("m")),
        (Error::new(ErrorCode::ParseError), jsonrpc_core::Error::parse_error()),
        (Error::new(ErrorCode::InternalError), jsonrpc_core::Error::internal_error()),
    ];
    for (ours, theirs) in pairs {
        assert_eq!(ours.code.code(), theirs.code.code());
        assert_eq!(ours.message, theirs.message);
        assert_eq!(ours.data, theirs.data);
    }
}
