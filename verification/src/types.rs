//! The data model of a JSON-RPC 2.0 exchange: calls, outputs, the envelopes
//! around them and the error object, each with its mathematical view.

use vstd::prelude::*;
use crate::wire::map_entries;
use serde_json::Value;

verus! {

/// Identifier of a call. A notification has no identifier at all.
#[derive(Debug, Clone, PartialEq, Eq, Hash)]
pub enum Id {
    /// The JSON `null`.
    Null,
    /// A numeric identifier.
    Num(u64),
    /// A string identifier.
    Str(String),
}

/// Protocol version tag.
#[derive(Debug, Clone, Copy, PartialEq, Eq, Hash)]
pub enum Version {
    /// JSON-RPC 2.0.
    V2,
}

/// Error code of a failure.
#[derive(Debug, Clone, PartialEq, Eq)]
pub enum ErrorCode {
    /// The text received was not valid JSON.
    ParseError,
    /// The JSON received is not a valid request object.
    InvalidRequest,
    /// The method does not exist.
    MethodNotFound,
    /// Invalid method parameters.
    InvalidParams,
    /// Internal error.
    InternalError,
    /// A code from the range left to the server.
    ServerError(i64),
}

/// Error object of a failure.
#[derive(Debug, PartialEq)]
pub struct Error {
    /// What kind of error this is.
    pub code: ErrorCode,
    /// A short description for a human reader.
    pub message: String,
    /// Further structured information, if any.
    pub data: Option<Value>,
}

/// The parameters of a call.
#[derive(Debug, PartialEq)]
pub enum Params {
    /// No parameters were given.
    Absent,
    /// Parameters by position.
    Array(Vec<Value>),
    /// Parameters by name.
    Named(serde_json::Map<String, Value>),
}

/// A call that expects an answer.
#[derive(Debug, PartialEq)]
pub struct MethodCall {
    /// Protocol version, if the caller named one.
    pub jsonrpc: Option<Version>,
    /// Name of the method to invoke.
    pub method: String,
    /// Parameters of the invocation.
    pub params: Params,
    /// Identifier that the answer repeats.
    pub id: Id,
}

/// A call that expects no answer.
#[derive(Debug, PartialEq)]
pub struct Notification {
    /// Protocol version, if the caller named one.
    pub jsonrpc: Option<Version>,
    /// Name of the method to invoke.
    pub method: String,
    /// Parameters of the invocation.
    pub params: Params,
}

/// One entry of a request.
#[derive(Debug, PartialEq)]
pub enum Call {
    /// A call that expects an answer.
    MethodCall(MethodCall),
    /// A call that expects no answer.
    Notification(Notification),
    /// An entry that is no well-formed call.
    Invalid {
        /// The identifier of the entry, `Id::Null` where none could be read.
        id: Id,
    },
}

/// A request: one call, or a batch of calls in order.
#[derive(Debug, PartialEq)]
pub enum Request {
    /// A single call.
    Single(Call),
    /// A batch of calls.
    Batch(Vec<Call>),
}

/// The answer to a call that succeeded.
#[derive(Debug, PartialEq)]
pub struct Success {
    /// Protocol version of the call.
    pub jsonrpc: Option<Version>,
    /// What the method returned.
    pub result: Value,
    /// Identifier of the call.
    pub id: Id,
}

/// The answer to a call that failed.
#[derive(Debug, PartialEq)]
pub struct Failure {
    /// Protocol version of the call.
    pub jsonrpc: Option<Version>,
    /// Why the call failed.
    pub error: Error,
    /// Identifier of the call.
    pub id: Id,
}

/// The answer to one call.
#[derive(Debug, PartialEq)]
pub enum Output {
    /// The call succeeded.
    Success(Success),
    /// The call failed.
    Failure(Failure),
}

/// A response: one output, or a batch of outputs in the order of their calls.
#[derive(Debug, PartialEq)]
pub enum Response {
    /// The answer to a single call.
    Single(Output),
    /// The answers to a batch.
    Batch(Vec<Output>),
}

/// Model of an [`Id`].
pub enum IdView {
    Null,
    Num(u64),
    Str(Seq<char>),
}

/// Model of an [`Error`].
pub struct ErrorView {
    pub code: ErrorCode,
    pub message: Seq<char>,
    pub data: Option<Value>,
}

/// Model of [`Params`]: named parameters are a map from name to value.
pub enum ParamsView {
    Absent,
    Array(Seq<Value>),
    Named(Map<Seq<char>, Value>),
}

/// Model of a [`Call`].
pub enum CallView {
    MethodCall { jsonrpc: Option<Version>, method: Seq<char>, params: ParamsView, id: IdView },
    Notification { jsonrpc: Option<Version>, method: Seq<char>, params: ParamsView },
    Invalid { id: IdView },
}

/// Model of a [`Request`].
pub enum RequestView {
    Single(CallView),
    Batch(Seq<CallView>),
}

/// Model of an [`Output`].
pub enum OutputView {
    Success { jsonrpc: Option<Version>, result: Value, id: IdView },
    Failure { jsonrpc: Option<Version>, error: ErrorView, id: IdView },
}

/// Model of a [`Response`].
pub enum ResponseView {
    Single(OutputView),
    Batch(Seq<OutputView>),
}

impl View for Id {
    type V = IdView;

    open spec fn view(&self) -> IdView {
        match *self {
            Id::Null => IdView::Null,
            Id::Num(n) => IdView::Num(n),
            Id::Str(s) => IdView::Str(s@),
        }
    }
}

impl View for Error {
    type V = ErrorView;

    open spec fn view(&self) -> ErrorView {
        ErrorView { code: self.code, message: self.message@, data: self.data }
    }
}

impl View for Params {
    type V = ParamsView;

    open spec fn view(&self) -> ParamsView {
        match *self {
            Params::Absent => ParamsView::Absent,
            Params::Array(values) => ParamsView::Array(values@),
            Params::Named(object) => ParamsView::Named(map_entries(object)),
        }
    }
}

impl View for MethodCall {
    type V = CallView;

    open spec fn view(&self) -> CallView {
        CallView::MethodCall {
            jsonrpc: self.jsonrpc,
            method: self.method@,
            params: self.params@,
            id: self.id@,
        }
    }
}

impl View for Notification {
    type V = CallView;

    open spec fn view(&self) -> CallView {
        CallView::Notification { jsonrpc: self.jsonrpc, method: self.method@, params: self.params@ }
    }
}

impl View for Call {
    type V = CallView;

    open spec fn view(&self) -> CallView {
        match *self {
            Call::MethodCall(call) => call@,
            Call::Notification(notification) => notification@,
            Call::Invalid { id } => CallView::Invalid { id: id@ },
        }
    }
}

impl DeepView for Call {
    type V = CallView;

    open spec fn deep_view(&self) -> CallView {
        self@
    }
}

impl View for Request {
    type V = RequestView;

    open spec fn view(&self) -> RequestView {
        match *self {
            Request::Single(call) => RequestView::Single(call@),
            Request::Batch(calls) => RequestView::Batch(calls.deep_view()),
        }
    }
}

impl DeepView for Request {
    type V = RequestView;

    open spec fn deep_view(&self) -> RequestView {
        self@
    }
}

impl View for Success {
    type V = OutputView;

    open spec fn view(&self) -> OutputView {
        OutputView::Success { jsonrpc: self.jsonrpc, result: self.result, id: self.id@ }
    }
}

impl View for Failure {
    type V = OutputView;

    open spec fn view(&self) -> OutputView {
        OutputView::Failure { jsonrpc: self.jsonrpc, error: self.error@, id: self.id@ }
    }
}

impl View for Output {
    type V = OutputView;

    open spec fn view(&self) -> OutputView {
        match *self {
            Output::Success(success) => success@,
            Output::Failure(failure) => failure@,
        }
    }
}

impl DeepView for Output {
    type V = OutputView;

    open spec fn deep_view(&self) -> OutputView {
        self@
    }
}

impl View for Response {
    type V = ResponseView;

    open spec fn view(&self) -> ResponseView {
        match *self {
            Response::Single(output) => ResponseView::Single(output@),
            Response::Batch(outputs) => ResponseView::Batch(outputs.deep_view()),
        }
    }
}

impl DeepView for Response {
    type V = ResponseView;

    open spec fn deep_view(&self) -> ResponseView {
        self@
    }
}

/// Model of what a handler returns: a value, or the model of an error.
pub open spec fn result_view(res: Result<Value, Error>) -> Result<Value, ErrorView> {
    match res {
        Ok(value) => Ok(value),
        Err(error) => Err(error@),
    }
}

impl ErrorCode {
    /// The number that stands for this code on the wire.
    pub open spec fn spec_code(self) -> int {
        match self {
            ErrorCode::ParseError => -32700,
            ErrorCode::InvalidRequest => -32600,
            ErrorCode::MethodNotFound => -32601,
            ErrorCode::InvalidParams => -32602,
            ErrorCode::InternalError => -32603,
            ErrorCode::ServerError(code) => code as int,
        }
    }

    /// The number that stands for this code on the wire.
    pub fn code(&self) -> (n: i64)
        ensures
            n == self.spec_code(),
    {
        match self {
            ErrorCode::ParseError => -32700,
            ErrorCode::InvalidRequest => -32600,
            ErrorCode::MethodNotFound => -32601,
            ErrorCode::InvalidParams => -32602,
            ErrorCode::InternalError => -32603,
            ErrorCode::ServerError(code) => *code,
        }
    }

    /// The standard description of this code.
    pub open spec fn spec_description(self) -> Seq<char> {
        match self {
            ErrorCode::ParseError => "Parse error"@,
            ErrorCode::InvalidRequest => "Invalid request"@,
            ErrorCode::MethodNotFound => "Method not found"@,
            ErrorCode::InvalidParams => "Invalid params"@,
            ErrorCode::InternalError => "Internal error"@,
            ErrorCode::ServerError(_) => "Server error"@,
        }
    }

    /// The standard description of this code.
    pub fn description(&self) -> (text: String)
        ensures
            text@ == self.spec_description(),
    {
        let text = match self {
            ErrorCode::ParseError => "Parse error",
            ErrorCode::InvalidRequest => "Invalid request",
            ErrorCode::MethodNotFound => "Method not found",
            ErrorCode::InvalidParams => "Invalid params",
            ErrorCode::InternalError => "Internal error",
            ErrorCode::ServerError(_) => "Server error",
        };
        text.to_owned()
    }
}

impl ErrorView {
    /// The error that carries `code`, its standard description and no data.
    pub open spec fn new(code: ErrorCode) -> ErrorView {
        ErrorView { code, message: code.spec_description(), data: None }
    }

    /// The error for an entry that is no well-formed call.
    pub open spec fn invalid_request() -> ErrorView {
        ErrorView::new(ErrorCode::InvalidRequest)
    }

    /// The error for a method that the server does not have.
    pub open spec fn method_not_found() -> ErrorView {
        ErrorView::new(ErrorCode::MethodNotFound)
    }

    /// The error for parameters that do not fit the method, with its own message.
    pub open spec fn invalid_params(message: Seq<char>) -> ErrorView {
        ErrorView { code: ErrorCode::InvalidParams, message, data: None }
    }
}

impl Error {
    /// The error that carries `code`, its standard description and no data.
    pub fn new(code: ErrorCode) -> (error: Error)
        ensures
            error@ == ErrorView::new(code),
    {
        let message = code.description();
        Error { code, message, data: None }
    }

    /// The error for an entry that is no well-formed call.
    pub fn invalid_request() -> (error: Error)
        ensures
            error@ == ErrorView::invalid_request(),
    {
        Error::new(ErrorCode::InvalidRequest)
    }

    /// The error for a method that the server does not have.
    pub fn method_not_found() -> (error: Error)
        ensures
            error@ == ErrorView::method_not_found(),
    {
        Error::new(ErrorCode::MethodNotFound)
    }

    /// The error for parameters that do not fit the method, with its own message.
    pub fn invalid_params(message: String) -> (error: Error)
        ensures
            error@ == ErrorView::invalid_params(message@),
    {
        Error { code: ErrorCode::InvalidParams, message, data: None }
    }
}

impl CallView {
    /// The identifier that the answer to this entry carries. A notification
    /// has none; the null identifier stands for that here.
    pub open spec fn id(self) -> IdView {
        match self {
            CallView::MethodCall { id, .. } => id,
            CallView::Notification { .. } => IdView::Null,
            CallView::Invalid { id } => id,
        }
    }
}

impl OutputView {
    /// The identifier of the call that this output answers.
    pub open spec fn id(self) -> IdView {
        match self {
            OutputView::Success { id, .. } => id,
            OutputView::Failure { id, .. } => id,
        }
    }

    /// The output that answers a call with what its handler returned.
    pub open spec fn from_result(
        result: Result<Value, ErrorView>,
        id: IdView,
        jsonrpc: Option<Version>,
    ) -> OutputView {
        match result {
            Ok(result) => OutputView::Success { jsonrpc, result, id },
            Err(error) => OutputView::Failure { jsonrpc, error, id },
        }
    }

    /// The output that answers an entry that is no well-formed call.
    pub open spec fn invalid_request(id: IdView) -> OutputView {
        OutputView::Failure {
            jsonrpc: Some(Version::V2),
            error: ErrorView::invalid_request(),
            id,
        }
    }
}

impl Output {
    /// Wraps what a handler returned into the output for the call with this
    /// identifier and version: a success for a value, a failure for an error.
    pub fn from_result(result: Result<Value, Error>, id: Id, jsonrpc: Option<Version>) -> (output:
        Output)
        ensures
            output@ == OutputView::from_result(result_view(result), id@, jsonrpc),
    {
        match result {
            Ok(result) => Output::Success(Success { jsonrpc, result, id }),
            Err(error) => Output::Failure(Failure { jsonrpc, error, id }),
        }
    }

    /// The failure that answers an entry that is no well-formed call.
    pub fn invalid_request(id: Id) -> (output: Output)
        ensures
            output@ == OutputView::invalid_request(id@),
    {
        Output::Failure(
            Failure { jsonrpc: Some(Version::V2), error: Error::invalid_request(), id },
        )
    }
}

} // verus!
