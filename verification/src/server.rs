//! The dispatcher: from one call to its output, from a request to its
//! response, and from request text to response text.

use vstd::prelude::*;
use serde_json::Value;
use crate::types::{
    Call, CallView, Error, ErrorCode, ErrorView, IdView, MethodCall, Notification, Output,
    OutputView, Params, ParamsView, Request, RequestView, Response, ResponseView, Version,
    result_view,
};
use crate::transport::{parse, render, request_or_invalid, response_text};
use crate::wire::{parsed_request, rendered_response};

verus! {

/// The outputs that a dispatcher may give for one call, where `answers` holds
/// of a method, its parameters and each answer that the server may give.
///
/// A notification never has an output. An entry that is no well-formed call
/// has the "invalid request" failure under its identifier. A method call has
/// the output that wraps an answer of the server to that method and those
/// parameters, under the call's identifier and version.
pub open spec fn call_outcome(
    answers: spec_fn(Seq<char>, ParamsView, Result<Value, ErrorView>) -> bool,
    call: CallView,
    out: Option<OutputView>,
) -> bool {
    match call {
        CallView::Notification { .. } => out is None,
        CallView::MethodCall { jsonrpc, method, params, id } => exists|
            res: Result<Value, ErrorView>,
        |
            #![auto]
            answers(method, params, res) && out == Some(OutputView::from_result(res, id, jsonrpc)),
        CallView::Invalid { id } => out == Some(OutputView::invalid_request(id)),
    }
}

/// The outputs of the calls that have one, in the order of the calls.
pub open spec fn outputs_of(per_call: Seq<Option<OutputView>>) -> Seq<OutputView>
    decreases per_call.len(),
{
    if per_call.len() == 0 {
        Seq::empty()
    } else {
        let before = outputs_of(per_call.drop_last());
        match per_call.last() {
            Some(output) => before.push(output),
            None => before,
        }
    }
}

/// The response to a batch whose calls gave these outputs: none at all where
/// no call gave one, the batch of the outputs otherwise.
pub open spec fn batch_response(outputs: Seq<OutputView>) -> Option<ResponseView> {
    if outputs.len() == 0 {
        None
    } else {
        Some(ResponseView::Batch(outputs))
    }
}

/// The responses that a dispatcher may give to a request.
///
/// A single call has the response that holds its output, and none where it
/// has no output. A batch has the response made of the outputs of its calls,
/// each call dispatched by itself, in the order of the calls and without the
/// calls that have no output; where no call has one there is no response.
pub open spec fn request_outcome(
    answers: spec_fn(Seq<char>, ParamsView, Result<Value, ErrorView>) -> bool,
    request: RequestView,
    out: Option<ResponseView>,
) -> bool {
    match request {
        RequestView::Single(call) => match out {
            None => call_outcome(answers, call, None),
            Some(ResponseView::Single(output)) => call_outcome(answers, call, Some(output)),
            Some(ResponseView::Batch(_)) => false,
        },
        RequestView::Batch(calls) => exists|per_call: Seq<Option<OutputView>>|
            #![auto]
            {
                &&& per_call.len() == calls.len()
                &&& forall|i: int|
                    0 <= i < calls.len() ==> call_outcome(answers, calls[i], #[trigger] per_call[i])
                &&& out == batch_response(outputs_of(per_call))
            },
    }
}

/// The texts that a dispatcher may answer to a request text, and `None` where
/// it answers nothing: the text of a response to the request that stands for
/// the request text.
pub open spec fn raw_outcome(
    answers: spec_fn(Seq<char>, ParamsView, Result<Value, ErrorView>) -> bool,
    text: Seq<char>,
    out: Option<Seq<char>>,
) -> bool {
    exists|response: Option<ResponseView>|
        #![auto]
        {
            &&& request_outcome(answers, request_or_invalid(parsed_request(text)), response)
            &&& out == match response {
                Some(response) => Some(response_text(rendered_response(response))),
                None => None,
            }
        }
}

/// Whether a method is unknown to a server: "method not found" is the only
/// answer that the server gives for it, whatever the parameters.
pub open spec fn unknown_method(
    answers: spec_fn(Seq<char>, ParamsView, Result<Value, ErrorView>) -> bool,
    method: Seq<char>,
) -> bool {
    forall|params: ParamsView, res: Result<Value, ErrorView>| #[trigger]
        answers(method, params, res) ==> res == Err::<Value, ErrorView>(
            ErrorView::method_not_found(),
        )
}

/// Whether every entry of a batch is a notification.
pub open spec fn only_notifications(calls: Seq<CallView>) -> bool {
    forall|i: int| 0 <= i < calls.len() ==> #[trigger] calls[i] is Notification
}

/// A call to a method that is unknown to the server is answered by the
/// failure "method not found", under the identifier and version of the call.
pub proof fn unknown_method_is_not_found(
    answers: spec_fn(Seq<char>, ParamsView, Result<Value, ErrorView>) -> bool,
    jsonrpc: Option<Version>,
    method: Seq<char>,
    params: ParamsView,
    id: IdView,
    out: Option<OutputView>,
)
    requires
        unknown_method(answers, method),
        call_outcome(answers, CallView::MethodCall { jsonrpc, method, params, id }, out),
    ensures
        out == Some(OutputView::Failure { jsonrpc, error: ErrorView::method_not_found(), id }),
        out.unwrap()->Failure_error.code == ErrorCode::MethodNotFound,
{
}

/// A notification is never answered, whatever the server makes of it.
pub proof fn notification_is_not_answered(
    answers: spec_fn(Seq<char>, ParamsView, Result<Value, ErrorView>) -> bool,
    call: CallView,
    out: Option<OutputView>,
)
    requires
        call is Notification,
        call_outcome(answers, call, out),
    ensures
        out is None,
{
}

/// Every call that is no notification is answered, and the output repeats
/// the identifier of the call.
pub proof fn output_repeats_id(
    answers: spec_fn(Seq<char>, ParamsView, Result<Value, ErrorView>) -> bool,
    call: CallView,
    out: Option<OutputView>,
)
    requires
        !(call is Notification),
        call_outcome(answers, call, out),
    ensures
        out is Some,
        out.unwrap().id() == call.id(),
{
}

/// The outputs of a batch are those of its first part followed by those of
/// its second part: the order of the calls is kept, and a call without an
/// output leaves no gap.
pub proof fn outputs_keep_order(first: Seq<Option<OutputView>>, second: Seq<Option<OutputView>>)
    ensures
        outputs_of(first + second) == outputs_of(first) + outputs_of(second),
    decreases second.len(),
{
    if second.len() > 0 {
        outputs_keep_order(first, second.drop_last());
        assert((first + second).drop_last() =~= first + second.drop_last());
    }
}

/// One call gives one output, or none.
pub proof fn outputs_of_one(output: Option<OutputView>)
    ensures
        outputs_of(seq![output]) == match output {
            Some(output) => seq![output],
            None => Seq::<OutputView>::empty(),
        },
{
    assert(outputs_of(seq![output].drop_last()) =~= Seq::<OutputView>::empty());
}

/// Calls that all have no output give no outputs.
pub proof fn no_outputs_of_none(per_call: Seq<Option<OutputView>>)
    requires
        forall|i: int| 0 <= i < per_call.len() ==> per_call[i] is None,
    ensures
        outputs_of(per_call).len() == 0,
    decreases per_call.len(),
{
    if per_call.len() > 0 {
        no_outputs_of_none(per_call.drop_last());
    }
}

/// A batch that consists of notifications only has no response at all: not
/// even an empty batch.
pub proof fn notifications_have_no_response(
    answers: spec_fn(Seq<char>, ParamsView, Result<Value, ErrorView>) -> bool,
    calls: Seq<CallView>,
    out: Option<ResponseView>,
)
    requires
        only_notifications(calls),
        request_outcome(answers, RequestView::Batch(calls), out),
    ensures
        out is None,
{
    let per_call = choose|per_call: Seq<Option<OutputView>>|
        {
            &&& per_call.len() == calls.len()
            &&& forall|i: int|
                0 <= i < calls.len() ==> call_outcome(answers, calls[i], #[trigger] per_call[i])
            &&& out == batch_response(outputs_of(per_call))
        };
    assert forall|i: int| 0 <= i < per_call.len() implies per_call[i] is None by {}
    no_outputs_of_none(per_call);
}

/// A single notification has no response.
pub proof fn single_notification_has_no_response(
    answers: spec_fn(Seq<char>, ParamsView, Result<Value, ErrorView>) -> bool,
    call: CallView,
    out: Option<ResponseView>,
)
    requires
        call is Notification,
        request_outcome(answers, RequestView::Single(call), out),
    ensures
        out is None,
{
}

/// A request text that cannot be read as a request is answered by the text
/// of the "invalid request" failure under the null identifier.
pub proof fn unreadable_text_is_invalid_request(
    answers: spec_fn(Seq<char>, ParamsView, Result<Value, ErrorView>) -> bool,
    text: Seq<char>,
    out: Option<Seq<char>>,
)
    requires
        parsed_request(text) is None,
        raw_outcome(answers, text, out),
    ensures
        out == Some(
            response_text(
                rendered_response(
                    ResponseView::Single(OutputView::invalid_request(IdView::Null)),
                ),
            ),
        ),
{
}

/// Handles JSON-RPC calls.
pub trait JSONRPCServer {
    /// Whether `res` is an answer that the server may give when it is asked
    /// for `method` with `params`. Unless an implementation says otherwise,
    /// every answer is.
    open spec fn handles(
        &self,
        method: Seq<char>,
        params: ParamsView,
        res: Result<Value, ErrorView>,
    ) -> bool {
        true
    }

    /// Checks the parameters and calls the method, if the server has it.
    fn handle(&self, method: &str, params: Params) -> (res: Result<Value, Error>)
        ensures
            self.handles(method@, params@, result_view(res)),
    ;

    /// Dispatches one call. A method call is handed to `handle` and answered
    /// by a success or a failure under its identifier; a notification is
    /// handed to `handle` and never answered; an entry that is no well-formed
    /// call is answered by the "invalid request" failure.
    fn handle_call(&self, call: Call) -> (out: Option<Output>)
        ensures
            call_outcome(
                |method: Seq<char>, params: ParamsView, res: Result<Value, ErrorView>|
                    self.handles(method, params, res),
                call@,
                out.deep_view(),
            ),
            call is Notification <==> out is None,
    {
        match call {
            Call::Notification(Notification { method, params, .. }) => {
                let _ = self.handle(method.as_str(), params);
                None
            },
            Call::MethodCall(MethodCall { method, params, id, jsonrpc }) => {
                let res = self.handle(method.as_str(), params);
                Some(Output::from_result(res, id, jsonrpc))
            },
            Call::Invalid { id } => Some(Output::invalid_request(id)),
        }
    }

    /// Handles a request: a single call, or a whole batch in its order.
    /// Returns the single output or the batch of outputs, and nothing where
    /// the request consists of notifications only.
    fn handle_parsed(&self, request: Request) -> (out: Option<Response>)
        ensures
            request_outcome(
                |method: Seq<char>, params: ParamsView, res: Result<Value, ErrorView>|
                    self.handles(method, params, res),
                request@,
                out.deep_view(),
            ),
    {
        let ghost answers = |method: Seq<char>, params: ParamsView, res: Result<Value, ErrorView>|
            self.handles(method, params, res);
        match request {
            Request::Single(call) => match self.handle_call(call) {
                Some(output) => Some(Response::Single(output)),
                None => None,
            },
            Request::Batch(calls) => {
                let ghost batch = calls.deep_view();
                let mut outputs: Vec<Output> = Vec::new();
                let ghost mut per_call: Seq<Option<OutputView>> = Seq::empty();
                for call in iter: calls
                    invariant
                        answers == (|
                            method: Seq<char>,
                            params: ParamsView,
                            res: Result<Value, ErrorView>,
                        | self.handles(method, params, res)),
                        iter.seq().len() == batch.len(),
                        forall|i: int| 0 <= i < batch.len() ==> iter.seq()[i]@ == batch[i],
                        per_call.len() == iter.index(),
                        forall|i: int|
                            0 <= i < per_call.len() ==> call_outcome(
                                answers,
                                batch[i],
                                #[trigger] per_call[i],
                            ),
                        outputs.deep_view() == outputs_of(per_call),
                {
                    let output = self.handle_call(call);
                    proof {
                        let before = per_call;
                        per_call = per_call.push(output.deep_view());
                        assert(per_call.drop_last() == before);
                    }
                    if let Some(output) = output {
                        outputs.push(output);
                    }
                }
                if outputs.is_empty() {
                    None
                } else {
                    Some(Response::Batch(outputs))
                }
            },
        }
    }

    /// Takes a request as JSON text, handles it, and returns the response as
    /// JSON text, or nothing where the request has no response. A text that
    /// cannot be read as a request is answered by the "invalid request"
    /// failure under the null identifier.
    fn handle_raw(&self, request: &str) -> (out: Option<String>)
        ensures
            raw_outcome(
                |method: Seq<char>, params: ParamsView, res: Result<Value, ErrorView>|
                    self.handles(method, params, res),
                request@,
                out.deep_view(),
            ),
    {
        let request = parse(request);
        match self.handle_parsed(request) {
            Some(response) => Some(render(response)),
            None => None,
        }
    }
}

/// A reference to a server is a server: it answers as the server does.
impl<'a, S: JSONRPCServer + ?Sized> JSONRPCServer for &'a S {
    open spec fn handles(
        &self,
        method: Seq<char>,
        params: ParamsView,
        res: Result<Value, ErrorView>,
    ) -> bool {
        (**self).handles(method, params, res)
    }

    fn handle(&self, method: &str, params: Params) -> (res: Result<Value, Error>) {
        (**self).handle(method, params)
    }
}

/// Whether a method name is reserved: the names that begin with `rpc.`
/// belong to the protocol, and no server may offer a method under one.
pub open spec fn reserved_name(method: Seq<char>) -> bool {
    "rpc."@.is_prefix_of(method)
}

/// Tells whether a method name is reserved for the protocol. Whoever builds
/// a server refuses a method of such a name before the server exists.
pub fn is_reserved_name(method: &str) -> (reserved: bool)
    ensures
        reserved == reserved_name(method@),
{
    proof {
        reveal_strlit("rpc.");
    }
    if method.unicode_len() < 4 {
        return false;
    }
    let reserved = method.get_char(0) == 'r' && method.get_char(1) == 'p' && method.get_char(2)
        == 'c' && method.get_char(3) == '.';
    proof {
        if reserved {
        } else {
            assert(method@.subrange(0, 4)[0] == method@[0]);
            assert(method@.subrange(0, 4)[1] == method@[1]);
            assert(method@.subrange(0, 4)[2] == method@[2]);
            assert(method@.subrange(0, 4)[3] == method@[3]);
        }
    }
    reserved
}

} // verus!
