//! The transport adapter: reads a request from JSON text and writes a
//! response as JSON text. Text that is no request still reads as a request,
//! one that is answered by a failure.

use vstd::prelude::*;
use crate::types::{Call, CallView, Id, IdView, Request, RequestView, Response};
use crate::wire::{parse_request, parsed_request, render_response, rendered_response};

verus! {

/// The request that stands for a text: the one that the text was read as,
/// and for a text that is no request the single entry that is no well-formed
/// call, under the null identifier.
pub open spec fn request_or_invalid(parsed: Option<RequestView>) -> RequestView {
    match parsed {
        Some(request) => request,
        None => RequestView::Single(CallView::Invalid { id: IdView::Null }),
    }
}

/// The text that goes out for a response: the one that it was written as,
/// and a fixed diagnostic where it could not be written.
pub open spec fn response_text(rendered: Option<Seq<char>>) -> Seq<char> {
    match rendered {
        Some(text) => text,
        None => "unexpected serialization error, this is a bug"@,
    }
}

/// Chooses the request to dispatch from what reading the request text gave:
/// the request itself, or for a text that is no request the single entry
/// that is no well-formed call, so that such a text is answered by an
/// "invalid request" failure.
pub fn parsed_or_invalid(parsed: Option<Request>) -> (request: Request)
    ensures
        request@ == request_or_invalid(parsed.deep_view()),
{
    match parsed {
        Some(request) => request,
        None => Request::Single(Call::Invalid { id: Id::Null }),
    }
}

/// Chooses the text to send from what writing the response gave: the text
/// itself, or a fixed diagnostic where the response could not be written.
pub fn rendered_or_diagnostic(rendered: Option<String>) -> (text: String)
    ensures
        text@ == response_text(rendered.deep_view()),
{
    match rendered {
        Some(text) => text,
        None => "unexpected serialization error, this is a bug".to_owned(),
    }
}

/// Reads a request from JSON text. A text that cannot be read as a request
/// gives the single entry that is no well-formed call, under the null
/// identifier, so that it is answered by an "invalid request" failure.
pub fn parse(text: &str) -> (request: Request)
    ensures
        request@ == request_or_invalid(parsed_request(text@)),
{
    parsed_or_invalid(parse_request(text))
}

/// Writes a response as JSON text. A response that cannot be written gives
/// a fixed diagnostic in its place.
pub fn render(response: Response) -> (text: String)
    ensures
        text@ == response_text(rendered_response(response@)),
{
    rendered_or_diagnostic(render_response(response))
}

} // verus!
