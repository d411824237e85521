//! The responses that the server builds itself.

use vstd::prelude::*;
use vstd::string::*;
use vstd::utf8::*;
use crate::json::{encode_object, insert_member, json_text, new_object, JsonScalar, JsonScalarView};
use crate::message::{headers_view, Request, Response, ResponseView};

verus! {

/// The header lines of every response built here: the content type, which
/// is JSON.
pub open spec fn json_headers() -> Seq<(Seq<char>, Seq<char>)> {
    seq![("Content-Type"@, "application/json"@)]
}

/// The response with the given status that carries `text` as JSON: the
/// body holds the text as UTF-8.
pub open spec fn json_response_view(status: u16, text: Seq<char>) -> ResponseView {
    ResponseView { status, headers: json_headers(), body: encode_utf8(text) }
}

/// Wraps encoded JSON text into a response.
pub fn response_from_text(status: u16, text: &str) -> (response: Response)
    ensures
        response@ == json_response_view(status, text@),
{
    let mut headers: Vec<(String, String)> = Vec::new();
    headers.push(("Content-Type".to_owned(), "application/json".to_owned()));
    assert(headers_view(headers@) =~= json_headers());
    Response { status, headers, body: text.as_bytes_vec() }
}

/// The object `{"message": "Hello from Defacto Backend!", "status": "ok"}`.
pub open spec fn greeting_object() -> Map<Seq<char>, JsonScalarView> {
    map![
        "message"@ => JsonScalarView::Text("Hello from Defacto Backend!"@),
        "status"@ => JsonScalarView::Text("ok"@),
    ]
}

/// The object `{"error": reason, "status": status}`.
pub open spec fn error_object(status: u16, reason: Seq<char>) -> Map<Seq<char>, JsonScalarView> {
    map![
        "error"@ => JsonScalarView::Text(reason),
        "status"@ => JsonScalarView::Number(status as u64),
    ]
}

/// The greeting: status 200 with the greeting object as its body.
pub open spec fn greeting_response() -> ResponseView {
    json_response_view(200, json_text(greeting_object()))
}

/// The response that reports `status` in its status line and, together
/// with `reason`, in its body.
pub open spec fn error_response_view(status: u16, reason: Seq<char>) -> ResponseView {
    json_response_view(status, json_text(error_object(status, reason)))
}

/// Status 404 with `{"error": "Not Found", "status": 404}` as its body.
pub open spec fn not_found_response() -> ResponseView {
    error_response_view(404, "Not Found"@)
}

/// Status 405 with `{"error": "Method Not Allowed", "status": 405}` as its
/// body.
pub open spec fn method_not_allowed_response() -> ResponseView {
    error_response_view(405, "Method Not Allowed"@)
}

/// Status 500 with `{"error": "Internal Server Error", "status": 500}` as
/// its body.
pub open spec fn internal_error_response() -> ResponseView {
    error_response_view(500, "Internal Server Error"@)
}

/// The default handler: answers any request with the greeting.
pub fn handle_default(_req: &Request) -> (response: Response)
    ensures
        response@ == greeting_response(),
{
    let mut object = new_object();
    insert_member(
        &mut object,
        "message".to_owned(),
        JsonScalar::Text("Hello from Defacto Backend!".to_owned()),
    );
    insert_member(&mut object, "status".to_owned(), JsonScalar::Text("ok".to_owned()));
    let text = encode_object(object).unwrap();
    response_from_text(200, text.as_str())
}

/// Builds the response that reports an error: `status` in the status line,
/// and `reason` and `status` in the body.
pub fn error_response(status: u16, reason: &str) -> (response: Response)
    ensures
        response@ == error_response_view(status, reason@),
{
    let mut object = new_object();
    insert_member(&mut object, "error".to_owned(), JsonScalar::Text(reason.to_owned()));
    insert_member(&mut object, "status".to_owned(), JsonScalar::Number(status as u64));
    let text = encode_object(object).unwrap();
    response_from_text(status, text.as_str())
}

/// The answer to a request that no route matches.
pub fn not_found() -> (response: Response)
    ensures
        response@ == not_found_response(),
{
    error_response(404, "Not Found")
}

/// The answer to a request whose method has no routes at all.
pub fn method_not_allowed() -> (response: Response)
    ensures
        response@ == method_not_allowed_response(),
{
    error_response(405, "Method Not Allowed")
}

/// The answer to a request whose handler failed.
pub fn internal_error() -> (response: Response)
    ensures
        response@ == internal_error_response(),
{
    error_response(500, "Internal Server Error")
}

/// Settles what goes back to the client once a request has been handled.
///
/// A handler answers by returning its response, and `answer` holds it. A
/// handler that failed instead of returning leaves no answer: the client is
/// then told of an internal error, and the connection goes on.
pub fn settle(answer: Option<Response>) -> (response: Response)
    ensures
        match answer {
            Some(given) => response == given,
            None => response@ == internal_error_response(),
        },
{
    match answer {
        Some(given) => given,
        None => internal_error(),
    }
}

} // verus!
