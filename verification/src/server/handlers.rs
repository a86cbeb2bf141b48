//! The request handlers: each turns a request into a response and says what
//! the embedding has to do besides sending it.

use crate::server::lifecycle::{
    callback_signals, carries_code, close_signals, forwards_event, resolves_slot,
    slot_after_callback, slot_after_stop_request, Capture, ServerManager,
};
use crate::server::params::{decoded_query, last_wins, QueryParams};
use crate::server::routes::{
    asset_relative, asset_relative_path, resolve_route, route_for, Route,
};
use crate::server::session::Session;
use crate::text::{chars_end_with, chars_of, has_suffix};
use vstd::prelude::*;
use vstd::string::StrSliceExecFns;

verus! {

/// Name of the event under which a captured callback is forwarded to the
/// host.
pub const CODE_RECEIVED_EVENT: &'static str = "oauth:code_received";

/// The page that tells the user that the browser window can be closed.
pub const CONFIRMATION_PAGE: &'static str =
    "<!DOCTYPE html>\n<html>\n<head>\n    <title>Authorization Complete</title>\n    <style>\n        body { font-family: Arial, sans-serif; text-align: center; padding: 50px; }\n        h1 { color: #4CAF50; }\n        p { font-size: 18px; }\n    </style>\n</head>\n<body>\n    <h1>Authorization Complete</h1>\n    <p>You can now close this window.</p>\n</body>\n</html>\n";

/// An HTTP response, ready to be sent.
#[derive(Clone, Debug, PartialEq, Eq)]
pub struct Response {
    /// Status code.
    pub status: u16,
    /// Value of the `Content-Type` header.
    pub content_type: String,
    /// The body, as sent.
    pub body: Vec<u8>,
}

impl Response {
    /// Whether this is the response with `status` whose body is `text`
    /// in UTF-8, labelled as `content_type`.
    pub open spec fn is_text(self, status: u16, content_type: Seq<char>, text: Seq<char>) -> bool {
        &&& self.status == status
        &&& self.content_type@ == content_type
        &&& self.body@ == vstd::utf8::encode_utf8(text)
    }

    /// The response with `status` whose body is `text`.
    pub fn text(status: u16, content_type: &str, text: &str) -> (response: Response)
        ensures
            response.is_text(status, content_type@, text@),
    {
        Response { status, content_type: content_type.to_owned(), body: text.as_bytes_vec() }
    }
}

impl Response {
    /// Whether this is the confirmation page.
    pub open spec fn is_confirmation(self) -> bool {
        self.is_text(200, "text/html; charset=utf-8"@, CONFIRMATION_PAGE@)
    }

    /// Whether this is the acknowledgement of a close request.
    pub open spec fn is_close_ack(self) -> bool {
        self.is_text(200, "text/plain; charset=utf-8"@, "Server closing"@)
    }

    /// Whether this is the rejection of a query that cannot be decoded.
    pub open spec fn is_bad_request(self) -> bool {
        self.is_text(400, "text/plain; charset=utf-8"@, "Bad Request"@)
    }

    /// Whether this is the answer to a path outside the route table, or to
    /// an asset that does not exist.
    pub open spec fn is_not_found(self) -> bool {
        self.is_text(404, "text/plain; charset=utf-8"@, "Not Found"@)
    }

    /// Whether this is the answer to a method that a route does not serve.
    pub open spec fn is_method_not_allowed(self) -> bool {
        self.is_text(405, "text/plain; charset=utf-8"@, "Method Not Allowed"@)
    }

    /// Whether this is the answer to an asset that was found but could not
    /// be read.
    pub open spec fn is_read_failure(self) -> bool {
        self.is_text(500, "text/plain; charset=utf-8"@, "Internal Server Error"@)
    }

    /// The confirmation page.
    pub fn confirmation() -> (response: Response)
        ensures
            response.is_confirmation(),
    {
        Response::text(200, "text/html; charset=utf-8", CONFIRMATION_PAGE)
    }

    /// The acknowledgement of a close request.
    pub fn close_ack() -> (response: Response)
        ensures
            response.is_close_ack(),
    {
        Response::text(200, "text/plain; charset=utf-8", "Server closing")
    }

    /// The rejection of a query that cannot be decoded.
    pub fn bad_request() -> (response: Response)
        ensures
            response.is_bad_request(),
    {
        Response::text(400, "text/plain; charset=utf-8", "Bad Request")
    }

    /// The answer to what does not exist.
    pub fn not_found() -> (response: Response)
        ensures
            response.is_not_found(),
    {
        Response::text(404, "text/plain; charset=utf-8", "Not Found")
    }

    /// The answer to a method that a route does not serve.
    pub fn method_not_allowed() -> (response: Response)
        ensures
            response.is_method_not_allowed(),
    {
        Response::text(405, "text/plain; charset=utf-8", "Method Not Allowed")
    }

    /// The answer to an asset that could not be read.
    pub fn read_failure() -> (response: Response)
        ensures
            response.is_read_failure(),
    {
        Response::text(500, "text/plain; charset=utf-8", "Internal Server Error")
    }
}

/// The content type guessed from the end of a file name.
pub open spec fn content_type_for(path: Seq<char>) -> Seq<char> {
    if has_suffix(path, ".html"@) || has_suffix(path, ".htm"@) {
        "text/html; charset=utf-8"@
    } else if has_suffix(path, ".css"@) {
        "text/css; charset=utf-8"@
    } else if has_suffix(path, ".js"@) {
        "text/javascript; charset=utf-8"@
    } else if has_suffix(path, ".json"@) {
        "application/json"@
    } else if has_suffix(path, ".svg"@) {
        "image/svg+xml"@
    } else if has_suffix(path, ".png"@) {
        "image/png"@
    } else if has_suffix(path, ".jpg"@) || has_suffix(path, ".jpeg"@) {
        "image/jpeg"@
    } else if has_suffix(path, ".gif"@) {
        "image/gif"@
    } else if has_suffix(path, ".ico"@) {
        "image/x-icon"@
    } else if has_suffix(path, ".txt"@) {
        "text/plain; charset=utf-8"@
    } else {
        "application/octet-stream"@
    }
}

/// Guesses the content type of a file from the end of its name.
pub fn guess_content_type(path: &str) -> (content_type: &'static str)
    ensures
        content_type@ == content_type_for(path@),
{
    let name = chars_of(path);
    if chars_end_with(&name, ".html") || chars_end_with(&name, ".htm") {
        "text/html; charset=utf-8"
    } else if chars_end_with(&name, ".css") {
        "text/css; charset=utf-8"
    } else if chars_end_with(&name, ".js") {
        "text/javascript; charset=utf-8"
    } else if chars_end_with(&name, ".json") {
        "application/json"
    } else if chars_end_with(&name, ".svg") {
        "image/svg+xml"
    } else if chars_end_with(&name, ".png") {
        "image/png"
    } else if chars_end_with(&name, ".jpg") || chars_end_with(&name, ".jpeg") {
        "image/jpeg"
    } else if chars_end_with(&name, ".gif") {
        "image/gif"
    } else if chars_end_with(&name, ".ico") {
        "image/x-icon"
    } else if chars_end_with(&name, ".txt") {
        "text/plain; charset=utf-8"
    } else {
        "application/octet-stream"
    }
}

/// What the embedding found when it looked an asset up.
#[derive(Clone, Debug, PartialEq, Eq)]
pub enum AssetOutcome {
    /// The resolver knows no file under the requested path.
    Unresolved,
    /// The path resolved, and no file is there.
    Missing,
    /// The file is there and reading it failed; the detail is the reader's.
    ReadFailed(String),
    /// The content of the file.
    Loaded(Vec<u8>),
}

/// Whether `response` is the answer to an asset request with this outcome:
/// 404 where nothing was found, 500 where reading failed, else the content
/// under its guessed type.
pub open spec fn answers_asset(
    response: Response,
    relative_path: Seq<char>,
    outcome: AssetOutcome,
) -> bool {
    match outcome {
        AssetOutcome::Unresolved => response.is_not_found(),
        AssetOutcome::Missing => response.is_not_found(),
        AssetOutcome::ReadFailed(_) => response.is_read_failure(),
        AssetOutcome::Loaded(content) => {
            &&& response.status == 200
            &&& response.content_type@ == content_type_for(relative_path)
            &&& response.body == content
        },
    }
}

/// The response to an asset request, given what the lookup found.
pub fn asset_response(relative_path: &str, outcome: AssetOutcome) -> (response: Response)
    ensures
        answers_asset(response, relative_path@, outcome),
{
    match outcome {
        AssetOutcome::Unresolved => Response::not_found(),
        AssetOutcome::Missing => Response::not_found(),
        AssetOutcome::ReadFailed(_) => Response::read_failure(),
        AssetOutcome::Loaded(content) => Response {
            status: 200,
            content_type: guess_content_type(relative_path).to_owned(),
            body: content,
        },
    }
}

/// A request that is answered without a look at the disk.
#[derive(Debug)]
pub struct Reply {
    /// What to send back.
    pub response: Response,
    /// Where captured parameters go.
    pub capture: Capture,
    /// Whether to send the shutdown signal, best effort and without waiting
    /// for it to take effect. The response is still sent: the drain serves
    /// what was accepted.
    pub signal_shutdown: bool,
}

/// An asset that the embedding has to look up before the request can be
/// answered with [`asset_response`].
#[derive(Clone, Debug, PartialEq, Eq)]
pub struct AssetLookup {
    /// Path below the asset root.
    pub relative_path: String,
    /// Display language of the session, where it has one.
    pub language: Option<String>,
}

/// What handling a request came to.
#[derive(Debug)]
pub enum Handled {
    /// The request is answered.
    Reply(Reply),
    /// The answer depends on a file.
    Asset(AssetLookup),
}

/// The display language that the handlers read from a slot.
pub open spec fn language_of(slot: Option<Session>) -> Option<String> {
    match slot {
        Some(session) => match session.render_context {
            Some(context) => Some(context.language),
            None => None,
        },
        None => None,
    }
}

/// Whether `capture` is where a callback with `params` goes, given the slot
/// that the callback found.
pub open spec fn captures(
    capture: Capture,
    slot: Option<Session>,
    params: Map<Seq<char>, Seq<char>>,
) -> bool {
    if resolves_slot(slot, carries_code(params)) {
        capture matches Capture::Deliver(delivered) && delivered@ == params
    } else if forwards_event(slot, carries_code(params)) {
        capture matches Capture::Emit(forwarded) && forwarded@ == params
    } else {
        capture is Nothing
    }
}

/// Whether `reply` leaves everything but the response to do: nothing is
/// captured and no signal sent.
pub open spec fn only_responds(reply: Reply) -> bool {
    reply.capture is Nothing && !reply.signal_shutdown
}

/// Whether `handled` and `after` are what handling the request `method
/// path?query` comes to for a manager whose slot was `before`.
pub open spec fn handles(
    before: Option<Session>,
    method: Seq<char>,
    path: Seq<char>,
    query: Seq<char>,
    handled: Handled,
    after: Option<Session>,
) -> bool {
    match route_for(method, path) {
        Route::Callback => match decoded_query(query) {
            Some(pairs) => {
                let params = last_wins(pairs);
                &&& after == slot_after_callback(before, carries_code(params))
                &&& handled matches Handled::Reply(reply)
                &&& reply.response.is_confirmation()
                &&& captures(reply.capture, before, params)
                &&& reply.signal_shutdown == callback_signals(before, carries_code(params))
            },
            None => {
                &&& after == before
                &&& handled matches Handled::Reply(reply)
                &&& reply.response.is_bad_request()
                &&& only_responds(reply)
            },
        },
        Route::Close => {
            &&& after == slot_after_stop_request(before)
            &&& handled matches Handled::Reply(reply)
            &&& reply.response.is_close_ack()
            &&& reply.capture is Nothing
            &&& reply.signal_shutdown == close_signals(before)
        },
        Route::Asset => {
            &&& after == before
            &&& handled matches Handled::Asset(lookup)
            &&& lookup.relative_path@ == asset_relative(path)
            &&& lookup.language == language_of(before)
        },
        Route::MethodNotAllowed => {
            &&& after == before
            &&& handled matches Handled::Reply(reply)
            &&& reply.response.is_method_not_allowed()
            &&& only_responds(reply)
        },
        Route::NotFound => {
            &&& after == before
            &&& handled matches Handled::Reply(reply)
            &&& reply.response.is_not_found()
            &&& only_responds(reply)
        },
    }
}

fn respond_only(response: Response) -> (handled: Handled)
    ensures
        handled matches Handled::Reply(reply) && reply.response == response && only_responds(reply),
{
    Handled::Reply(Reply { response, capture: Capture::Nothing, signal_shutdown: false })
}

/// Handles a callback whose query has been decoded: the confirmation page
/// is the answer whether or not a code came.
pub fn callback_reply(manager: &mut ServerManager, params: QueryParams) -> (reply: Reply)
    ensures
        final(manager)@ == slot_after_callback(old(manager)@, carries_code(params@)),
        reply.response.is_confirmation(),
        captures(reply.capture, old(manager)@, params@),
        reply.signal_shutdown == callback_signals(old(manager)@, carries_code(params@)),
{
    let effects = manager.on_callback(params);
    Reply {
        response: Response::confirmation(),
        capture: effects.capture,
        signal_shutdown: effects.signal_shutdown,
    }
}

/// Handles one request. `path` and `query` are the two parts of the request
/// target, the query without its question mark and empty where there is
/// none.
pub fn handle_request(manager: &mut ServerManager, method: &str, path: &str, query: &str) -> (handled:
    Handled)
    ensures
        handles(old(manager)@, method@, path@, query@, handled, final(manager)@),
{
    match resolve_route(method, path) {
        Route::Callback => match QueryParams::parse(query) {
            Some(params) => Handled::Reply(callback_reply(manager, params)),
            None => respond_only(Response::bad_request()),
        },
        Route::Close => {
            let signal_shutdown = manager.on_close();
            Handled::Reply(
                Reply { response: Response::close_ack(), capture: Capture::Nothing, signal_shutdown },
            )
        },
        Route::Asset => {
            let relative_path = match asset_relative_path(path) {
                Some(rest) => rest,
                None => vstd::pervasive::unreached(),
            };
            let language = match manager.render_context() {
                Some(context) => Some(context.language.clone()),
                None => None,
            };
            Handled::Asset(AssetLookup { relative_path, language })
        },
        Route::MethodNotAllowed => respond_only(Response::method_not_allowed()),
        Route::NotFound => respond_only(Response::not_found()),
    }
}

} // verus!
