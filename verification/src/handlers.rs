//! The request handlers and the table that routes requests to them.
use vstd::prelude::*;
use vstd::string::StringExecFns;
use crate::common::{
    HandlerError, HandlerErrorView, Header, Request, ResponseModel, ResponseType, full_response,
    result_view, string_response,
};
use crate::config::Config;
use vstd::hash_map::StringHashMap;
use crate::text::{join, join_strings, strings_view};

pub mod download;
pub mod list;
pub mod not_found;

verus! {

broadcast use vstd::string::group_string_axioms;

/// The handlers a route can lead to.
#[derive(Clone, Copy, PartialEq, Eq, Structural)]
pub enum HandlerKind {
    /// Answers that nothing is found.
    NotFound,
    /// Serves the empty route.
    Root,
    /// Serves the `download` route.
    Download,
}

/// The routing table: the route each handler is registered under.
pub open spec fn handler_table() -> Map<Seq<char>, HandlerKind> {
    map!["not_found"@ => HandlerKind::NotFound, ""@ => HandlerKind::Root, "download"@ => HandlerKind::Download]
}

/// The routing table of the server.
pub fn init_handlers() -> (res: StringHashMap<HandlerKind>)
    ensures
        res@ == handler_table(),
{
    let mut map: StringHashMap<HandlerKind> = StringHashMap::new();
    map.insert(String::from_str("not_found"), HandlerKind::NotFound);
    map.insert(String::from_str(""), HandlerKind::Root);
    map.insert(String::from_str("download"), HandlerKind::Download);
    assert(map@ =~= handler_table());
    map
}

/// The handler that serves a route key: the one registered under it, or else
/// the one registered under `not_found`.
pub open spec fn chosen_handler(table: Map<Seq<char>, HandlerKind>, key: Seq<char>) -> HandlerKind {
    if table.contains_key(key) {
        table[key]
    } else {
        table["not_found"@]
    }
}

/// Where the routing table sends each route key: `download` to the download
/// handler, the empty key to the root handler, and every other key to the
/// `not_found` handler.
pub proof fn law_table_routes(key: Seq<char>)
    ensures
        key == "download"@ ==> chosen_handler(handler_table(), key) == HandlerKind::Download,
        key == ""@ ==> chosen_handler(handler_table(), key) == HandlerKind::Root,
        key != "download"@ && key != ""@ ==> chosen_handler(handler_table(), key)
            == HandlerKind::NotFound,
{
    reveal_strlit("download");
    reveal_strlit("");
    reveal_strlit("not_found");
    assert("download"@.len() == 8);
    assert(""@.len() == 0);
    assert("not_found"@.len() == 9);
    assert("download"@ != ""@);
    assert(handler_table().contains_key(""@));
    assert(handler_table().contains_key("download"@));
    assert(handler_table()["not_found"@] == HandlerKind::NotFound);
}

/// A request on the `download` route with any method other than `GET` is
/// refused with status 404 and the message `Path not supported`; a `GET` is
/// answered with status 200.
pub proof fn law_download_route_refuses_other_methods(r: Request)
    ensures
        !(r.method is Get) ==> handler_result(chosen_handler(handler_table(), "download"@), r)
            == Err::<ResponseModel, HandlerErrorView>(
            HandlerErrorView { code: 404, message: "Path not supported"@ },
        ),
        r.method is Get ==> (handler_result(chosen_handler(handler_table(), "download"@), r) matches Ok(
            ResponseModel::Cursor { status, headers, data },
        ) && status == 200 && data == "Not Implemented"@),
{
    law_table_routes("download"@);
    download::law_only_get_is_served(r.method);
}

/// Every route other than `download` and the empty one is answered with
/// the plain text `not found` and status 200.
pub proof fn law_unknown_routes_are_not_found(key: Seq<char>, r: Request)
    ensures
        key != "download"@ && key != ""@ ==> handler_result(chosen_handler(handler_table(), key), r)
            == Ok::<ResponseModel, HandlerErrorView>(
            ResponseModel::Cursor {
                status: 200,
                headers: seq![("Content-Type"@, "text/plain; charset=UTF-8"@)],
                data: "not found"@,
            },
        ),
{
    law_table_routes(key);
}

/// What each handler answers to a request.
pub open spec fn handler_result(kind: HandlerKind, request: Request) -> Result<
    ResponseModel,
    HandlerErrorView,
> {
    match kind {
        HandlerKind::NotFound => Ok(string_response("not found"@)),
        HandlerKind::Root => Ok(string_response("Default Response"@)),
        HandlerKind::Download => download::download_result(request.method),
    }
}

/// Serves the empty route. The route is registered, but no handler of its
/// own is defined for it; it answers with the default response.
fn handle_root(
    request: &Request,
    route: Vec<String>,
    params: StringHashMap<String>,
    config: &Config,
) -> (res: Result<ResponseType, HandlerError>)
    ensures
        result_view(res) == Ok::<_, HandlerErrorView>(string_response("Default Response"@)),
{
    Ok(ResponseType::default())
}

/// Routes a request to the handler registered under its route joined with
/// `/`, or to the `not_found` handler when none is, and answers with what
/// that handler answers.
pub fn handle_request(
    r: &Request,
    route: Vec<String>,
    params: StringHashMap<String>,
    handlers: &StringHashMap<HandlerKind>,
    config: &Config,
) -> (res: Result<ResponseType, HandlerError>)
    requires
        handlers@.contains_key("not_found"@),
    ensures
        result_view(res) == handler_result(
            chosen_handler(handlers@, join(strings_view(route@), "/"@)),
            *r,
        ),
{
    let key = join_strings(&route, "/");
    let fallback = *handlers.get("not_found").unwrap();
    let kind = match handlers.get(key.as_str()) {
        Some(k) => *k,
        None => fallback,
    };
    match kind {
        HandlerKind::NotFound => not_found::handle(r, route, params, config),
        HandlerKind::Root => handle_root(r, route, params, config),
        HandlerKind::Download => download::handle(r, route, params, config),
    }
}

/// The response to a failed request: the failure's status, a plain text
/// content type, and the failure's message as body.
pub open spec fn error_response_model(err: HandlerErrorView) -> ResponseModel {
    full_response(err.code, seq![("Content-Type"@, "text/plain"@)], err.message)
}

/// A failure is answered with its own status and its message as the body,
/// marked as plain text.
pub proof fn law_error_keeps_status_and_message(err: HandlerErrorView)
    ensures
        error_response_model(err) matches ResponseModel::Cursor { status, headers, data } && status
            == err.code && data == err.message && headers == seq![
            ("Content-Type"@, "text/plain"@),
        ],
{
}

/// Turns a handler failure into the response sent for it.
pub fn error_response(err: HandlerError) -> (res: ResponseType)
    ensures
        res@ == error_response_model(err@),
{
    let mut headers: Vec<Header> = Vec::new();
    headers.push(
        Header { field: String::from_str("Content-Type"), value: String::from_str("text/plain") },
    );
    let res = ResponseType::from_string_full(err.code, Some(headers), err.message);
    assert(crate::common::headers_view(headers@) =~= seq![("Content-Type"@, "text/plain"@)]);
    res
}

} // verus!
