//! The handler of the `download` route.
use vstd::prelude::*;
use vstd::string::StringExecFns;
use crate::common::{
    HandlerError, HandlerErrorView, Method, Request, ResponseModel, ResponseType, result_view,
    string_response,
};
use crate::config::Config;
use vstd::hash_map::StringHashMap;

verus! {

/// What the download route answers: a `GET` is not implemented yet, any other
/// method is refused with status 404.
pub open spec fn download_result(method: Method) -> Result<ResponseModel, HandlerErrorView> {
    match method {
        Method::Get => Ok(string_response("Not Implemented"@)),
        _ => Err(HandlerErrorView { code: 404, message: "Path not supported"@ }),
    }
}

/// The download route serves only `GET`: a `GET` is answered with the plain
/// text `Not Implemented` and status 200, and every other method is refused
/// with status 404 and the message `Path not supported`.
pub proof fn law_only_get_is_served(method: Method)
    ensures
        method is Get ==> download_result(method) == Ok::<ResponseModel, HandlerErrorView>(
            ResponseModel::Cursor {
                status: 200,
                headers: seq![("Content-Type"@, "text/plain; charset=UTF-8"@)],
                data: "Not Implemented"@,
            },
        ),
        !(method is Get) ==> download_result(method) == Err::<ResponseModel, HandlerErrorView>(
            HandlerErrorView { code: 404, message: "Path not supported"@ },
        ),
{
}

/// Serves the download route.
pub fn handle(
    request: &Request,
    route: Vec<String>,
    params: StringHashMap<String>,
    config: &Config,
) -> (res: Result<ResponseType, HandlerError>)
    ensures
        result_view(res) == download_result(request.method),
{
    match request.method {
        Method::Get => Ok(get(request, route, params, config)?),
        _ => Err(HandlerError::new(404u16, String::from_str("Path not supported"))),
    }
}

/// Serves a `GET` on the download route.
fn get(
    request: &Request,
    route: Vec<String>,
    params: StringHashMap<String>,
    config: &Config,
) -> (res: Result<ResponseType, HandlerError>)
    ensures
        result_view(res) == Ok::<_, HandlerErrorView>(string_response("Not Implemented"@)),
{
    Ok(ResponseType::not_implemented())
}

} // verus!
